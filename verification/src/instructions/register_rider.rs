//! Registering a rider.

use vstd::prelude::*;

use crate::state::{AccountKey, Rider};

verus! {

/// The record of a newly registered rider with wallet `wallet`: verified,
/// without points or penalties, not renting.
pub open spec fn new_rider(wallet: AccountKey, bump: u8) -> Rider {
    Rider { wallet, id_status: true, points: 0, penalties: 0, is_renting: false, bump }
}

/// The accounts that registering a rider reads.
#[derive(Clone, Copy, Debug, PartialEq, Eq, Structural)]
pub struct RegisterRider {
    /// Wallet of the rider, who signs.
    pub rider: AccountKey,
}

impl RegisterRider {
    /// The record of the newly registered rider.
    pub fn register_rider(&self, rider_bump: u8) -> (r: Rider)
        ensures
            r == new_rider(self.rider, rider_bump),
    {
        Rider { wallet: self.rider, id_status: true, points: 0, penalties: 0, is_renting: false, bump: rider_bump }
    }
}

} // verus!
