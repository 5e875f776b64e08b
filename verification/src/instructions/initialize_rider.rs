//! Registering a rider: the same record as `register_rider` gives.

use vstd::prelude::*;

use crate::instructions::register_rider::new_rider;
use crate::state::{AccountKey, Rider};

verus! {

/// The accounts that registering a rider reads.
#[derive(Clone, Copy, Debug, PartialEq, Eq, Structural)]
pub struct InitializeRider {
    /// Wallet of the rider, who signs.
    pub rider: AccountKey,
}

impl InitializeRider {
    /// The record of the newly registered rider.
    pub fn initialize_rider(&self, rider_bump: u8) -> (r: Rider)
        ensures
            r == new_rider(self.rider, rider_bump),
    {
        Rider { wallet: self.rider, id_status: true, points: 0, penalties: 0, is_renting: false, bump: rider_bump }
    }
}

} // verus!
