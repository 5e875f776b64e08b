//! Registering a scooter that has no device key.

use vstd::prelude::*;

use crate::instructions::register_scooter::new_scooter;
use crate::state::{AccountKey, Scooter, ScooterStatus};

verus! {

/// Registering a scooter reads no record.
#[derive(Clone, Copy, Debug, PartialEq, Eq, Structural)]
pub struct InitializeScooter {}

impl InitializeScooter {
    /// The record of the newly registered scooter, whose device key is the
    /// all-zero key.
    pub fn initialize_scooter(&self, id: u32, shopkeeper_id: u32, hourly_rate: u16, scooter_bump: u8) -> (s: Scooter)
        ensures
            s == new_scooter(AccountKey { hi: 0, lo: 0 }, id, shopkeeper_id, hourly_rate as u64, scooter_bump),
    {
        Scooter {
            id,
            shopkeeper_id,
            zoomi_device_pubkey: AccountKey::zero(),
            hourly_rate: hourly_rate as u64,
            status: ScooterStatus::Available,
            location_lat: 0,
            location_long: 0,
            location_timestamp: 0,
            bump: scooter_bump,
        }
    }
}

} // verus!
