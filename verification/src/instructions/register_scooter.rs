//! Registering a scooter and its device.

use vstd::prelude::*;

use crate::state::{AccountKey, Scooter, ScooterStatus};

verus! {

/// The record of a newly registered scooter: available, at the origin,
/// never located.
pub open spec fn new_scooter(device: AccountKey, id: u32, shopkeeper_id: u32, hourly_rate: u64, bump: u8) -> Scooter {
    Scooter {
        id,
        shopkeeper_id,
        zoomi_device_pubkey: device,
        hourly_rate,
        status: ScooterStatus::Available,
        location_lat: 0,
        location_long: 0,
        location_timestamp: 0,
        bump,
    }
}

/// Registering a scooter reads no record.
#[derive(Clone, Copy, Debug, PartialEq, Eq, Structural)]
pub struct RegisterScooter {}

impl RegisterScooter {
    /// The record of the newly registered scooter.
    pub fn register_scooter(
        &self,
        zoomi_device_pubkey: AccountKey,
        id: u32,
        shopkeeper_id: u32,
        hourly_rate: u64,
        scooter_bump: u8,
    ) -> (s: Scooter)
        ensures
            s == new_scooter(zoomi_device_pubkey, id, shopkeeper_id, hourly_rate, scooter_bump),
    {
        Scooter {
            id,
            shopkeeper_id,
            zoomi_device_pubkey,
            hourly_rate,
            status: ScooterStatus::Available,
            location_lat: 0,
            location_long: 0,
            location_timestamp: 0,
            bump: scooter_bump,
        }
    }
}

} // verus!
