//! Events that the protocol announces to its off-chain listeners.

use vstd::prelude::*;

use crate::state::AccountKey;

verus! {

/// A scooter was unlocked for a rental of `rental_duration` hours.
#[derive(Clone, Copy, Debug, PartialEq, Eq, Structural)]
pub struct ScooterUnlocked {
    pub zoomi_device_pubkey: AccountKey,
    pub rental_duration: u16,
}

/// A rental was extended by `additional_rental_period` hours.
#[derive(Clone, Copy, Debug, PartialEq, Eq, Structural)]
pub struct RentalExtended {
    pub zoomi_device_pubkey: AccountKey,
    pub additional_rental_period: u16,
}

/// A rental ended: its scooter came back and went to maintenance. The
/// program announces it after every accepted return or end of a rental.
#[derive(Clone, Copy, Debug, PartialEq, Eq, Structural)]
pub struct RentalEnded {
    pub zoomi_device_pubkey: AccountKey,
}

} // verus!
