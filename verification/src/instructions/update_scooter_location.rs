//! Recording where a scooter is.

use vstd::prelude::*;

use crate::state::Scooter;

verus! {

/// The record that a location update writes.
#[derive(Clone, Copy, Debug, PartialEq, Eq, Structural)]
pub struct UpdateScooterLocation {
    pub scooter_account: Scooter,
}

impl UpdateScooterLocation {
    /// Records the scooter at (`location_lat`, `location_long`) at time
    /// `now`; nothing else changes.
    pub fn update_scooter_location(&mut self, location_lat: i32, location_long: i32, now: i64)
        ensures
            final(self).scooter_account == (Scooter {
                location_lat,
                location_long,
                location_timestamp: now,
                ..old(self).scooter_account
            }),
    {
        self.scooter_account.location_lat = location_lat;
        self.scooter_account.location_long = location_long;
        self.scooter_account.location_timestamp = now;
    }
}

} // verus!
