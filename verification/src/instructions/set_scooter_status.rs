//! The shopkeeper sets a scooter's status.

use vstd::prelude::*;

use crate::state::{Scooter, ScooterStatus};

verus! {

/// The record that the shopkeeper's status change writes.
#[derive(Clone, Copy, Debug, PartialEq, Eq, Structural)]
pub struct SetScooterStatus {
    pub scooter_account: Scooter,
}

impl SetScooterStatus {
    /// Sets the scooter's status; nothing else changes.
    pub fn set_scooter_status(&mut self, status: ScooterStatus)
        ensures
            final(self).scooter_account == (Scooter { status, ..old(self).scooter_account }),
    {
        self.scooter_account.status = status;
    }
}

} // verus!
