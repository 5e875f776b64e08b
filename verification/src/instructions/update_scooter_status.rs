//! A scooter's own device reports its status.

use vstd::prelude::*;

use crate::errors::ZoomiError;
use crate::state::{AccountKey, Scooter, ScooterStatus};

verus! {

/// The accounts that the device's status report reads and writes.
#[derive(Clone, Copy, Debug, PartialEq, Eq, Structural)]
pub struct UpdateScooterStatus {
    /// Key of the signing device.
    pub scooter_device: AccountKey,
    pub scooter_account: Scooter,
}

impl UpdateScooterStatus {
    /// Sets the scooter's status when the signer is the scooter's own device;
    /// refuses any other signer and then changes nothing.
    pub fn update_scooter_status(&mut self, status: ScooterStatus) -> (res: Result<(), ZoomiError>)
        ensures
            old(self).scooter_account.zoomi_device_pubkey == old(self).scooter_device ==> res is Ok
                && final(self).scooter_account == (Scooter { status, ..old(self).scooter_account })
                && final(self).scooter_device == old(self).scooter_device,
            old(self).scooter_account.zoomi_device_pubkey != old(self).scooter_device ==> res
                == Err::<(), ZoomiError>(ZoomiError::DeviceMismatch) && *final(self) == *old(self),
    {
        if self.scooter_account.zoomi_device_pubkey != self.scooter_device {
            return Err(ZoomiError::DeviceMismatch);
        }
        self.scooter_account.status = status;
        Ok(())
    }
}

} // verus!
