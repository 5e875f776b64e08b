//! Opening a rental record without a base rate: the rental amount is the
//! paid hours at the scooter's hourly rate.

use vstd::prelude::*;

use crate::errors::ZoomiError;
use crate::state::{AccountKey, Rental, RentalStatus, Scooter};

verus! {

/// The records that opening a rental reads.
#[derive(Clone, Copy, Debug, PartialEq, Eq, Structural)]
pub struct InitializeRental {
    /// Address of the rider's record.
    pub rider_account_key: AccountKey,
    pub scooter_account: Scooter,
}

/// What opening a rental of `rental_period` hours at `now` gives: an active
/// rental whose rental amount is the hours times the scooter's rate;
/// refused when that leaves the `u64` range.
pub open spec fn initialize_rental_outcome(acc: InitializeRental, rental_period: u16, now: i64, rental_bump: u8) -> Result<Rental, ZoomiError> {
    let amount = rental_period * acc.scooter_account.hourly_rate;
    if amount > u64::MAX {
        Err(ZoomiError::ArithmeticOverflow)
    } else {
        Ok(
            Rental {
                rider: acc.rider_account_key,
                scooter_id: acc.scooter_account.id,
                start_time: now,
                rental_period,
                rental_amount: amount as u64,
                status: RentalStatus::Active,
                bump: rental_bump,
            },
        )
    }
}

impl InitializeRental {
    /// Opens the rental record.
    pub fn initialize_rental(&self, rental_period: u16, now: i64, rental_bump: u8) -> (res: Result<Rental, ZoomiError>)
        ensures
            res == initialize_rental_outcome(*self, rental_period, now, rental_bump),
    {
        match (rental_period as u64).checked_mul(self.scooter_account.hourly_rate) {
            None => Err(ZoomiError::ArithmeticOverflow),
            Some(amount) => Ok(
                Rental {
                    rider: self.rider_account_key,
                    scooter_id: self.scooter_account.id,
                    start_time: now,
                    rental_period,
                    rental_amount: amount,
                    status: RentalStatus::Active,
                    bump: rental_bump,
                },
            ),
        }
    }
}

} // verus!
