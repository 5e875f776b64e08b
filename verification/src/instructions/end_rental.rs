//! Ending a rental without moving tokens: usage is measured, penalties are
//! booked and the records move on to maintenance and completion.

use vstd::prelude::*;

use crate::errors::ZoomiError;
use crate::pricing::{billed_hours, compute_billed_hours, compute_usage_difference, usage_difference};
use crate::state::{Rental, RentalStatus, Rider, Scooter, ScooterStatus};

verus! {

/// The records that ending a rental reads and writes.
#[derive(Clone, Copy, Debug, PartialEq, Eq, Structural)]
pub struct EndRental {
    pub rider_account: Rider,
    pub scooter_account: Scooter,
    pub rental_account: Rental,
}

/// What ending the rental at time `now` does: refused unless the scooter is
/// rented and the rental active; otherwise the usage difference (billed
/// minus paid hours) is measured, a positive one is added to the rider's
/// penalties, the rider stops renting, the scooter goes to maintenance and
/// the rental is completed. Gives the usage difference.
pub open spec fn end_outcome(acc: EndRental, now: i64) -> Result<(EndRental, i16), ZoomiError> {
    if acc.scooter_account.status != ScooterStatus::Rented {
        Err(ZoomiError::ScooterNotRented)
    } else if acc.rental_account.status != RentalStatus::Active {
        Err(ZoomiError::RentalNotActive)
    } else {
        match billed_hours(acc.rental_account.start_time, now) {
            None => Err(ZoomiError::ArithmeticOverflow),
            Some(hours) => match usage_difference(hours, acc.rental_account.rental_period) {
                None => Err(ZoomiError::ArithmeticOverflow),
                Some(d) => {
                    let penalties = if d > 0 {
                        acc.rider_account.penalties + d
                    } else {
                        acc.rider_account.penalties as int
                    };
                    if penalties > u32::MAX {
                        Err(ZoomiError::ArithmeticOverflow)
                    } else {
                        Ok(
                            (
                                EndRental {
                                    rider_account: Rider {
                                        penalties: penalties as u32,
                                        is_renting: false,
                                        ..acc.rider_account
                                    },
                                    scooter_account: Scooter {
                                        status: ScooterStatus::Maintenance,
                                        ..acc.scooter_account
                                    },
                                    rental_account: Rental {
                                        status: RentalStatus::Completed,
                                        ..acc.rental_account
                                    },
                                },
                                d,
                            ),
                        )
                    }
                },
            },
        }
    }
}

impl EndRental {
    /// Ends the rental at time `now`; gives billed minus paid hours.
    pub fn end_rental(&mut self, now: i64) -> (res: Result<i16, ZoomiError>)
        ensures
            match res {
                Ok(d) => end_outcome(*old(self), now) == Ok::<(EndRental, i16), ZoomiError>((*final(self), d)),
                Err(e) => end_outcome(*old(self), now) == Err::<(EndRental, i16), ZoomiError>(e)
                    && *final(self) == *old(self),
            },
    {
        if self.scooter_account.status != ScooterStatus::Rented {
            return Err(ZoomiError::ScooterNotRented);
        }
        if self.rental_account.status != RentalStatus::Active {
            return Err(ZoomiError::RentalNotActive);
        }
        let hours = match compute_billed_hours(self.rental_account.start_time, now) {
            Some(h) => h,
            None => return Err(ZoomiError::ArithmeticOverflow),
        };
        let d = match compute_usage_difference(hours, self.rental_account.rental_period) {
            Some(d) => d,
            None => return Err(ZoomiError::ArithmeticOverflow),
        };
        let mut penalties: u64 = self.rider_account.penalties as u64;
        if d > 0 {
            penalties = penalties + d as u64;
        }
        if penalties > u32::MAX as u64 {
            return Err(ZoomiError::ArithmeticOverflow);
        }
        self.rider_account.penalties = penalties as u32;
        self.rider_account.is_renting = false;
        self.scooter_account.status = ScooterStatus::Maintenance;
        self.rental_account.status = RentalStatus::Completed;
        Ok(d)
    }
}

} // verus!
