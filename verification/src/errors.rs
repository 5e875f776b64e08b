//! Why an instruction is refused.

use vstd::prelude::*;

verus! {

/// The reasons for which the protocol refuses an instruction. A refused
/// instruction changes no record and moves no token.
#[derive(Clone, Copy, Debug, PartialEq, Eq, Structural)]
pub enum ZoomiError {
    /// The scooter is not available for a new rental.
    ScooterNotAvailable,
    /// The scooter is not rented.
    ScooterNotRented,
    /// The scooter is not in maintenance.
    ScooterNotInMaintenance,
    /// The rental is not active.
    RentalNotActive,
    /// The rental is not completed.
    RentalNotCompleted,
    /// The signing device is not the scooter's device.
    DeviceMismatch,
    /// An amount, a time or a counter leaves the range of its integer type.
    ArithmeticOverflow,
}

} // verus!
