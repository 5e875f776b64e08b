//! Starting a rental: the rider pays the rental and the collateral into the
//! rental's vault and the scooter is unlocked.

use vstd::prelude::*;

use crate::effects::{Effect, TokenAccount};
use crate::errors::ZoomiError;
use crate::pricing::{compute_rental_amount, compute_with_fee, rental_amount_u64, with_fee_u64};
use crate::state::{AccountKey, Rental, RentalStatus, Rider, Scooter, ScooterStatus, Zoomi};

verus! {

/// The records that starting a rental reads and writes.
#[derive(Clone, Copy, Debug, PartialEq, Eq, Structural)]
pub struct StartRental {
    /// Wallet of the rider, who signs and pays.
    pub rider: AccountKey,
    pub rider_account: Rider,
    pub scooter_account: Scooter,
    pub zoomi_account: Zoomi,
}

/// What starting a rental of `rental_period` hours at time `now` does:
/// refused unless the scooter is available; otherwise the new active rental
/// records its rental amount (base rate plus the hours at the scooter's
/// rate), the rider pays that amount with the protocol fee plus the
/// collateral into the vault, the scooter is rented and the rider is
/// renting. Refused when an amount leaves the `u64` range.
pub open spec fn start_outcome(acc: StartRental, rental_period: u16, now: i64, rental_bump: u8) -> Result<(StartRental, Rental, Seq<Effect>), ZoomiError> {
    if acc.scooter_account.status != ScooterStatus::Available {
        Err(ZoomiError::ScooterNotAvailable)
    } else {
        match rental_amount_u64(acc.zoomi_account.base_rate, acc.scooter_account.hourly_rate, rental_period) {
            None => Err(ZoomiError::ArithmeticOverflow),
            Some(amount) => match with_fee_u64(amount, acc.zoomi_account.protocol_fee) {
                None => Err(ZoomiError::ArithmeticOverflow),
                Some(paid) => if paid + acc.zoomi_account.collateral > u64::MAX {
                    Err(ZoomiError::ArithmeticOverflow)
                } else {
                    let total = (paid + acc.zoomi_account.collateral) as u64;
                    Ok(
                        (
                            StartRental {
                                rider_account: Rider { is_renting: true, ..acc.rider_account },
                                scooter_account: Scooter { status: ScooterStatus::Rented, ..acc.scooter_account },
                                ..acc
                            },
                            Rental {
                                rider: acc.rider,
                                scooter_id: acc.scooter_account.id,
                                start_time: now,
                                rental_period,
                                rental_amount: amount,
                                status: RentalStatus::Active,
                                bump: rental_bump,
                            },
                            seq![Effect::Transfer { from: TokenAccount::Rider, to: TokenAccount::Vault, amount: total }],
                        ),
                    )
                },
            },
        }
    }
}

impl StartRental {
    /// Starts a rental of `rental_period` hours at time `now`; gives the new
    /// rental record and the token movements to carry out.
    pub fn start_rental(&mut self, rental_period: u16, now: i64, rental_bump: u8) -> (res: Result<(Rental, Vec<Effect>), ZoomiError>)
        ensures
            match res {
                Ok((rental, effects)) => start_outcome(*old(self), rental_period, now, rental_bump)
                    == Ok::<(StartRental, Rental, Seq<Effect>), ZoomiError>((*final(self), rental, effects@)),
                Err(e) => start_outcome(*old(self), rental_period, now, rental_bump)
                    == Err::<(StartRental, Rental, Seq<Effect>), ZoomiError>(e) && *final(self) == *old(self),
            },
    {
        if self.scooter_account.status != ScooterStatus::Available {
            return Err(ZoomiError::ScooterNotAvailable);
        }
        let amount = match compute_rental_amount(
            self.zoomi_account.base_rate,
            self.scooter_account.hourly_rate,
            rental_period,
        ) {
            Some(a) => a,
            None => return Err(ZoomiError::ArithmeticOverflow),
        };
        let paid = match compute_with_fee(amount, self.zoomi_account.protocol_fee) {
            Some(p) => p,
            None => return Err(ZoomiError::ArithmeticOverflow),
        };
        let total = match paid.checked_add(self.zoomi_account.collateral) {
            Some(t) => t,
            None => return Err(ZoomiError::ArithmeticOverflow),
        };
        let rental = Rental {
            rider: self.rider,
            scooter_id: self.scooter_account.id,
            start_time: now,
            rental_period,
            rental_amount: amount,
            status: RentalStatus::Active,
            bump: rental_bump,
        };
        self.scooter_account.status = ScooterStatus::Rented;
        self.rider_account.is_renting = true;
        let mut effects: Vec<Effect> = Vec::new();
        effects.push(Effect::Transfer { from: TokenAccount::Rider, to: TokenAccount::Vault, amount: total });
        Ok((rental, effects))
    }
}

} // verus!
