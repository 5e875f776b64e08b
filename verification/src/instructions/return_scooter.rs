//! Returning a rented scooter: the rental is settled from its vault.

use vstd::prelude::*;

use crate::effects::{Effect, TokenAccount};
use crate::errors::ZoomiError;
use crate::pricing::{
    billed_hours, compute_billed_hours, compute_fee_part, compute_hourly_rate_with_fee,
    compute_usage_difference, fee_part, hourly_rate_with_fee, usage_difference, with_fee,
    with_fee_u128,
};
use crate::state::{Rental, RentalStatus, Rider, Scooter, ScooterStatus, Zoomi};

verus! {

/// The records that returning a scooter reads and writes.
#[derive(Clone, Copy, Debug, PartialEq, Eq, Structural)]
pub struct ReturnScooter {
    pub rider_account: Rider,
    pub scooter_account: Scooter,
    pub rental_account: Rental,
    pub zoomi_account: Zoomi,
}

/// How a rental is settled when its scooter comes back.
#[derive(Clone, Copy, Debug, PartialEq, Eq, Structural)]
pub struct Settlement {
    /// Billed hours minus paid hours.
    pub usage_difference: i16,
    /// What the rental finally costs, fee included: the paid amount less the
    /// refund, or plus the part of the collateral that pays for extra hours.
    pub final_amount: u64,
    /// Unused paid hours given back to the rider.
    pub refund: u64,
    /// The protocol's part of the final amount.
    pub fee_amount: u64,
    /// The shopkeeper's part of the final amount.
    pub to_shopkeeper: u64,
}

/// The rental amount after usage: `base` is what was paid without the
/// collateral, `hourly` the hourly rate with fee and `diff` billed minus
/// paid hours. Unused hours are refunded (refusing a refund larger than
/// `base`); extra hours are charged from the collateral, at most all of it.
/// Undefined where an amount leaves the `u64` range.
/// Gives the final amount and the refund.
pub open spec fn adjusted_amount(base: int, collateral: int, hourly: int, diff: int) -> Option<(int, int)> {
    if diff < 0 {
        let refund = (-diff) * hourly;
        if -diff > i16::MAX || refund > u64::MAX || refund > base {
            None
        } else {
            Some((base - refund, refund))
        }
    } else if diff > 0 {
        let extra = diff * hourly;
        let fin = base + if extra <= collateral { extra } else { collateral };
        if extra > u64::MAX || fin > u64::MAX {
            None
        } else {
            Some((fin, 0))
        }
    } else {
        Some((base, 0))
    }
}

/// How `rental` is settled at time `now`, for a scooter priced at its
/// hourly rate and the protocol's fee and collateral: the paid amount is
/// the rental amount with the fee, what the vault holds beside the
/// collateral. `None` where an
/// amount or a time leaves its integer type, or the fee exceeds the final
/// amount.
pub open spec fn settlement(rental: Rental, scooter: Scooter, zoomi: Zoomi, now: i64) -> Option<Settlement> {
    match billed_hours(rental.start_time, now) {
        None => None,
        Some(hours) => match usage_difference(hours, rental.rental_period) {
            None => None,
            Some(diff) => match hourly_rate_with_fee(scooter.hourly_rate, zoomi.protocol_fee) {
                None => None,
                Some(hourly) => if with_fee(rental.rental_amount as int, zoomi.protocol_fee as int) > u64::MAX {
                    None
                } else {
                    match adjusted_amount(
                        with_fee(rental.rental_amount as int, zoomi.protocol_fee as int),
                        zoomi.collateral as int,
                        hourly as int,
                        diff as int,
                    ) {
                        None => None,
                        Some((fin, refund)) => {
                            let fee = fee_part(fin, zoomi.protocol_fee as int);
                            if fee > fin {
                                None
                            } else {
                                Some(
                                    Settlement {
                                        usage_difference: diff,
                                        final_amount: fin as u64,
                                        refund: refund as u64,
                                        fee_amount: fee as u64,
                                        to_shopkeeper: (fin - fee) as u64,
                                    },
                                )
                            }
                        },
                    }
                },
            },
        },
    }
}

/// The token movements of a settlement: the fee from the vault to the
/// treasury, the shopkeeper's part from the vault to the shopkeeper, then
/// the refund, if any, from the vault to the rider.
pub open spec fn settlement_effects(s: Settlement) -> Seq<Effect> {
    seq![
        Effect::Transfer { from: TokenAccount::Vault, to: TokenAccount::Treasury, amount: s.fee_amount },
        Effect::Transfer { from: TokenAccount::Vault, to: TokenAccount::Shopkeeper, amount: s.to_shopkeeper },
    ] + if s.refund > 0 {
        seq![Effect::Transfer { from: TokenAccount::Vault, to: TokenAccount::Rider, amount: s.refund }]
    } else {
        Seq::<Effect>::empty()
    }
}

/// What returning the scooter of `acc` at time `now` does: refused unless
/// the scooter is rented and the rental active; otherwise the rental is
/// settled, the rider earns the shopkeeper's part (cut to 32 bits) as
/// points and the extra hours as penalties, the scooter goes to
/// maintenance and the rental is completed.
pub open spec fn return_outcome(acc: ReturnScooter, now: i64) -> Result<(ReturnScooter, Seq<Effect>), ZoomiError> {
    if acc.scooter_account.status != ScooterStatus::Rented {
        Err(ZoomiError::ScooterNotRented)
    } else if acc.rental_account.status != RentalStatus::Active {
        Err(ZoomiError::RentalNotActive)
    } else {
        match settlement(acc.rental_account, acc.scooter_account, acc.zoomi_account, now) {
            None => Err(ZoomiError::ArithmeticOverflow),
            Some(s) => {
                let d = s.usage_difference;
                let penalties = if d > 0 {
                    acc.rider_account.penalties + d
                } else {
                    acc.rider_account.penalties as int
                };
                let points = acc.rider_account.points + (s.to_shopkeeper as u32);
                if penalties > u32::MAX || points > u32::MAX {
                    Err(ZoomiError::ArithmeticOverflow)
                } else {
                    Ok(
                        (
                            ReturnScooter {
                                rider_account: Rider {
                                    points: points as u32,
                                    penalties: penalties as u32,
                                    is_renting: false,
                                    ..acc.rider_account
                                },
                                scooter_account: Scooter {
                                    status: ScooterStatus::Maintenance,
                                    ..acc.scooter_account
                                },
                                rental_account: Rental {
                                    status: RentalStatus::Completed,
                                    ..acc.rental_account
                                },
                                zoomi_account: acc.zoomi_account,
                            },
                            settlement_effects(s),
                        ),
                    )
                }
            },
        }
    }
}

/// Settles `rental` at time `now`.
pub fn settle_rental(rental: &Rental, scooter: &Scooter, zoomi: &Zoomi, now: i64) -> (r: Option<Settlement>)
    ensures
        r == settlement(*rental, *scooter, *zoomi, now),
{
    let hours = match compute_billed_hours(rental.start_time, now) {
        Some(h) => h,
        None => return None,
    };
    let diff = match compute_usage_difference(hours, rental.rental_period) {
        Some(d) => d,
        None => return None,
    };
    let hourly = match compute_hourly_rate_with_fee(scooter.hourly_rate, zoomi.protocol_fee) {
        Some(h) => h,
        None => return None,
    };
    let paid: u128 = with_fee_u128(rental.rental_amount, zoomi.protocol_fee);
    if paid > u64::MAX as u128 {
        return None;
    }
    let base: u64 = paid as u64;
    let collateral: u64 = zoomi.collateral;
    let ghost adj = adjusted_amount(base as int, collateral as int, hourly as int, diff as int);
    let mut fin: u64 = base;
    let mut refund: u64 = 0;
    if diff < 0 {
        if diff == i16::MIN {
            return None;
        }
        let unused: u128 = (0i32 - diff as i32) as u128;
        assert(unused * (hourly as u128) <= 0x8000u128 * 0xffff_ffff_ffff_ffffu128) by (nonlinear_arith)
            requires
                unused <= 0x8000,
                hourly <= 0xffff_ffff_ffff_ffff,
        ;
        let r: u128 = unused * hourly as u128;
        if r > u64::MAX as u128 || r > base as u128 {
            return None;
        }
        refund = r as u64;
        fin = base - refund;
    } else if diff > 0 {
        let over: u128 = diff as u128;
        assert(over * (hourly as u128) <= 0x8000u128 * 0xffff_ffff_ffff_ffffu128) by (nonlinear_arith)
            requires
                over <= 0x8000,
                hourly <= 0xffff_ffff_ffff_ffff,
        ;
        let extra: u128 = over * hourly as u128;
        if extra > u64::MAX as u128 {
            return None;
        }
        let used: u64 = if (extra as u64) <= collateral {
            extra as u64
        } else {
            collateral
        };
        if base as u128 + used as u128 > u64::MAX as u128 {
            return None;
        }
        fin = base + used;
    }
    assert(adj == Some((fin as int, refund as int)));
    let fee: u128 = compute_fee_part(fin, zoomi.protocol_fee);
    if fee > fin as u128 {
        return None;
    }
    let fee_amount: u64 = fee as u64;
    Some(
        Settlement {
            usage_difference: diff,
            final_amount: fin,
            refund,
            fee_amount,
            to_shopkeeper: fin - fee_amount,
        },
    )
}

impl ReturnScooter {
    /// Returns the rented scooter at time `now` and settles the rental; gives
    /// the token movements to carry out, in order.
    pub fn return_scooter(&mut self, now: i64) -> (res: Result<Vec<Effect>, ZoomiError>)
        ensures
            match res {
                Ok(effects) => return_outcome(*old(self), now) == Ok::<(ReturnScooter, Seq<Effect>), ZoomiError>((*final(self), effects@)),
                Err(e) => return_outcome(*old(self), now) == Err::<(ReturnScooter, Seq<Effect>), ZoomiError>(e)
                    && *final(self) == *old(self),
            },
    {
        if self.scooter_account.status != ScooterStatus::Rented {
            return Err(ZoomiError::ScooterNotRented);
        }
        if self.rental_account.status != RentalStatus::Active {
            return Err(ZoomiError::RentalNotActive);
        }
        let s = match settle_rental(&self.rental_account, &self.scooter_account, &self.zoomi_account, now) {
            Some(s) => s,
            None => return Err(ZoomiError::ArithmeticOverflow),
        };
        let mut penalties: u64 = self.rider_account.penalties as u64;
        if s.usage_difference > 0 {
            penalties = penalties + s.usage_difference as u64;
        }
        let points: u64 = self.rider_account.points as u64 + (s.to_shopkeeper as u32) as u64;
        if penalties > u32::MAX as u64 || points > u32::MAX as u64 {
            return Err(ZoomiError::ArithmeticOverflow);
        }
        self.rider_account.penalties = penalties as u32;
        self.rider_account.points = points as u32;
        self.rider_account.is_renting = false;
        self.scooter_account.status = ScooterStatus::Maintenance;
        self.rental_account.status = RentalStatus::Completed;
        let mut effects: Vec<Effect> = Vec::new();
        effects.push(Effect::Transfer { from: TokenAccount::Vault, to: TokenAccount::Treasury, amount: s.fee_amount });
        effects.push(Effect::Transfer { from: TokenAccount::Vault, to: TokenAccount::Shopkeeper, amount: s.to_shopkeeper });
        if s.refund > 0 {
            effects.push(Effect::Transfer { from: TokenAccount::Vault, to: TokenAccount::Rider, amount: s.refund });
        }
        assert(effects@ == settlement_effects(s));
        Ok(effects)
    }
}

} // verus!
