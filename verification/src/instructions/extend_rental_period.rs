//! Extending a running rental by more paid hours.

use vstd::prelude::*;

use crate::effects::{Effect, TokenAccount};
use crate::errors::ZoomiError;
use crate::pricing::{lemma_with_fee_monotone, with_fee, with_fee_u128};
use crate::state::{Rental, Scooter, Zoomi};

verus! {

/// The records that extending a rental reads and writes.
#[derive(Clone, Copy, Debug, PartialEq, Eq, Structural)]
pub struct ExtendRentalPeriod {
    pub scooter_account: Scooter,
    pub rental_account: Rental,
    pub zoomi_account: Zoomi,
}

/// What extending a rental by `additional_rental_period` hours does: the
/// paid hours grow by that many, the rental amount by that many hours at the
/// scooter's rate, and the rider pays into the vault what the rental amount
/// with the protocol fee grows by. Refused when the hour count or an amount
/// leaves its integer type.
pub open spec fn extend_outcome(acc: ExtendRentalPeriod, additional_rental_period: u16) -> Result<(ExtendRentalPeriod, Seq<Effect>), ZoomiError> {
    let period = acc.rental_account.rental_period + additional_rental_period;
    let old_amount = acc.rental_account.rental_amount as int;
    let amount = old_amount + additional_rental_period * acc.scooter_account.hourly_rate;
    let fee = acc.zoomi_account.protocol_fee as int;
    if period > u16::MAX || amount > u64::MAX || with_fee(amount, fee) > u64::MAX {
        Err(ZoomiError::ArithmeticOverflow)
    } else {
        Ok(
            (
                ExtendRentalPeriod {
                    rental_account: Rental {
                        rental_period: period as u16,
                        rental_amount: amount as u64,
                        ..acc.rental_account
                    },
                    ..acc
                },
                seq![
                    Effect::Transfer {
                        from: TokenAccount::Rider,
                        to: TokenAccount::Vault,
                        amount: (with_fee(amount, fee) - with_fee(old_amount, fee)) as u64,
                    },
                ],
            ),
        )
    }
}

impl ExtendRentalPeriod {
    /// Extends the rental by `additional_rental_period` hours; gives the
    /// token movements to carry out.
    pub fn extend_rental_period(&mut self, additional_rental_period: u16) -> (res: Result<Vec<Effect>, ZoomiError>)
        ensures
            match res {
                Ok(effects) => extend_outcome(*old(self), additional_rental_period)
                    == Ok::<(ExtendRentalPeriod, Seq<Effect>), ZoomiError>((*final(self), effects@)),
                Err(e) => extend_outcome(*old(self), additional_rental_period)
                    == Err::<(ExtendRentalPeriod, Seq<Effect>), ZoomiError>(e) && *final(self) == *old(self),
            },
    {
        let period = match self.rental_account.rental_period.checked_add(additional_rental_period) {
            Some(p) => p,
            None => return Err(ZoomiError::ArithmeticOverflow),
        };
        let h: u128 = additional_rental_period as u128;
        let rt: u128 = self.scooter_account.hourly_rate as u128;
        assert(h * rt <= 0xffffu128 * 0xffff_ffff_ffff_ffffu128) by (nonlinear_arith)
            requires
                h <= 0xffff,
                rt <= 0xffff_ffff_ffff_ffff,
        ;
        let wide: u128 = self.rental_account.rental_amount as u128 + h * rt;
        if wide > u64::MAX as u128 {
            return Err(ZoomiError::ArithmeticOverflow);
        }
        let amount: u64 = wide as u64;
        let fee: u8 = self.zoomi_account.protocol_fee;
        let new_paid: u128 = with_fee_u128(amount, fee);
        if new_paid > u64::MAX as u128 {
            return Err(ZoomiError::ArithmeticOverflow);
        }
        let old_paid: u128 = with_fee_u128(self.rental_account.rental_amount, fee);
        proof {
            lemma_with_fee_monotone(self.rental_account.rental_amount as int, amount as int, fee as int);
        }
        let charge: u64 = (new_paid - old_paid) as u64;
        self.rental_account.rental_period = period;
        self.rental_account.rental_amount = amount;
        let mut effects: Vec<Effect> = Vec::new();
        effects.push(Effect::Transfer { from: TokenAccount::Rider, to: TokenAccount::Vault, amount: charge });
        Ok(effects)
    }
}

} // verus!
