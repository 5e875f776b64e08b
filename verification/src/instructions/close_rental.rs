//! Closing a completed rental: the shopkeeper decides who gets what is left
//! in the vault, the vault is closed and the scooter is available again.

use vstd::prelude::*;

use crate::effects::{Effect, TokenAccount, Wallet};
use crate::errors::ZoomiError;
use crate::state::{Rental, RentalStatus, Scooter, ScooterStatus};

verus! {

/// The records that closing a rental reads and writes.
#[derive(Clone, Copy, Debug, PartialEq, Eq, Structural)]
pub struct CloseRental {
    pub scooter_account: Scooter,
    pub rental_account: Rental,
}

/// What closing the rental does with a vault holding `vault_balance`:
/// refused unless the scooter is in maintenance and the rental completed;
/// otherwise the whole balance goes to the rider when the scooter came back
/// in good order and to the shopkeeper when not, and the vault is closed
/// with its rent to the rider; the scooter becomes available for a new
/// rental. The rider's record is not read: closing awards no points, so the
/// rider keeps the points that the return gave.
pub open spec fn close_outcome(acc: CloseRental, scooter_ok: bool, vault_balance: u64) -> Result<(CloseRental, Seq<Effect>), ZoomiError> {
    if acc.scooter_account.status != ScooterStatus::Maintenance {
        Err(ZoomiError::ScooterNotInMaintenance)
    } else if acc.rental_account.status != RentalStatus::Completed {
        Err(ZoomiError::RentalNotCompleted)
    } else {
        Ok(
            (
                CloseRental {
                    scooter_account: Scooter { status: ScooterStatus::Available, ..acc.scooter_account },
                    ..acc
                },
                seq![
                    Effect::Transfer {
                        from: TokenAccount::Vault,
                        to: if scooter_ok { TokenAccount::Rider } else { TokenAccount::Shopkeeper },
                        amount: vault_balance,
                    },
                    Effect::CloseTokenAccount { account: TokenAccount::Vault, destination: Wallet::Rider },
                ],
            ),
        )
    }
}

impl CloseRental {
    /// Closes the rental, whose vault holds `vault_balance`, and frees the
    /// scooter; gives the token movements to carry out.
    pub fn close_rental(&mut self, scooter_ok: bool, vault_balance: u64) -> (res: Result<Vec<Effect>, ZoomiError>)
        ensures
            match res {
                Ok(effects) => close_outcome(*old(self), scooter_ok, vault_balance)
                    == Ok::<(CloseRental, Seq<Effect>), ZoomiError>((*final(self), effects@)),
                Err(e) => close_outcome(*old(self), scooter_ok, vault_balance)
                    == Err::<(CloseRental, Seq<Effect>), ZoomiError>(e) && *final(self) == *old(self),
            },
    {
        if self.scooter_account.status != ScooterStatus::Maintenance {
            return Err(ZoomiError::ScooterNotInMaintenance);
        }
        if self.rental_account.status != RentalStatus::Completed {
            return Err(ZoomiError::RentalNotCompleted);
        }
        self.scooter_account.status = ScooterStatus::Available;
        let to = if scooter_ok {
            TokenAccount::Rider
        } else {
            TokenAccount::Shopkeeper
        };
        let mut effects: Vec<Effect> = Vec::new();
        effects.push(Effect::Transfer { from: TokenAccount::Vault, to, amount: vault_balance });
        effects.push(Effect::CloseTokenAccount { account: TokenAccount::Vault, destination: Wallet::Rider });
        assert(effects@ =~= seq![
            Effect::Transfer { from: TokenAccount::Vault, to, amount: vault_balance },
            Effect::CloseTokenAccount { account: TokenAccount::Vault, destination: Wallet::Rider },
        ]);
        Ok(effects)
    }
}

} // verus!
