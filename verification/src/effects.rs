//! The token movements that an instruction asks for, in the order in which
//! they are to be carried out, and sums over them.

use vstd::prelude::*;

verus! {

/// The USDC token accounts between which the protocol moves funds.
#[derive(Clone, Copy, Debug, PartialEq, Eq, Structural)]
pub enum TokenAccount {
    /// The rider's token account.
    Rider,
    /// The shopkeeper's token account.
    Shopkeeper,
    /// The vault that a rental owns.
    Vault,
    /// The protocol's treasury.
    Treasury,
}

/// The wallets that receive the rent of a closed token account.
#[derive(Clone, Copy, Debug, PartialEq, Eq, Structural)]
pub enum Wallet {
    Rider,
    Admin,
}

/// One step that the instruction hands to the token program.
#[derive(Clone, Copy, Debug, PartialEq, Eq, Structural)]
pub enum Effect {
    /// Move `amount` tokens from one account to another.
    Transfer { from: TokenAccount, to: TokenAccount, amount: u64 },
    /// Close a token account and send its rent to a wallet.
    CloseTokenAccount { account: TokenAccount, destination: Wallet },
}

/// Tokens that a list of effects moves into `acct`.
pub open spec fn inflow(effects: Seq<Effect>, acct: TokenAccount) -> int
    decreases effects.len(),
{
    if effects.len() == 0 {
        0
    } else {
        let rest = inflow(effects.drop_last(), acct);
        match effects.last() {
            Effect::Transfer { from, to, amount } => if to == acct && from != acct {
                rest + amount
            } else {
                rest
            },
            Effect::CloseTokenAccount { .. } => rest,
        }
    }
}

/// Tokens that a list of effects moves out of `acct`.
pub open spec fn outflow(effects: Seq<Effect>, acct: TokenAccount) -> int
    decreases effects.len(),
{
    if effects.len() == 0 {
        0
    } else {
        let rest = outflow(effects.drop_last(), acct);
        match effects.last() {
            Effect::Transfer { from, to, amount } => if from == acct && to != acct {
                rest + amount
            } else {
                rest
            },
            Effect::CloseTokenAccount { .. } => rest,
        }
    }
}

} // verus!
