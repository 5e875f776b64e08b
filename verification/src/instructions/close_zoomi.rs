//! Closing the protocol: its treasury is closed in favour of the admin.

use vstd::prelude::*;

use crate::effects::{Effect, TokenAccount, Wallet};

verus! {

/// Closing the protocol reads no record.
#[derive(Clone, Copy, Debug, PartialEq, Eq, Structural)]
pub struct CloseZoomi {}

impl CloseZoomi {
    /// Closes the protocol; gives the token movements to carry out: the
    /// treasury is closed with its rent to the admin.
    pub fn close_zoomi(&self) -> (effects: Vec<Effect>)
        ensures
            effects@ == seq![Effect::CloseTokenAccount { account: TokenAccount::Treasury, destination: Wallet::Admin }],
    {
        let mut effects: Vec<Effect> = Vec::new();
        effects.push(Effect::CloseTokenAccount { account: TokenAccount::Treasury, destination: Wallet::Admin });
        effects
    }
}

} // verus!
