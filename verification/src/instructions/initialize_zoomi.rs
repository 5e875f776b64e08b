//! Setting up the protocol's configuration.

use vstd::prelude::*;

use crate::state::{AccountKey, Zoomi};

verus! {

/// The accounts that setting up the protocol reads.
#[derive(Clone, Copy, Debug, PartialEq, Eq, Structural)]
pub struct InitializeZoomi {
    /// Wallet of the administrator, who signs.
    pub admin: AccountKey,
    /// The treasury's token account.
    pub treasury: AccountKey,
}

impl InitializeZoomi {
    /// The configuration record of a new protocol.
    pub fn initialize_zoomi(&self, protocol_fee: u8, base_rate: u64, collateral: u64, zoomi_bump: u8) -> (z: Zoomi)
        ensures
            z == (Zoomi {
                admin: self.admin,
                treasury: self.treasury,
                protocol_fee,
                base_rate,
                collateral,
                bump: zoomi_bump,
            }),
    {
        Zoomi { admin: self.admin, treasury: self.treasury, protocol_fee, base_rate, collateral, bump: zoomi_bump }
    }
}

} // verus!
