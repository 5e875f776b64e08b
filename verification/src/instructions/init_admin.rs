//! Setting up the administrator's record with the default treasury fee.

use vstd::prelude::*;

use crate::state::{AccountKey, Admin};

verus! {

/// The fee, in percent, that a new administrator record starts with.
pub const DEFAULT_ADMIN_FEE: u8 = 5;

/// The accounts that setting up the administrator reads.
#[derive(Clone, Copy, Debug, PartialEq, Eq, Structural)]
pub struct InitAdmin {
    /// Wallet of the administrator, who signs.
    pub admin: AccountKey,
}

impl InitAdmin {
    /// The new administrator record, with the default fee.
    pub fn init_admin(&self, treasury_bump: u8, admin_bump: u8) -> (a: Admin)
        ensures
            a == (Admin { admin: self.admin, fee: DEFAULT_ADMIN_FEE, treasury_bump, bump: admin_bump }),
    {
        Admin { admin: self.admin, fee: DEFAULT_ADMIN_FEE, treasury_bump, bump: admin_bump }
    }
}

} // verus!
