use vstd::prelude::*;
use crate::authority::Address;

verus! {

/// The custody account of an offer's principal. Its balance is the
/// `lamports` of the account that holds this record.
#[derive(Clone, Copy, Debug, PartialEq, Eq)]
pub struct Vault {
    /// The offer this vault is linked to
    pub offer: Address,
    /// Who may move the balance: a derived authority, never a user's key
    pub authority: Address,
    /// Bump
    pub bump: u8,
}

impl Vault {
    pub const LEN: usize = 8 + 32 + 32 + 1;
}

} // verus!
