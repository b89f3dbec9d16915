//! Calls into the system program and the token program, as plain data.
//!
//! An instruction of this library never moves anything itself. It says which
//! calls are to be made, in which order and signed by which authority; the
//! program around the library makes them.

use vstd::prelude::*;
use crate::authority::Address;
use crate::authority::Authority;

verus! {

/// The accounts of a transfer of lamports.
#[derive(Clone, Copy, Debug, PartialEq, Eq)]
pub struct SystemTransfer {
    pub from: Address,
    pub to: Address,
}

/// The accounts of a transfer of tokens.
#[derive(Clone, Copy, Debug, PartialEq, Eq)]
pub struct TokenTransfer {
    pub from: Address,
    pub to: Address,
    pub authority: Address,
}

/// The accounts of a change of authority over a token account.
#[derive(Clone, Copy, Debug, PartialEq, Eq)]
pub struct SetAuthority {
    pub account_or_mint: Address,
    pub current_authority: Address,
}

/// The accounts of a call, and the derived authority that signs it, if one
/// does.
#[derive(Clone, Copy, Debug, PartialEq, Eq)]
pub struct CpiContext<T> {
    pub accounts: T,
    pub signer: Option<Authority>,
}

impl<T> CpiContext<T> {
    pub fn new(accounts: T) -> (r: Self)
        ensures
            r == (CpiContext { accounts, signer: None }),
    {
        CpiContext { accounts, signer: None }
    }

    pub fn with_signer(self, signer: Authority) -> (r: Self)
        ensures
            r == (CpiContext { accounts: self.accounts, signer: Some(signer) }),
    {
        CpiContext { accounts: self.accounts, signer: Some(signer) }
    }
}

/// A transfer of `lamports` to be made.
#[derive(Clone, Copy, Debug, PartialEq, Eq)]
pub struct LamportTransfer {
    pub context: CpiContext<SystemTransfer>,
    pub lamports: u64,
}

/// A transfer of `amount` tokens to be made.
#[derive(Clone, Copy, Debug, PartialEq, Eq)]
pub struct AssetTransfer {
    pub context: CpiContext<TokenTransfer>,
    pub amount: u64,
}

/// Which of the authorities over a mint or a token account a change is
/// about.
#[derive(Clone, Copy, Debug, PartialEq, Eq, Structural)]
pub enum AuthorityType {
    /// Who may mint new tokens.
    MintTokens,
    /// Who may freeze an account of the mint.
    FreezeAccount,
    /// Who owns a token account and may move what it holds.
    AccountOwner,
    /// Who may close a token account.
    CloseAccount,
}

/// A hand-over of the named authority over a token account to
/// `new_authority`, to be made.
#[derive(Clone, Copy, Debug, PartialEq, Eq)]
pub struct AuthorityChange {
    pub context: CpiContext<SetAuthority>,
    pub authority_type: AuthorityType,
    pub new_authority: Address,
}

} // verus!
