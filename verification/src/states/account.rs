//! Accounts as an instruction sees them.

use vstd::prelude::*;
use crate::authority::Address;

verus! {

/// An account: where it lives, what it holds in lamports, and its record.
///
/// An account that an instruction creates or closes carries an `Option`:
/// `None` while there is no record at that address.
#[derive(Clone, Copy, Debug, PartialEq, Eq)]
pub struct Account<T> {
    pub key: Address,
    pub lamports: u64,
    pub data: T,
}

/// The party that signed the instruction.
#[derive(Clone, Copy, Debug, PartialEq, Eq)]
pub struct Signer {
    pub key: Address,
    pub lamports: u64,
}

/// A holding of tokens of one mint.
#[derive(Clone, Copy, Debug, PartialEq, Eq)]
pub struct TokenAccount {
    pub mint: Address,
    pub owner: Address,
    pub amount: u64,
}

/// The ledger's clock, read when the instruction runs.
#[derive(Clone, Copy, Debug, PartialEq, Eq)]
pub struct Clock {
    pub unix_timestamp: i64,
}

} // verus!
