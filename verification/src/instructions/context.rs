use vstd::prelude::*;
use crate::authority::Address;
use crate::errors::ErrorCodes;

verus! {

/// What an instruction runs on: the program's own id, under which every
/// authority is derived, and the accounts handed to it. The accounts of one
/// context are distinct accounts of the ledger.
#[derive(Clone, Copy, Debug, PartialEq, Eq)]
pub struct Context<T> {
    pub program_id: Address,
    pub accounts: T,
}

/// An instruction is all or nothing. Where `outcome` is an error, the
/// instruction returns that error and leaves the accounts as they were
/// `before`. Where it is a pair, the instruction leaves the accounts as the
/// first of the pair and returns the second.
pub open spec fn ends_as<T, R>(
    before: Context<T>,
    after: Context<T>,
    returned: Result<R, ErrorCodes>,
    outcome: Result<(Context<T>, R), ErrorCodes>,
) -> bool {
    match outcome {
        Ok((post, receipt)) => returned == Ok::<R, ErrorCodes>(receipt) && after == post,
        Err(e) => returned == Err::<R, ErrorCodes>(e) && after == before,
    }
}

} // verus!
