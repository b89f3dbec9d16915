use vstd::prelude::*;
use crate::authority::Address;

verus! {

/// One pool per collection. It holds no funds.
#[derive(Clone, Copy, Debug, PartialEq, Eq)]
pub struct CollectionPool {
    /// Collection
    pub collection_id: Address,
    /// Who created the pool
    pub owner: Address,
    /// How long a loan of this pool runs
    pub duration: i64,
    /// The number of live offers
    pub total_offers: u64,
    /// Bump
    pub bump: u8,
}

impl CollectionPool {
    pub const LEN: usize = 8 + 32 + 32 + 8 + 8 + 1;
}

} // verus!
