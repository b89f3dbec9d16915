use vstd::prelude::*;
use crate::authority::Address;

verus! {

/// The record of a matched offer. It is kept after the loan has ended.
#[derive(Clone, Copy, Debug, PartialEq, Eq)]
pub struct ActiveLoan {
    /// Collection
    pub collection: Address,
    /// Offer Account
    pub offer_account: Address,
    /// Lender
    pub lender: Address,
    /// Borrower
    pub borrower: Address,
    /// NFT Mint
    pub mint: Address,
    /// Loan Taken Timestamp
    pub loan_ts: i64,
    /// Repayment Timestamp
    pub repay_ts: i64,
    /// Repaid
    pub is_repaid: bool,
    /// Liquidated
    pub is_liquidated: bool,
    /// Bump
    pub bump: u8,
}

impl ActiveLoan {
    pub const LEN: usize = 8 + 32 + 32 + 32 + 32 + 32 + 8 + 8 + 1 + 1 + 1;

    /// A loan never carries both marks: it ends by repayment or by
    /// liquidation, not by both.
    pub open spec fn wf(self) -> bool {
        !(self.is_repaid && self.is_liquidated)
    }

    /// Neither repaid nor liquidated.
    pub open spec fn is_open(self) -> bool {
        !self.is_repaid && !self.is_liquidated
    }

    /// Whether the due time has passed at `now`.
    pub open spec fn is_overdue(self, now: i64) -> bool {
        self.repay_ts < now
    }
}

} // verus!
