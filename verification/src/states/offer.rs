use vstd::prelude::*;
use crate::authority::Address;

verus! {

/// A lender's standing commitment of principal against a collection.
#[derive(Clone, Copy, Debug, PartialEq, Eq)]
pub struct Offer {
    /// Collection pool
    pub collection: Address,
    /// Principal
    pub offer_amount: u64,
    /// Principal plus the markup
    pub repay_amount: u64,
    /// Lender
    pub lender: Address,
    /// Borrower, unset until the offer is matched
    pub borrower: Address,
    /// Whether a borrower has taken the principal
    pub is_loan_taken: bool,
    /// Bump
    pub bump: u8,
}

/// What is owed on a principal: the principal and a tenth of it, rounded down.
pub open spec fn repay_amount_of(offer_amount: int) -> int {
    offer_amount + offer_amount * 10 / 100
}

impl Offer {
    pub const LEN: usize = 8 + 32 + 8 + 8 + 32 + 32 + 1 + 1;

    /// Computes `repay_amount_of`, or `None` where a step of it leaves `u64`.
    pub fn checked_repay_amount(offer_amount: u64) -> (r: Option<u64>)
        ensures
            r is Some <==> offer_amount * 10 <= u64::MAX,
            r matches Some(v) ==> v == repay_amount_of(offer_amount as int),
    {
        match offer_amount.checked_mul(10) {
            Some(tenfold) => {
                let markup: u64 = tenfold / 100;
                offer_amount.checked_add(markup)
            },
            None => None,
        }
    }

    /// An offer as `offer_loan` leaves it and `borrow` may change it.
    pub open spec fn wf(self) -> bool {
        &&& self.repay_amount == repay_amount_of(self.offer_amount as int)
        &&& !self.is_loan_taken ==> self.borrower == Address::spec_unset()
    }

    /// What one instruction may do to an offer that stays on the ledger:
    /// nothing, or match it with a borrower.
    pub open spec fn steps_to(self, next: Offer) -> bool {
        ||| next == self
        ||| {
            &&& !self.is_loan_taken
            &&& next == (Offer { borrower: next.borrower, is_loan_taken: true, ..self })
        }
    }
}

} // verus!
