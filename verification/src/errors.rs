//! The ways an instruction can fail. A failed instruction changes nothing.

use vstd::prelude::*;

verus! {

#[derive(Clone, Copy, Debug, PartialEq, Eq, Structural)]
pub enum ErrorCodes {
    /// The offer is already matched with a borrower.
    LoanAlreadyTaken,
    /// The loan was already repaid.
    LoanAlreadyRepaid,
    /// The loan is not yet past its due time.
    CannotLiquidateYet,
    /// The loan was already liquidated.
    LoanAlreadyLiquidated,
    /// An amount, a counter or a timestamp would leave its range.
    ArithmeticFailure,
    /// An account is not the one that the records name.
    ValidationFailure,
    /// An account that the instruction creates is already there.
    AccountAlreadyExists,
    /// No address can be derived from a seed list.
    AddressNotDerivable,
}

impl ErrorCodes {
    /// The text shown to the caller.
    pub open spec fn spec_message(self) -> Seq<char> {
        match self {
            ErrorCodes::LoanAlreadyTaken => "Loan Already Taken"@,
            ErrorCodes::LoanAlreadyRepaid => "Loan Already Repaid"@,
            ErrorCodes::CannotLiquidateYet => "Cannot Liquidate Loan Yet"@,
            ErrorCodes::LoanAlreadyLiquidated => "Loan Already Liquidated"@,
            ErrorCodes::ArithmeticFailure => "Arithmetic Failure"@,
            ErrorCodes::ValidationFailure => "Account Validation Failure"@,
            ErrorCodes::AccountAlreadyExists => "Account Already Exists"@,
            ErrorCodes::AddressNotDerivable => "Address Not Derivable"@,
        }
    }

    pub fn message(&self) -> (r: String)
        ensures
            r@ == self.spec_message(),
    {
        match self {
            ErrorCodes::LoanAlreadyTaken => "Loan Already Taken".to_owned(),
            ErrorCodes::LoanAlreadyRepaid => "Loan Already Repaid".to_owned(),
            ErrorCodes::CannotLiquidateYet => "Cannot Liquidate Loan Yet".to_owned(),
            ErrorCodes::LoanAlreadyLiquidated => "Loan Already Liquidated".to_owned(),
            ErrorCodes::ArithmeticFailure => "Arithmetic Failure".to_owned(),
            ErrorCodes::ValidationFailure => "Account Validation Failure".to_owned(),
            ErrorCodes::AccountAlreadyExists => "Account Already Exists".to_owned(),
            ErrorCodes::AddressNotDerivable => "Address Not Derivable".to_owned(),
        }
    }
}

} // verus!
