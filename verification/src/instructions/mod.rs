//! The six instructions.
//!
//! Each instruction has two functions. `execute` decides: from the accounts,
//! the arguments and the authorities derived for them it either fails and
//! changes nothing, or leaves the accounts as the instruction ends and says
//! which transfers go with it. `handler` derives the authorities and hands
//! them to `execute`.
//!
//! Every instruction tests in the same order: the state of the offer or the
//! loan; the amounts, counters and times; that the addresses can be derived;
//! that each account is the one meant; that what it creates is not yet there.

pub mod borrow;
pub mod context;
pub mod create_pool;
pub mod liquidate;
pub mod offer_loan;
pub mod repay;
pub mod withdraw_offer;

pub use borrow::Borrow;
pub use context::Context;
pub use create_pool::CreatePool;
pub use liquidate::Liquidate;
pub use offer_loan::OfferLoan;
pub use repay::Repay;
pub use withdraw_offer::WithdrawOffer;
