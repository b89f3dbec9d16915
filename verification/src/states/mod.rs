//! The records that the program keeps, and the accounts that hold them.

pub mod account;
pub mod active_loan;
pub mod collection_pool;
pub mod offer;
pub mod vault;

pub use account::Account;
pub use account::Clock;
pub use account::Signer;
pub use account::TokenAccount;
pub use active_loan::ActiveLoan;
pub use collection_pool::CollectionPool;
pub use offer::Offer;
pub use vault::Vault;
