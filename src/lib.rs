//! A fungible-token ledger: a fixed supply of indivisible units spread over
//! accounts, moved by direct transfers and by transfers on an allowance.
//!
//! The host supplies the caller's identity as an argument to each mutating
//! call, and each successful transfer hands back its notification as a value.

pub mod account;
pub mod ledger;
pub mod table;

pub use account::{AccountId, AllowanceKey, Key};
pub use ledger::{Balance, Erc20, Error, Transfer};
pub use table::Table;
