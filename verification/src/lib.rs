//! A custodial ledger for one denomination, written against the CosmWasm
//! storage interface.
//!
//! Accounts deposit the allowed denomination, move balances between each
//! other and withdraw them again. The rules are stated over a mathematical
//! model of the stored balances in [`ledger`]; the entry points in
//! [`contract`] are proved to follow that model.

pub mod contract;
pub mod error;
pub mod ledger;
pub mod msg;
pub mod state;
