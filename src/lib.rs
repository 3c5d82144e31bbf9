//! Escrow and settlement for a two-player wager: entry stakes are collected
//! into a program-owned custody account and later released to a winner under
//! an authority derived from the custody account's own address.

mod address;
mod host;
pub mod instruction;
pub mod ledger;
pub mod plan;
pub mod processor;

pub use address::Address;
