//! A token minter: creates a fungible token whose mint and freeze authority
//! are a single address derived from a fixed seed, and exposes instruction
//! handlers that freeze, thaw and burn holder balances under explicit
//! authority checks.

pub mod authority;
pub mod errors;
pub mod instructions;
pub mod laws;
pub mod ledger;
