//! Composition of token-2022 extension accounts: planning the byte layout of a
//! mint or token account with a requested set of extensions, ordering the
//! initialization instructions, and dispatching authority-gated mutations
//! against an account model that mirrors the on-ledger state.

pub mod errors;
pub mod fees;
pub mod keys;
pub mod laws;
pub mod kinds;
pub mod mint_model;
pub mod ops;
pub mod plan;
pub mod token_model;
pub mod trusted;
