//! A non-fungible-token ledger for a CosmWasm host.
//!
//! The ledger tracks issuance, ownership, transfer and delegated
//! authorization of uniquely numbered tokens. Every command and query is
//! stated as a contract over the contents of the host's store.

pub mod api;
pub mod command;
pub mod contract;
pub mod env;
mod error;
pub mod host;
pub mod laws;
pub mod msg;
pub mod order;
pub mod query;
pub mod rules;
pub mod state;
pub mod storage;

pub use crate::env::Addr;
pub use crate::error::{ContractError, ErrorView};
