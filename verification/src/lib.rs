//! A single-proposal voting ledger for a Soroban contract: each registered
//! participant casts at most one vote inside a bounded time window, and the
//! outcome is the approval rate held against a threshold in basis points.
//!
//! The library holds the rules and proves them. It does no I/O: the contract
//! around it reads the persisted state and the clock from the host, calls
//! these functions, and writes the state back.

pub mod contract;
pub mod error;
pub mod laws;
pub mod proposal;
pub mod registry;

pub use contract::{DataKey, Records, SimpleVoting};
pub use error::Error;
pub use proposal::Proposal;
