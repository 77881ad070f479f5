//! Conversions of Ethereum domain objects between a node's internal
//! representation and the representation that client libraries expect.
//!
//! Every conversion is a pure function. A conversion that can lose
//! information returns an error instead.

pub mod access_list;
pub mod account_proof;
pub mod error;
pub mod failure;
pub mod fee_history;
pub mod filter;
pub mod log;
pub mod numeric;
pub mod primitives;
pub mod receipt;
pub mod traits;
pub mod transaction;
