//! A multisignature custody engine: a registry of member keys jointly
//! controls derived authorities behind a configurable approval threshold,
//! with a transaction lifecycle state machine (draft, activation, voting,
//! threshold evaluation, execution) and per-member periodic spending limits.

pub mod errors;
pub mod execute;
pub mod instruction;
pub mod key;
pub mod keyset;
pub mod laws;
pub mod ms;
pub mod pda;
pub mod registry_ops;
pub mod spending_limit;
pub mod spending_ops;
pub mod transaction;
pub mod tx_ops;
pub mod validator;
