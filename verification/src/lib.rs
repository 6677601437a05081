//! A two-party token escrow with an arbiter, as a verified state machine.
//!
//! A buyer locks tokens in the contract; they go to the seller when delivery is
//! approved, back to the buyer after a deadline, or wherever the arbiter of a
//! dispute sends them. [`contract::EscrowContract`] holds the entry points. Each
//! one works on an [`env::Env`]: what the contract has stored, the current ledger
//! and the ordered list of what it asks of the host (authorisations, token
//! transfers, events). The host carries that list out; an invocation in which
//! one item fails leaves no trace.
pub mod address;
pub mod admin;
pub mod contract;
pub mod env;
pub mod errors;
pub mod laws;
pub mod model;
pub mod outcomes;
pub mod storage;
