//! Two small ledger state machines: a donation ledger that forwards value to
//! a beneficiary, and a proposal voting registry with one vote per voter.

pub mod account;
pub mod donation;
pub mod voting;
pub mod laws;
