//! A commit-reveal randomness consumer.
//!
//! A per-identity state record is bound to a commitment published by an
//! external randomness oracle, waits for the oracle to reveal the committed
//! value, and reduces the revealed bytes to a boolean outcome. The record
//! cycles indefinitely through request -> reveal -> request...

pub mod laws;
pub mod oracle;
pub mod protocol;
pub mod state;
