//! A ledger-style authority pair: a reward ledger that converts reported
//! vehicle travel into issued-token amounts at owner-configurable rates,
//! guarded against duplicate issuance by a fixed-size probabilistic replay
//! filter, and a regional carbon-accounting oracle that stores per-region
//! consumption and emission parameters and computes trip-level emissions
//! and cost.
//!
//! Host concerns (account storage, signature verification, the token mint
//! itself, and the clock) are external collaborators: callers arrive already
//! authenticated as an identity, timestamps are passed in, and the reward
//! issuance is split into a decision step and a commit step around the
//! external mint call.

pub mod account;
pub mod bloom;
pub mod ledger;
pub mod oracle;
