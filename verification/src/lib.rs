//! Time-locked staking of uniquely identified tokens against a per-duration
//! reward schedule that is paid out of a pooled reward balance.
//!
//! The crate holds the staking ledger, the three lifecycle operations (stake,
//! claim, unstake), the owner-gated administrative operations, and the royalty
//! arithmetic of the token collections. Every operation is a total function on
//! an in-memory [`state::Staking`] value: it either fails and leaves the value
//! untouched, or succeeds and reports the custody move and the payout that the
//! host has to carry out together with the state change.

pub mod error;
pub mod accrual;
pub mod table;
pub mod state;
pub mod msg;
pub mod model;
pub mod query;
pub mod execute;
pub mod laws;
pub mod royalties;
