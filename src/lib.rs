//! Cycle-based staking, emission and fee accrual engine, and the burn
//! lottery built on it.
//!
//! - `state`: the engine's data and its view as a `Ledger`.
//! - `model`: the engine as a state machine of spec functions.
//! - `handler`: the operations, proved to follow the model; a failed
//!   operation changes nothing.
//! - `contract`: creation and the privileged operations.
//! - `query`: read-only projections and claim previews.
//! - `laws`: properties of the model, proved.
//! - `fomo`: the burn lottery.

pub mod error;
pub mod state;
pub mod model;
pub mod handler;
pub mod contract;
pub mod msg;
pub mod query;
pub mod laws;
pub mod fomo;
