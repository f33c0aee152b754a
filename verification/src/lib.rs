//! Rolling per-token trade statistics and pattern signals for a stream of
//! normalized decentralized-exchange trades.
//!
//! Amounts of the base currency are held as whole lamports and every ratio as
//! a fixed-point number of millionths, so that each result is an exact
//! function of its inputs.

pub mod activity;
pub mod assoc;
mod clock;
pub mod db;
pub mod fixed;
pub mod inflow;
pub mod invariants;
pub mod processor;
pub mod program_trades;
pub mod sequences;
pub mod signals;
pub mod sorting;
pub mod state;
pub mod trade_extractor;
pub mod types;
pub mod windows;
