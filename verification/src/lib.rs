//! An on-ledger arbitrage protocol, modelled as plain in-process state
//! machines: a strategy registry with an approval lifecycle, a flash-loan
//! pool with reentrancy-guarded borrow/repay accounting, an execution
//! engine that splits profit three ways without losing a unit to rounding,
//! and token-weighted governance that can approve strategies.
//!
//! Every operation is an atomic unit of work: it either applies all of its
//! state changes or, on any error, none of them, and each contract below
//! says exactly which error comes back on which inputs.

pub mod address;
pub mod engine;
pub mod errors;
pub mod governance;
pub mod monitor;
pub mod pool;
pub mod registry;
pub mod webhook;
