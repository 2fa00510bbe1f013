//! Quote engine for a liquidity pool whose reserves sit in yield-bearing vaults.
//!
//! The engine answers how much of one pool token a swap of the other would
//! return, and what fee it charges, from a snapshot of pool and vault state.
//! Every step is a pure function over plain integers with overflow-checked
//! arithmetic, specified by the spec functions of each module.
pub mod curve;
pub mod depeg;
pub mod error;
pub mod fees;
pub mod math;
pub mod quote;
pub mod vault;
