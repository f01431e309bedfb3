//! Price observation for concentrated-liquidity pools: exact derivation of
//! both exchange rates from a fixed-point square-root price, their decimal
//! rendering, and the per-pool monitor state machine.
pub mod bignum;
pub mod calc;
pub mod format;
pub mod monitor;
pub mod supervisor;
