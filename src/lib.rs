//! A two-asset constant-product market maker with a custodial, time-locked
//! liquidity ledger.
//!
//! The pricing engine (`amm`) turns live reserves into a swap output, charging
//! a 3% fee on the output side. Vault custody (`vault`) moves balances between
//! a depositor and a vault, and only a vault authority can move funds out. The
//! pool (`pool`) runs the public operations atomically: each one either
//! succeeds with every effect, or fails with an error and changes nothing.
//! The laws that hold across operations are proved in `laws`.
pub mod amm;
pub mod error;
pub mod laws;
pub mod pool;
pub mod position;
pub mod vault;
