//! Core logic of a two-source DEX arbitrage detector.
//!
//! The library holds everything the detector decides or computes: fixed-point
//! amount normalization, the strict profit-threshold evaluation, the hardcoded
//! token-decimals lookup, quote-request construction, the per-direction
//! round-trip bookkeeping, and the composition of a whole poll cycle. All
//! amounts are integers in a token's smallest unit; decimal values are held as
//! exact fixed-point numbers, never floats.
//!
//! The surrounding process (environment loading, the blockchain RPC transport,
//! the SQLite persistence and the sleep between cycles) performs the outside
//! work and feeds its outcomes back in as plain values.

pub mod amounts;
pub mod config;
pub mod cycle;
pub mod evaluator;
pub mod monitor;
pub mod quotes;
pub mod text;
pub mod tokens;
