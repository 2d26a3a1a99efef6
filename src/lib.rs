//! State-transition core of a confidential liquidity pool: staking with
//! opaque balance commitments, commit–reveal trade orders and governance
//! votes, each gated by a zero-knowledge proof check.
pub mod accounts;
pub mod compression;
pub mod custody;
pub mod errors;
pub mod laws;
pub mod state;
pub mod zk_liquidity_pool;
pub mod zk_utils;
