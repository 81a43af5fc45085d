//! A proportional-share staking-rewards ledger.
//!
//! Participants deposit a stake asset into a shared pool; rewards accrue
//! continuously at a fixed per-second rate and are distributed pro-rata by
//! time-weighted share of the pool. Participants may stake, unstake and claim
//! independently of one another.
//!
//! The library is the decision core alone: each operation validates its
//! inputs, settles rewards as of the supplied timestamp, and returns the
//! complete post-operation ledger state together with the asset transfer it
//! requests. Custody of assets, identity checks, persistence and the clock
//! belong to the surrounding host, which commits the returned state only when
//! the requested transfer succeeds.

pub mod claim_rewards;
pub mod deposit_rewards;
pub mod errors;
pub mod initialize_pool;
pub mod laws;
pub mod stake;
pub mod state;
pub mod transfer;
pub mod unstake;
pub mod utils;
