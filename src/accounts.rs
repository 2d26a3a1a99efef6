use vstd::prelude::*;

use crate::state::{ConfidentialTokenAccount, Governance, Key, LiquidityPool, TradeOrder, UserStake};

verus! {

/// Records that `initialize_pool` reads and writes.
#[derive(Clone, Copy, Debug)]
pub struct InitializePool {
    pub pool: LiquidityPool,
    pub token_mint: Key,
    /// The signer, who becomes the pool's authority.
    pub authority: Key,
}

/// Records that `stake` reads and writes.
#[derive(Clone, Debug)]
pub struct StakeAccounts {
    pub pool: LiquidityPool,
    /// The signer.
    pub user: Key,
    /// The user's position in the pool; `UserStake::new()` for a first stake.
    pub user_stake: UserStake,
    pub user_token_account: ConfidentialTokenAccount,
    pub pool_token_account: ConfidentialTokenAccount,
    pub token_mint: Key,
}

/// Records that `withdraw` and `zk_exit` read and write.
#[derive(Clone, Debug)]
pub struct Withdraw {
    pub pool: LiquidityPool,
    /// The pool record's own address, from which its signer is derived.
    pub pool_address: Key,
    pub user_stake: UserStake,
    /// The signer.
    pub user: Key,
    pub pool_token_account: ConfidentialTokenAccount,
    pub user_token_account: ConfidentialTokenAccount,
    pub token_mint: Key,
}

/// Records that `commit_swap` reads and writes.
#[derive(Clone, Debug)]
pub struct CommitSwap {
    pub pool: LiquidityPool,
    /// The order of `trader` in `pool`, if one was committed.
    pub trade_order: Option<TradeOrder>,
    /// The signer.
    pub trader: Key,
}

/// Records that `reveal_swap` reads and writes.
#[derive(Clone, Debug)]
pub struct RevealSwap {
    /// The order of `trader` in `pool`, if one was committed.
    pub trade_order: Option<TradeOrder>,
    /// The signer.
    pub trader: Key,
    pub pool: LiquidityPool,
}

/// Records that `distribute_rewards` reads.
#[derive(Clone, Copy, Debug)]
pub struct DistributeRewards {
    pub pool: LiquidityPool,
    pub pool_token_account: ConfidentialTokenAccount,
}

/// Records that `update_reward_params` reads and writes.
#[derive(Clone, Copy, Debug)]
pub struct UpdateRewardParams {
    pub governance: Governance,
    /// The signer; must be the governance authority.
    pub authority: Key,
}

/// Records that `confidential_vote` reads and writes.
#[derive(Clone, Copy, Debug)]
pub struct ConfidentialVote {
    pub governance: Governance,
    /// The signer.
    pub voter: Key,
}

/// A signer acting on a zk-enabled account.
#[derive(Clone, Copy, Debug)]
pub struct SomeZkAccountAction {
    pub user: Key,
}

/// Records that the proof-gated auxiliary instructions read.
#[derive(Clone, Debug)]
pub struct AdditionalFeatures {
    /// The signer.
    pub user: Key,
    pub user_stake: UserStake,
}

} // verus!
