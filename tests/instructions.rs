use zk_liquidity_pool::accounts::{
    AdditionalFeatures, CommitSwap, ConfidentialVote, DistributeRewards, InitializePool,
    RevealSwap, StakeAccounts, UpdateRewardParams, Withdraw,
};
use zk_liquidity_pool::compression::{compress_proof, decompress_proof};
use zk_liquidity_pool::errors::ErrorCode;
use zk_liquidity_pool::state::{
    keys_equal, ConfidentialTokenAccount, ConfidentialTokenProgram, Governance, LiquidityPool,
    TradeOrder, UserStake,
};
use zk_liquidity_pool::zk_liquidity_pool::{
    batch_stake, commit_swap, confidential_vote, distribute_rewards, initialize_pool, reveal_swap, stake,
    update_reward_params, withdraw, zk_encrypted_messaging, zk_exit, zk_proof_of_funds,
    remaining_stake_duration, MIN_STAKE_DURATION,
};
use zk_liquidity_pool::zk_utils::{
    verify, verify_confidential_balance, verify_identity_proof, verify_transfer_proof, ProofError,
    ProofKind, PublicInputs,
};

const AUTHORITY: [u8; 32] = [1u8; 32];
const MINT: [u8; 32] = [2u8; 32];
const USER: [u8; 32] = [3u8; 32];
const POOL_ADDRESS: [u8; 32] = [4u8; 32];

fn pool(total: u64) -> LiquidityPool {
    LiquidityPool { authority: AUTHORITY, token_mint: MINT, total_staked: total, bump: 254 }
}

fn custody() -> ConfidentialTokenAccount {
    ConfidentialTokenAccount { balance_commitment: [0u8; 64] }
}

fn stake_ctx(total: u64, position: UserStake) -> StakeAccounts {
    StakeAccounts {
        pool: pool(total),
        user: USER,
        user_stake: position,
        user_token_account: custody(),
        pool_token_account: custody(),
        token_mint: MINT,
    }
}

fn withdraw_ctx(pool: LiquidityPool, position: UserStake) -> Withdraw {
    Withdraw {
        pool,
        pool_address: POOL_ADDRESS,
        user_stake: position,
        user: USER,
        pool_token_account: custody(),
        user_token_account: custody(),
        token_mint: MINT,
    }
}

fn features() -> AdditionalFeatures {
    AdditionalFeatures { user: USER, user_stake: UserStake::new() }
}

#[test]
fn initialize_pool_sets_authority_mint_and_zero_total() {
    let mut ctx = InitializePool { pool: pool(77), token_mint: MINT, authority: AUTHORITY };
    ctx.pool.authority = [9u8; 32];
    assert_eq!(initialize_pool(&mut ctx, 7), Ok(()));
    assert_eq!(ctx.pool.authority, AUTHORITY);
    assert_eq!(ctx.pool.token_mint, MINT);
    assert_eq!(ctx.pool.total_staked, 0);
    assert_eq!(ctx.pool.bump, 7);
}

#[test]
fn stake_records_commitment_time_mint_and_total() {
    let mut ctx = stake_ctx(10, UserStake::new());
    assert_eq!(stake(&mut ctx, 100, vec![1, 2, 3], [5u8; 64], 1_000), Ok(()));
    assert_eq!(ctx.pool.total_staked, 110);
    assert_eq!(ctx.user_stake.confidential_balance, [5u8; 64]);
    assert_eq!(ctx.user_stake.stake_timestamp, 1_000);
    assert_eq!(ctx.user_stake.asset_mint, MINT);
}

#[test]
fn stake_with_empty_proof_is_invalid_and_changes_nothing() {
    let mut ctx = stake_ctx(10, UserStake::new());
    assert_eq!(stake(&mut ctx, 1, vec![], [5u8; 64], 1_000), Err(ErrorCode::InvalidZKProof));
    assert_eq!(ctx.pool.total_staked, 10);
    assert_eq!(ctx.user_stake.confidential_balance, [0u8; 64]);
    assert_eq!(ctx.user_stake.stake_timestamp, 0);
}

#[test]
fn stake_overflowing_total_fails_and_changes_nothing() {
    let mut ctx = stake_ctx(u64::MAX - 1, UserStake::new());
    assert_eq!(stake(&mut ctx, 2, vec![1], [5u8; 64], 1_000), Err(ErrorCode::MathOverflow));
    assert_eq!(ctx.pool.total_staked, u64::MAX - 1);
    assert_eq!(ctx.user_stake.confidential_balance, [0u8; 64]);
    assert_eq!(stake(&mut ctx, 1, vec![1], [5u8; 64], 1_000), Ok(()));
    assert_eq!(ctx.pool.total_staked, u64::MAX);
}

#[test]
fn withdraw_more_than_staked_fails_with_overflow() {
    let mut s = stake_ctx(0, UserStake::new());
    assert_eq!(stake(&mut s, 100, vec![1], [5u8; 64], 0), Ok(()));
    let mut w = withdraw_ctx(s.pool, s.user_stake);
    assert_eq!(withdraw(&mut w, 150, vec![1], [6u8; 64], 100), Err(ErrorCode::MathOverflow));
    assert_eq!(w.pool.total_staked, 100);
    assert_eq!(w.user_stake.confidential_balance, [5u8; 64]);
    assert_eq!(w.user_stake.stake_timestamp, 0);
}

#[test]
fn withdraw_waits_for_the_minimum_duration() {
    let mut s = stake_ctx(0, UserStake::new());
    assert_eq!(stake(&mut s, 100, vec![1], [5u8; 64], 0), Ok(()));
    let mut w = withdraw_ctx(s.pool, s.user_stake);
    assert_eq!(withdraw(&mut w, 40, vec![1], [6u8; 64], 30), Err(ErrorCode::StakeDurationNotMet));
    assert_eq!(w.pool.total_staked, 100);
    assert_eq!(w.user_stake.confidential_balance, [5u8; 64]);
    assert_eq!(w.user_stake.stake_timestamp, 0);
    assert_eq!(withdraw(&mut w, 40, vec![1], [6u8; 64], 61), Ok(()));
    assert_eq!(w.pool.total_staked, 60);
    assert_eq!(w.user_stake.confidential_balance, [6u8; 64]);
    assert_eq!(w.user_stake.stake_timestamp, 0);
}

#[test]
fn withdraw_at_exactly_the_minimum_duration_is_accepted() {
    let mut position = UserStake::new();
    position.stake_timestamp = 500;
    let mut w = withdraw_ctx(pool(10), position);
    assert_eq!(withdraw(&mut w, 10, vec![1], [6u8; 64], 500 + MIN_STAKE_DURATION - 1), Err(ErrorCode::StakeDurationNotMet));
    assert_eq!(withdraw(&mut w, 10, vec![1], [6u8; 64], 500 + MIN_STAKE_DURATION), Ok(()));
    assert_eq!(w.pool.total_staked, 0);
}

#[test]
fn withdraw_with_extreme_times_does_not_overflow() {
    let mut position = UserStake::new();
    position.stake_timestamp = i64::MAX;
    let mut w = withdraw_ctx(pool(10), position);
    assert_eq!(withdraw(&mut w, 1, vec![1], [6u8; 64], i64::MIN), Err(ErrorCode::StakeDurationNotMet));
    let mut position = UserStake::new();
    position.stake_timestamp = i64::MIN;
    let mut w = withdraw_ctx(pool(10), position);
    assert_eq!(withdraw(&mut w, 1, vec![1], [6u8; 64], i64::MAX), Ok(()));
}

#[test]
fn withdraw_with_empty_proof_after_the_duration_is_invalid() {
    let mut w = withdraw_ctx(pool(10), UserStake::new());
    assert_eq!(withdraw(&mut w, 1, vec![], [6u8; 64], 100), Err(ErrorCode::InvalidZKProof));
    assert_eq!(w.pool.total_staked, 10);
}

#[test]
fn zk_exit_behaves_as_withdraw() {
    let mut w = withdraw_ctx(pool(10), UserStake::new());
    assert_eq!(zk_exit(&mut w, 4, vec![1], [6u8; 64], 30), Err(ErrorCode::StakeDurationNotMet));
    assert_eq!(zk_exit(&mut w, 11, vec![1], [6u8; 64], 60), Err(ErrorCode::MathOverflow));
    assert_eq!(zk_exit(&mut w, 4, vec![1], [6u8; 64], 60), Ok(()));
    assert_eq!(w.pool.total_staked, 6);
    assert_eq!(w.user_stake.confidential_balance, [6u8; 64]);
}

#[test]
fn total_staked_tracks_accepted_stakes_and_withdrawals() {
    let mut s = stake_ctx(0, UserStake::new());
    assert_eq!(stake(&mut s, 100, vec![1], [1u8; 64], 0), Ok(()));
    assert_eq!(stake(&mut s, 50, vec![], [2u8; 64], 0), Err(ErrorCode::InvalidZKProof));
    assert_eq!(stake(&mut s, 30, vec![1], [3u8; 64], 10), Ok(()));
    let mut w = withdraw_ctx(s.pool, s.user_stake);
    assert_eq!(withdraw(&mut w, 20, vec![1], [4u8; 64], 50), Err(ErrorCode::StakeDurationNotMet));
    assert_eq!(withdraw(&mut w, 20, vec![1], [4u8; 64], 70), Ok(()));
    assert_eq!(withdraw(&mut w, 200, vec![1], [4u8; 64], 70), Err(ErrorCode::MathOverflow));
    assert_eq!(w.pool.total_staked, 100 + 30 - 20);
}

#[test]
fn commit_then_reveal_stores_the_order() {
    let mut c = CommitSwap { pool: pool(0), trade_order: None, trader: USER };
    assert_eq!(commit_swap(&mut c, [7u8; 32], [8u8; 64], 42), Ok(()));
    let order = c.trade_order.clone().unwrap();
    assert_eq!(order.commitment, [7u8; 32]);
    assert_eq!(order.encrypted_order, [8u8; 64]);
    assert_eq!(order.trade_timestamp, 42);
    assert!(order.revealed_order.is_empty());
    let mut r = RevealSwap { trade_order: c.trade_order, trader: USER, pool: pool(0) };
    assert_eq!(reveal_swap(&mut r, vec![1], vec![10, 20, 30]), Ok(()));
    let order = r.trade_order.unwrap();
    assert_eq!(order.revealed_order, vec![10, 20, 30]);
    assert_eq!(order.commitment, [7u8; 32]);
}

#[test]
fn reveal_without_commit_fails() {
    let mut r = RevealSwap { trade_order: None, trader: USER, pool: pool(0) };
    assert_eq!(reveal_swap(&mut r, vec![1], vec![10]), Err(ErrorCode::OrderNotCommitted));
    assert!(r.trade_order.is_none());
}

#[test]
fn reveal_with_empty_proof_is_invalid() {
    let order = TradeOrder {
        commitment: [7u8; 32],
        encrypted_order: [8u8; 64],
        trade_timestamp: 1,
        revealed_order: vec![],
    };
    let mut r = RevealSwap { trade_order: Some(order), trader: USER, pool: pool(0) };
    assert_eq!(reveal_swap(&mut r, vec![], vec![10]), Err(ErrorCode::InvalidZKProof));
    assert!(r.trade_order.unwrap().revealed_order.is_empty());
}

#[test]
fn second_commit_is_refused() {
    let mut c = CommitSwap { pool: pool(0), trade_order: None, trader: USER };
    assert_eq!(commit_swap(&mut c, [7u8; 32], [8u8; 64], 42), Ok(()));
    assert_eq!(commit_swap(&mut c, [9u8; 32], [9u8; 64], 50), Err(ErrorCode::OrderAlreadyCommitted));
    assert_eq!(c.trade_order.unwrap().commitment, [7u8; 32]);
}

#[test]
fn vote_overflow_fails_and_keeps_the_count() {
    let gov = Governance { authority: AUTHORITY, reward_rate: 3, vote_count: u64::MAX - 1 };
    let mut ctx = ConfidentialVote { governance: gov, voter: USER };
    assert_eq!(confidential_vote(&mut ctx, 5, vec![1]), Err(ErrorCode::MathOverflow));
    assert_eq!(ctx.governance.vote_count, u64::MAX - 1);
    assert_eq!(confidential_vote(&mut ctx, 1, vec![1]), Ok(()));
    assert_eq!(ctx.governance.vote_count, u64::MAX);
}

#[test]
fn votes_add_up_and_never_decrease() {
    let gov = Governance { authority: AUTHORITY, reward_rate: 3, vote_count: 0 };
    let mut ctx = ConfidentialVote { governance: gov, voter: USER };
    let mut last = 0u64;
    for (weight, proof) in [(3u8, vec![1u8]), (0, vec![1]), (7, vec![]), (255, vec![2])] {
        let _ = confidential_vote(&mut ctx, weight, proof);
        assert!(ctx.governance.vote_count >= last);
        last = ctx.governance.vote_count;
    }
    assert_eq!(ctx.governance.vote_count, 3 + 255);
}

#[test]
fn vote_with_empty_proof_is_invalid() {
    let gov = Governance { authority: AUTHORITY, reward_rate: 3, vote_count: 9 };
    let mut ctx = ConfidentialVote { governance: gov, voter: USER };
    assert_eq!(confidential_vote(&mut ctx, 1, vec![]), Err(ErrorCode::InvalidZKProof));
    assert_eq!(ctx.governance.vote_count, 9);
}

#[test]
fn reward_rate_is_set_by_the_authority_only() {
    let gov = Governance { authority: AUTHORITY, reward_rate: 3, vote_count: 0 };
    let mut other = UpdateRewardParams { governance: gov, authority: USER };
    assert_eq!(update_reward_params(&mut other, 9, vec![1]), Err(ErrorCode::Unauthorized));
    assert_eq!(other.governance.reward_rate, 3);
    let mut ctx = UpdateRewardParams { governance: gov, authority: AUTHORITY };
    assert_eq!(update_reward_params(&mut ctx, 9, vec![]), Err(ErrorCode::InvalidZKProof));
    assert_eq!(ctx.governance.reward_rate, 3);
    assert_eq!(update_reward_params(&mut ctx, 9, vec![1]), Ok(()));
    assert_eq!(ctx.governance.reward_rate, 9);
    assert_eq!(ctx.governance.vote_count, 0);
}

#[test]
fn distribute_rewards_needs_a_proof() {
    let ctx = DistributeRewards { pool: pool(0), pool_token_account: custody() };
    assert_eq!(distribute_rewards(&ctx, vec![], 10), Err(ErrorCode::InvalidZKProof));
    assert_eq!(distribute_rewards(&ctx, vec![1], 10), Ok(()));
}

#[test]
fn auxiliary_instructions_are_gated_by_their_proof() {
    let ctx = features();
    assert_eq!(zk_proof_of_funds(&ctx, vec![]), Err(ErrorCode::InvalidZKProof));
    assert_eq!(zk_proof_of_funds(&ctx, vec![1]), Ok(()));
    assert_eq!(zk_encrypted_messaging(&ctx, vec![1], vec![]), Err(ErrorCode::InvalidZKProof));
    assert_eq!(zk_encrypted_messaging(&ctx, vec![1], vec![1]), Ok(()));
}

#[test]
fn verifier_gives_the_same_outcome_twice() {
    let inputs = PublicInputs::BalanceUpdate { old_commitment: [0u8; 64], amount: 5, new_commitment: [1u8; 64] };
    for proof in [vec![], vec![1u8, 2, 3]] {
        let first = verify(ProofKind::BalanceUpdate, &proof, &inputs);
        let second = verify(ProofKind::BalanceUpdate, &proof, &inputs);
        assert_eq!(first, second);
    }
    assert_eq!(verify(ProofKind::BalanceUpdate, &vec![], &inputs), Err(ProofError::Empty));
    assert_eq!(verify(ProofKind::BalanceUpdate, &vec![1], &inputs), Ok(()));
}

#[test]
fn verifier_rejects_inputs_of_another_kind() {
    assert_eq!(verify(ProofKind::Identity, &vec![1], &PublicInputs::Transfer), Err(ProofError::Invalid));
    assert_eq!(verify(ProofKind::Transfer, &vec![1], &PublicInputs::Transfer), Ok(()));
    assert_eq!(PublicInputs::Identity.kind(), ProofKind::Identity);
}

#[test]
fn proof_checks_map_to_their_errors() {
    assert_eq!(verify_confidential_balance(vec![], 1, [0u8; 64], [1u8; 64]), Err(ErrorCode::InvalidZKProof));
    assert_eq!(verify_confidential_balance(vec![1], 1, [0u8; 64], [1u8; 64]), Ok(()));
    assert_eq!(verify_transfer_proof(vec![]), Err(ErrorCode::InvalidZKProof));
    assert_eq!(verify_transfer_proof(vec![1]), Ok(()));
    assert_eq!(verify_identity_proof(vec![]), Err(ErrorCode::InvalidZKProof));
    assert_eq!(verify_identity_proof(vec![1]), Ok(()));
}

#[test]
fn compress_proof_produces_a_zlib_stream() {
    let proof = vec![0u8; 1000];
    let compressed = compress_proof(proof.clone()).unwrap();
    assert_ne!(compressed, proof);
    assert!(compressed.len() < proof.len());
    assert_eq!(compressed[0], 0x78);
    assert_eq!(compress_proof(proof).unwrap(), compressed);
}

#[test]
fn keys_compare_by_bytes() {
    assert!(keys_equal(&AUTHORITY, &[1u8; 32]));
    let mut k = AUTHORITY;
    k[31] = 0;
    assert!(!keys_equal(&AUTHORITY, &k));
    assert_eq!(ConfidentialTokenProgram::id(), [0u8; 32]);
}

#[test]
fn record_sizes() {
    assert_eq!(LiquidityPool::LEN, 73);
    assert_eq!(UserStake::LEN, 172);
    assert_eq!(TradeOrder::LEN, 236);
}

#[test]
fn remaining_stake_duration_counts_down_to_zero() {
    assert_eq!(remaining_stake_duration(0, 30), 30);
    assert_eq!(remaining_stake_duration(0, 59), 1);
    assert_eq!(remaining_stake_duration(0, 60), 0);
    assert_eq!(remaining_stake_duration(0, 1_000), 0);
    assert_eq!(remaining_stake_duration(i64::MAX, i64::MIN), u64::MAX as u128 + 60);
}

#[test]
fn decompress_proof_restores_a_compressed_proof() {
    let proof: Vec<u8> = (0..500u32).map(|i| (i % 7) as u8).collect();
    let compressed = compress_proof(proof.clone()).unwrap();
    assert_eq!(decompress_proof(compressed), Ok(proof));
}

#[test]
fn decompress_proof_refuses_a_corrupt_stream() {
    assert_eq!(decompress_proof(vec![1, 2, 3, 4]), Err(ErrorCode::CompressionError));
    let mut truncated = compress_proof(vec![9u8; 300]).unwrap();
    truncated.truncate(3);
    assert_eq!(decompress_proof(truncated), Err(ErrorCode::CompressionError));
}

#[test]
fn batch_stake_is_refused_when_any_proof_is_empty() {
    let ctx = features();
    assert_eq!(
        batch_stake(&ctx, vec![1, 2], vec![vec![1], vec![]], vec![[1u8; 64], [2u8; 64]]),
        Err(ErrorCode::InvalidZKProof)
    );
    assert_eq!(
        batch_stake(&ctx, vec![1, 2], vec![vec![1], vec![2]], vec![[1u8; 64], [2u8; 64]]),
        Ok(())
    );
    assert_eq!(batch_stake(&ctx, vec![], vec![], vec![]), Ok(()));
}
