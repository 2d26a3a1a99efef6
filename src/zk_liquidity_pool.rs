//! The pool's instructions. Each one reads the records of its context, checks
//! a proof and local invariants, and then either updates the records and
//! returns `Ok`, or returns an error and leaves them as they were.
use vstd::prelude::*;

use crate::accounts::{
    AdditionalFeatures, CommitSwap, ConfidentialVote, DistributeRewards, InitializePool,
    RevealSwap, StakeAccounts, UpdateRewardParams, Withdraw,
};
use crate::compression::compress_proof;
use crate::custody::{
    confidential_mint, confidential_transfer, confidential_transfer_with_signer, DerivedSigner,
};
use crate::errors::ErrorCode;
use crate::state::{keys_equal, Governance, LiquidityPool, TradeOrder, UserStake};
use crate::zk_utils;

verus! {

/// Minimum time between the last stake and a withdrawal, against
/// stake-then-withdraw manipulation within one unit of execution.
pub const MIN_STAKE_DURATION: i64 = 60;

/// A change to a pool's total that a successful instruction makes.
#[derive(Clone, Copy, Debug)]
pub enum PoolEvent {
    Staked(u64),
    Withdrawn(u64),
}

/// Whether `event` keeps the pool's total within `u64`.
pub open spec fn pool_event_fits(pool: LiquidityPool, event: PoolEvent) -> bool {
    match event {
        PoolEvent::Staked(amount) => pool.total_staked + amount <= u64::MAX,
        PoolEvent::Withdrawn(amount) => amount <= pool.total_staked,
    }
}

/// The pool after `event`: only the total changes.
pub open spec fn pool_after(pool: LiquidityPool, event: PoolEvent) -> LiquidityPool {
    match event {
        PoolEvent::Staked(amount) => LiquidityPool {
            total_staked: (pool.total_staked + amount) as u64,
            ..pool
        },
        PoolEvent::Withdrawn(amount) => LiquidityPool {
            total_staked: (pool.total_staked - amount) as u64,
            ..pool
        },
    }
}

/// The error of `stake`, if any: an empty proof, then an overflowing total.
pub open spec fn stake_error(ctx: StakeAccounts, amount: u64, proof: Seq<u8>) -> Option<ErrorCode> {
    if proof.len() == 0 {
        Some(ErrorCode::InvalidZKProof)
    } else if !pool_event_fits(ctx.pool, PoolEvent::Staked(amount)) {
        Some(ErrorCode::MathOverflow)
    } else {
        None
    }
}

/// The records after a successful `stake`.
pub open spec fn staked(ctx: StakeAccounts, amount: u64, new_balance: [u8; 64], now: i64) -> StakeAccounts {
    StakeAccounts {
        pool: pool_after(ctx.pool, PoolEvent::Staked(amount)),
        user_stake: UserStake {
            confidential_balance: new_balance,
            stake_timestamp: now,
            asset_mint: ctx.token_mint,
            ..ctx.user_stake
        },
        ..ctx
    }
}

/// Initializes the liquidity pool: the signer becomes its authority, with
/// nothing staked.
pub fn initialize_pool(ctx: &mut InitializePool, bump: u8) -> (r: Result<(), ErrorCode>)
    ensures
        r is Ok,
        *final(ctx) == (InitializePool {
            pool: LiquidityPool {
                authority: old(ctx).authority,
                token_mint: old(ctx).token_mint,
                total_staked: 0,
                bump,
            },
            ..*old(ctx)
        }),
{
    ctx.pool.authority = ctx.authority;
    ctx.pool.token_mint = ctx.token_mint;
    ctx.pool.total_staked = 0;
    ctx.pool.bump = bump;
    Ok(())
}

/// Stakes `amount` of the pool's asset: the proof must attest
/// `old commitment + amount = new_confidential_balance`; then the amount is
/// transferred to the pool, the position takes the new commitment, the time
/// `now` and the asset, and the pool's total grows by `amount`.
pub fn stake(
    ctx: &mut StakeAccounts,
    amount: u64,
    zk_proof: Vec<u8>,
    new_confidential_balance: [u8; 64],
    now: i64,
) -> (r: Result<(), ErrorCode>)
    ensures
        zk_proof@.len() == 0 ==> r == Err::<(), ErrorCode>(ErrorCode::InvalidZKProof) && *final(ctx)
            == *old(ctx),
        match stake_error(*old(ctx), amount, zk_proof@) {
            Some(e) => r == Err::<(), ErrorCode>(e) && *final(ctx) == *old(ctx),
            None => r is Ok && *final(ctx) == staked(*old(ctx), amount, new_confidential_balance, now),
        },
{
    match zk_utils::verify_confidential_balance(
        zk_proof.clone(),
        amount,
        ctx.user_stake.confidential_balance,
        new_confidential_balance,
    ) {
        Ok(()) => {},
        Err(e) => return Err(e),
    }
    // The compressed proof only saves storage space; this core keeps none.
    let _compressed_proof = compress_proof(zk_proof);
    let total = match ctx.pool.total_staked.checked_add(amount) {
        Some(t) => t,
        None => return Err(ErrorCode::MathOverflow),
    };
    match confidential_transfer(&ctx.user_token_account, &ctx.pool_token_account, &ctx.user, amount) {
        Ok(()) => {},
        Err(e) => return Err(e),
    }
    ctx.user_stake.confidential_balance = new_confidential_balance;
    ctx.user_stake.stake_timestamp = now;
    ctx.user_stake.asset_mint = ctx.token_mint;
    ctx.pool.total_staked = total;
    Ok(())
}

/// The error of `withdraw` and `zk_exit`, if any: a stake younger than
/// `MIN_STAKE_DURATION` at `now`, then an empty proof, then an amount above
/// the pool's total.
pub open spec fn withdraw_error(ctx: Withdraw, amount: u64, proof: Seq<u8>, now: i64) -> Option<ErrorCode> {
    if now - ctx.user_stake.stake_timestamp < MIN_STAKE_DURATION {
        Some(ErrorCode::StakeDurationNotMet)
    } else if proof.len() == 0 {
        Some(ErrorCode::InvalidZKProof)
    } else if !pool_event_fits(ctx.pool, PoolEvent::Withdrawn(amount)) {
        Some(ErrorCode::MathOverflow)
    } else {
        None
    }
}

/// The records after a successful `withdraw` or `zk_exit`.
pub open spec fn withdrawn(ctx: Withdraw, amount: u64, new_balance: [u8; 64]) -> Withdraw {
    Withdraw {
        pool: pool_after(ctx.pool, PoolEvent::Withdrawn(amount)),
        user_stake: UserStake { confidential_balance: new_balance, ..ctx.user_stake },
        ..ctx
    }
}

/// Time left at `now` before a stake made at `stake_timestamp` may be
/// withdrawn; zero once it may.
pub fn remaining_stake_duration(stake_timestamp: i64, now: i64) -> (r: u128)
    ensures
        r == (if now - stake_timestamp >= MIN_STAKE_DURATION {
            0
        } else {
            stake_timestamp + MIN_STAKE_DURATION - now
        }),
{
    let held = (now as i128) - (stake_timestamp as i128);
    if held >= MIN_STAKE_DURATION as i128 {
        0
    } else {
        ((MIN_STAKE_DURATION as i128) - held) as u128
    }
}

/// Moves `amount` out of the pool back to the user, once the stake has been
/// held for `MIN_STAKE_DURATION` and the proof attests
/// `old commitment - amount = new_balance`.
fn exit_position(
    ctx: &mut Withdraw,
    amount: u64,
    zk_proof: Vec<u8>,
    new_balance: [u8; 64],
    now: i64,
) -> (r: Result<(), ErrorCode>)
    ensures
        now - old(ctx).user_stake.stake_timestamp < MIN_STAKE_DURATION ==> r == Err::<(), ErrorCode>(
            ErrorCode::StakeDurationNotMet,
        ) && *final(ctx) == *old(ctx),
        match withdraw_error(*old(ctx), amount, zk_proof@, now) {
            Some(e) => r == Err::<(), ErrorCode>(e) && *final(ctx) == *old(ctx),
            None => r is Ok && *final(ctx) == withdrawn(*old(ctx), amount, new_balance),
        },
{
    if (now as i128) - (ctx.user_stake.stake_timestamp as i128) < (MIN_STAKE_DURATION as i128) {
        return Err(ErrorCode::StakeDurationNotMet);
    }
    match zk_utils::verify_confidential_balance(
        zk_proof,
        amount,
        ctx.user_stake.confidential_balance,
        new_balance,
    ) {
        Ok(()) => {},
        Err(e) => return Err(e),
    }
    let total = match ctx.pool.total_staked.checked_sub(amount) {
        Some(t) => t,
        None => return Err(ErrorCode::MathOverflow),
    };
    let signer = DerivedSigner::for_pool(&ctx.pool_address, ctx.pool.bump);
    match confidential_transfer_with_signer(
        &ctx.pool_token_account,
        &ctx.user_token_account,
        &ctx.pool_address,
        amount,
        &signer,
    ) {
        Ok(()) => {},
        Err(e) => return Err(e),
    }
    ctx.user_stake.confidential_balance = new_balance;
    ctx.pool.total_staked = total;
    Ok(())
}

/// Withdraws staked tokens; see `withdraw_error` for when it is refused.
pub fn withdraw(
    ctx: &mut Withdraw,
    amount: u64,
    zk_proof: Vec<u8>,
    new_confidential_balance: [u8; 64],
    now: i64,
) -> (r: Result<(), ErrorCode>)
    ensures
        now - old(ctx).user_stake.stake_timestamp < MIN_STAKE_DURATION ==> r == Err::<(), ErrorCode>(
            ErrorCode::StakeDurationNotMet,
        ) && *final(ctx) == *old(ctx),
        match withdraw_error(*old(ctx), amount, zk_proof@, now) {
            Some(e) => r == Err::<(), ErrorCode>(e) && *final(ctx) == *old(ctx),
            None => r is Ok && *final(ctx) == withdrawn(*old(ctx), amount, new_confidential_balance),
        },
{
    exit_position(ctx, amount, zk_proof, new_confidential_balance, now)
}

/// Exit for liquidity providers whose proof keeps the withdrawn share
/// hidden; the records change exactly as under `withdraw`.
pub fn zk_exit(
    ctx: &mut Withdraw,
    amount: u64,
    zk_proof: Vec<u8>,
    new_confidential_balance: [u8; 64],
    now: i64,
) -> (r: Result<(), ErrorCode>)
    ensures
        now - old(ctx).user_stake.stake_timestamp < MIN_STAKE_DURATION ==> r == Err::<(), ErrorCode>(
            ErrorCode::StakeDurationNotMet,
        ) && *final(ctx) == *old(ctx),
        match withdraw_error(*old(ctx), amount, zk_proof@, now) {
            Some(e) => r == Err::<(), ErrorCode>(e) && *final(ctx) == *old(ctx),
            None => r is Ok && *final(ctx) == withdrawn(*old(ctx), amount, new_confidential_balance),
        },
{
    exit_position(ctx, amount, zk_proof, new_confidential_balance, now)
}

/// Whether `slot` holds a freshly committed, unrevealed order.
pub open spec fn is_fresh_order(
    slot: Option<TradeOrder>,
    commitment: [u8; 32],
    encrypted_order: [u8; 64],
    now: i64,
) -> bool {
    &&& slot is Some
    &&& slot->0.commitment == commitment
    &&& slot->0.encrypted_order == encrypted_order
    &&& slot->0.trade_timestamp == now
    &&& slot->0.revealed_order@.len() == 0
}

/// Commits a swap order: the trader stores a commitment to the order and
/// the order encrypted, at time `now`. An order cannot be committed twice.
pub fn commit_swap(
    ctx: &mut CommitSwap,
    commitment: [u8; 32],
    encrypted_order: [u8; 64],
    now: i64,
) -> (r: Result<(), ErrorCode>)
    ensures
        old(ctx).trade_order is Some ==> r == Err::<(), ErrorCode>(ErrorCode::OrderAlreadyCommitted)
            && *final(ctx) == *old(ctx),
        old(ctx).trade_order is None ==> r is Ok
            && final(ctx).pool == old(ctx).pool
            && final(ctx).trader == old(ctx).trader
            && is_fresh_order(final(ctx).trade_order, commitment, encrypted_order, now),
{
    if ctx.trade_order.is_some() {
        return Err(ErrorCode::OrderAlreadyCommitted);
    }
    ctx.trade_order = Some(TradeOrder {
        commitment,
        encrypted_order,
        trade_timestamp: now,
        revealed_order: Vec::new(),
    });
    Ok(())
}

/// The error of `reveal_swap`, if any: no committed order, then an empty
/// proof.
pub open spec fn reveal_error(slot: Option<TradeOrder>, proof: Seq<u8>) -> Option<ErrorCode> {
    if slot is None {
        Some(ErrorCode::OrderNotCommitted)
    } else if proof.len() == 0 {
        Some(ErrorCode::InvalidZKProof)
    } else {
        None
    }
}

/// The committed order in `slot` with `details` revealed.
pub open spec fn revealed(slot: Option<TradeOrder>, details: Vec<u8>) -> Option<TradeOrder> {
    Some(TradeOrder { revealed_order: details, ..slot->0 })
}

/// Reveals a committed order under a transfer proof that the order respects
/// the pool's constraints. The commitment itself is not recomputed here: the
/// secret nonce never reaches this instruction. A second reveal replaces the
/// first.
pub fn reveal_swap(ctx: &mut RevealSwap, zk_proof: Vec<u8>, order_details: Vec<u8>) -> (r: Result<(), ErrorCode>)
    ensures
        match reveal_error(old(ctx).trade_order, zk_proof@) {
            Some(e) => r == Err::<(), ErrorCode>(e) && *final(ctx) == *old(ctx),
            None => r is Ok && *final(ctx) == (RevealSwap {
                trade_order: revealed(old(ctx).trade_order, order_details),
                ..*old(ctx)
            }),
        },
{
    if ctx.trade_order.is_none() {
        return Err(ErrorCode::OrderNotCommitted);
    }
    match zk_utils::verify_transfer_proof(zk_proof) {
        Ok(()) => {},
        Err(e) => return Err(e),
    }
    match &mut ctx.trade_order {
        Some(order) => {
            order.revealed_order = order_details;
        },
        None => {},
    }
    Ok(())
}

/// Distributes `reward_amount` to the pool's custody account by a
/// confidential mint, under a reward proof. No record of this core changes.
pub fn distribute_rewards(ctx: &DistributeRewards, zk_reward_proof: Vec<u8>, reward_amount: u64) -> (r: Result<(), ErrorCode>)
    ensures
        r is Ok <==> zk_reward_proof@.len() > 0,
        r matches Err(e) ==> e == ErrorCode::InvalidZKProof,
{
    match zk_utils::verify_transfer_proof(zk_reward_proof) {
        Ok(()) => {},
        Err(e) => return Err(e),
    }
    confidential_mint(&ctx.pool_token_account, reward_amount)
}

/// The error of `update_reward_params`, if any: a signer other than the
/// governance authority, then an empty proof.
pub open spec fn update_reward_params_error(ctx: UpdateRewardParams, proof: Seq<u8>) -> Option<ErrorCode> {
    if ctx.governance.authority@ != ctx.authority@ {
        Some(ErrorCode::Unauthorized)
    } else if proof.len() == 0 {
        Some(ErrorCode::InvalidZKProof)
    } else {
        None
    }
}

/// Sets the reward rate, by the governance authority under an approval
/// proof.
pub fn update_reward_params(ctx: &mut UpdateRewardParams, new_reward_rate: u64, zk_governance_proof: Vec<u8>) -> (r: Result<(), ErrorCode>)
    ensures
        match update_reward_params_error(*old(ctx), zk_governance_proof@) {
            Some(e) => r == Err::<(), ErrorCode>(e) && *final(ctx) == *old(ctx),
            None => r is Ok && *final(ctx) == (UpdateRewardParams {
                governance: Governance { reward_rate: new_reward_rate, ..old(ctx).governance },
                ..*old(ctx)
            }),
        },
{
    if !keys_equal(&ctx.governance.authority, &ctx.authority) {
        return Err(ErrorCode::Unauthorized);
    }
    match zk_utils::verify_transfer_proof(zk_governance_proof) {
        Ok(()) => {},
        Err(e) => return Err(e),
    }
    ctx.governance.reward_rate = new_reward_rate;
    Ok(())
}

/// The error of `confidential_vote`, if any: an empty identity proof, then
/// an overflowing tally. (A non-empty identity proof is never rejected, so
/// `SybilAttackDetected` does not arise.)
pub open spec fn vote_error(governance: Governance, vote: u8, proof: Seq<u8>) -> Option<ErrorCode> {
    if proof.len() == 0 {
        Some(ErrorCode::InvalidZKProof)
    } else if governance.vote_count + vote > u64::MAX {
        Some(ErrorCode::MathOverflow)
    } else {
        None
    }
}

/// The governance record after a vote of weight `vote` is counted.
pub open spec fn voted(governance: Governance, vote: u8) -> Governance {
    Governance { vote_count: (governance.vote_count + vote) as u64, ..governance }
}

/// Casts a vote of weight `vote`; the identity proof guarantees one vote per
/// real identity, so the tally does not track voters itself.
pub fn confidential_vote(ctx: &mut ConfidentialVote, vote: u8, zk_vote_proof: Vec<u8>) -> (r: Result<(), ErrorCode>)
    ensures
        final(ctx).voter == old(ctx).voter,
        old(ctx).governance.vote_count <= final(ctx).governance.vote_count,
        match vote_error(old(ctx).governance, vote, zk_vote_proof@) {
            Some(e) => r == Err::<(), ErrorCode>(e) && *final(ctx) == *old(ctx),
            None => r is Ok && final(ctx).governance == voted(old(ctx).governance, vote),
        },
{
    match zk_utils::verify_identity_proof(zk_vote_proof) {
        Ok(()) => {},
        Err(e) => return Err(e),
    }
    let count = match ctx.governance.vote_count.checked_add(vote as u64) {
        Some(c) => c,
        None => return Err(ErrorCode::MathOverflow),
    };
    ctx.governance.vote_count = count;
    Ok(())
}

/// A multi-signature approval whose signers stay hidden behind the proof. Accepted exactly when the transfer proof is; no record changes.
pub fn zk_multisig_transaction(ctx: &AdditionalFeatures, multisig_data: Vec<u8>, zk_proof: Vec<u8>) -> (r: Result<(), ErrorCode>)
    ensures
        r is Ok <==> zk_proof@.len() > 0,
        r matches Err(e) ==> e == ErrorCode::InvalidZKProof,
{
    zk_utils::verify_transfer_proof(zk_proof)
}

/// Guards against replay or reversion of a transaction by a proof. Accepted exactly when the transfer proof is; no record changes.
pub fn zk_rollback_protection(ctx: &AdditionalFeatures, zk_proof: Vec<u8>) -> (r: Result<(), ErrorCode>)
    ensures
        r is Ok <==> zk_proof@.len() > 0,
        r matches Err(e) ==> e == ErrorCode::InvalidZKProof,
{
    zk_utils::verify_transfer_proof(zk_proof)
}

/// Rebalances liquidity under a proof that keeps the parameters hidden. Accepted exactly when the transfer proof is; no record changes.
pub fn zk_auto_rebalance(ctx: &AdditionalFeatures, zk_proof: Vec<u8>, liquidity_params: Vec<u8>) -> (r: Result<(), ErrorCode>)
    ensures
        r is Ok <==> zk_proof@.len() > 0,
        r matches Err(e) ==> e == ErrorCode::InvalidZKProof,
{
    zk_utils::verify_transfer_proof(zk_proof)
}

/// Unlocks time-locked liquidity under a proof that the delay has passed. Accepted exactly when the transfer proof is; no record changes.
pub fn zk_time_lock_unlock(ctx: &AdditionalFeatures, zk_proof: Vec<u8>) -> (r: Result<(), ErrorCode>)
    ensures
        r is Ok <==> zk_proof@.len() > 0,
        r matches Err(e) ==> e == ErrorCode::InvalidZKProof,
{
    zk_utils::verify_transfer_proof(zk_proof)
}

/// Places a limit order whose conditions stay hidden behind the proof. Accepted exactly when the transfer proof is; no record changes.
pub fn confidential_limit_order(ctx: &AdditionalFeatures, order_data: Vec<u8>, zk_proof: Vec<u8>) -> (r: Result<(), ErrorCode>)
    ensures
        r is Ok <==> zk_proof@.len() > 0,
        r matches Err(e) ==> e == ErrorCode::InvalidZKProof,
{
    zk_utils::verify_transfer_proof(zk_proof)
}

/// Approves a program upgrade by a governance proof. Accepted exactly when the transfer proof is; no record changes.
pub fn zk_upgrade(ctx: &AdditionalFeatures, upgrade_data: Vec<u8>, zk_proof: Vec<u8>) -> (r: Result<(), ErrorCode>)
    ensures
        r is Ok <==> zk_proof@.len() > 0,
        r matches Err(e) ==> e == ErrorCode::InvalidZKProof,
{
    zk_utils::verify_transfer_proof(zk_proof)
}

/// Confirms that the user holds the required funds without revealing them. Accepted exactly when the transfer proof is; no record changes.
pub fn zk_proof_of_funds(ctx: &AdditionalFeatures, zk_proof: Vec<u8>) -> (r: Result<(), ErrorCode>)
    ensures
        r is Ok <==> zk_proof@.len() > 0,
        r matches Err(e) ==> e == ErrorCode::InvalidZKProof,
{
    zk_utils::verify_transfer_proof(zk_proof)
}

/// A flash loan whose terms stay hidden until settlement. Accepted exactly when the transfer proof is; no record changes.
pub fn zk_private_flash_loan(ctx: &AdditionalFeatures, loan_amount: u64, zk_proof: Vec<u8>) -> (r: Result<(), ErrorCode>)
    ensures
        r is Ok <==> zk_proof@.len() > 0,
        r matches Err(e) ==> e == ErrorCode::InvalidZKProof,
{
    zk_utils::verify_transfer_proof(zk_proof)
}

/// Coordination message between liquidity providers, sent under an
/// identity proof. Accepted exactly when the proof is; no record changes.
pub fn zk_encrypted_messaging(ctx: &AdditionalFeatures, message: Vec<u8>, zk_proof: Vec<u8>) -> (r: Result<(), ErrorCode>)
    ensures
        r is Ok <==> zk_proof@.len() > 0,
        r matches Err(e) ==> e == ErrorCode::InvalidZKProof,
{
    zk_utils::verify_identity_proof(zk_proof)
}

/// Batch staking of several assets in one transaction. The batch is
/// refused as a whole when any of its proofs is empty; staking the items
/// themselves is not offered yet, so an accepted batch changes nothing.
pub fn batch_stake(
    ctx: &AdditionalFeatures,
    amounts: Vec<u64>,
    zk_proofs: Vec<Vec<u8>>,
    new_confidential_balances: Vec<[u8; 64]>,
) -> (r: Result<(), ErrorCode>)
    ensures
        r is Ok <==> forall|i: int| 0 <= i < zk_proofs@.len() ==> (#[trigger] zk_proofs@[i])@.len() > 0,
        r matches Err(e) ==> e == ErrorCode::InvalidZKProof,
{
    let mut i: usize = 0;
    while i < zk_proofs.len()
        invariant
            0 <= i <= zk_proofs@.len(),
            forall|j: int| 0 <= j < i ==> (#[trigger] zk_proofs@[j])@.len() > 0,
        decreases zk_proofs@.len() - i,
    {
        match zk_utils::verify_transfer_proof(zk_proofs[i].clone()) {
            Ok(()) => {},
            Err(e) => return Err(e),
        }
        i = i + 1;
    }
    Ok(())
}

/// Batching of confidential transactions in a rollup. Not offered yet: it accepts and changes nothing.
pub fn integrate_zk_rollup(ctx: &AdditionalFeatures) -> (r: Result<(), ErrorCode>)
    ensures
        r is Ok,
{
    Ok(())
}

/// Private order matching. Not offered yet: it accepts and changes nothing.
pub fn private_order_matching(ctx: &AdditionalFeatures) -> (r: Result<(), ErrorCode>)
    ensures
        r is Ok,
{
    Ok(())
}

/// Private lending and borrowing. Not offered yet: it accepts and changes nothing.
pub fn private_lending(ctx: &AdditionalFeatures) -> (r: Result<(), ErrorCode>)
    ensures
        r is Ok,
{
    Ok(())
}

/// Challenges of suspicious liquidity changes. Not offered yet: it accepts and changes nothing.
pub fn zk_proof_staking_challenges(ctx: &AdditionalFeatures) -> (r: Result<(), ErrorCode>)
    ensures
        r is Ok,
{
    Ok(())
}

/// Aggregate liquidity metrics. Not offered yet: it accepts and changes nothing.
pub fn onchain_liquidity_privacy_metrics(ctx: &AdditionalFeatures) -> (r: Result<(), ErrorCode>)
    ensures
        r is Ok,
{
    Ok(())
}

} // verus!
