//! Laws that relate several instructions or runs of them.
use vstd::prelude::*;

use crate::errors::ErrorCode;
use crate::state::{Governance, LiquidityPool, TradeOrder};
use crate::accounts::{StakeAccounts, UpdateRewardParams, Withdraw};
use crate::zk_liquidity_pool::{
    is_fresh_order, pool_after, pool_event_fits, reveal_error, revealed, stake_error,
    update_reward_params_error, vote_error, voted, withdraw_error, PoolEvent,
    MIN_STAKE_DURATION,
};

verus! {

/// Amounts staked minus amounts withdrawn over `events`.
pub open spec fn net_accepted(events: Seq<PoolEvent>) -> int
    decreases events.len(),
{
    if events.len() == 0 {
        0
    } else {
        net_accepted(events.drop_last()) + match events.last() {
            PoolEvent::Staked(amount) => amount as int,
            PoolEvent::Withdrawn(amount) => -(amount as int),
        }
    }
}

/// Over any run of accepted stakes and withdrawals on a pool (`pools[i + 1]`
/// is `pools[i]` after `events[i]`, as `stake`, `withdraw` and `zk_exit`
/// leave it on success), the pool's total is its starting total plus the
/// amounts staked minus the amounts withdrawn, and so never negative.
pub proof fn lemma_total_staked_is_net_accepted(pools: Seq<LiquidityPool>, events: Seq<PoolEvent>)
    requires
        pools.len() == events.len() + 1,
        forall|i: int|
            0 <= i < events.len() ==> pool_event_fits(#[trigger] pools[i], events[i]) && pools[i + 1]
                == pool_after(pools[i], events[i]),
    ensures
        pools.last().total_staked == pools[0].total_staked + net_accepted(events),
        pools[0].total_staked + net_accepted(events) >= 0,
    decreases events.len(),
{
    if events.len() > 0 {
        let n = events.len() - 1;
        assert forall|i: int| 0 <= i < events.drop_last().len() implies pool_event_fits(
            #[trigger] pools.drop_last()[i],
            events.drop_last()[i],
        ) && pools.drop_last()[i + 1] == pool_after(pools.drop_last()[i], events.drop_last()[i]) by {
            assert(pools.drop_last()[i] == pools[i]);
            assert(pools.drop_last()[i + 1] == pools[i + 1]);
        }
        lemma_total_staked_is_net_accepted(pools.drop_last(), events.drop_last());
        assert(pool_event_fits(pools[n], events[n]));
        assert(pools[n + 1] == pool_after(pools[n], events[n]));
    }
}

/// Commit then reveal: once `commit_swap` has filled a trader's order slot,
/// `reveal_swap` with a non-empty transfer proof is accepted and stores the
/// revealed details beside the untouched commitment; on a slot with no
/// committed order, `reveal_swap` is refused.
pub proof fn lemma_commit_then_reveal(
    slot: Option<TradeOrder>,
    commitment: [u8; 32],
    encrypted_order: [u8; 64],
    now: i64,
    proof: Seq<u8>,
    order_details: Vec<u8>,
)
    requires
        is_fresh_order(slot, commitment, encrypted_order, now),
        proof.len() > 0,
    ensures
        reveal_error(slot, proof) is None,
        revealed(slot, order_details) is Some,
        revealed(slot, order_details)->0.revealed_order == order_details,
        revealed(slot, order_details)->0.commitment == commitment,
        revealed(slot, order_details)->0.encrypted_order == encrypted_order,
        revealed(slot, order_details)->0.trade_timestamp == now,
        reveal_error(None, proof) == Some(ErrorCode::OrderNotCommitted),
{
}

/// Over any run of counted votes (`records[i + 1]` is `records[i]` after a
/// vote of weight `votes[i]` that fits in `u64`, as `confidential_vote`
/// leaves it on success), the vote count never decreases.
pub proof fn lemma_vote_count_never_decreases(records: Seq<Governance>, votes: Seq<u8>)
    requires
        records.len() == votes.len() + 1,
        forall|i: int|
            0 <= i < votes.len() ==> (#[trigger] records[i]).vote_count + votes[i] <= u64::MAX
                && records[i + 1] == voted(records[i], votes[i]),
    ensures
        forall|i: int, j: int|
            0 <= i <= j < records.len() ==> (#[trigger] records[i]).vote_count
                <= (#[trigger] records[j]).vote_count,
    decreases votes.len(),
{
    if votes.len() > 0 {
        let n = votes.len() - 1;
        let prefix = records.drop_last();
        assert forall|i: int| 0 <= i < votes.drop_last().len() implies (
        #[trigger] prefix[i]).vote_count + votes.drop_last()[i] <= u64::MAX && prefix[i + 1]
            == voted(prefix[i], votes.drop_last()[i]) by {
            assert(prefix[i] == records[i]);
            assert(prefix[i + 1] == records[i + 1]);
        }
        lemma_vote_count_never_decreases(prefix, votes.drop_last());
        assert(records[n].vote_count + votes[n] <= u64::MAX);
        assert(records[n + 1] == voted(records[n], votes[n]));
        assert forall|i: int, j: int|
            0 <= i <= j < records.len() implies (#[trigger] records[i]).vote_count
                <= (#[trigger] records[j]).vote_count by {
            if j < records.len() - 1 {
                assert(prefix[i] == records[i]);
                assert(prefix[j] == records[j]);
            } else if i < j {
                assert(prefix[i] == records[i]);
                assert(prefix[n] == records[n]);
            }
        }
    }
}

/// An empty proof is refused, whatever the other arguments: as invalid by
/// `stake`, by `reveal_swap` on a committed order, by `withdraw` and
/// `zk_exit` once the holding time has passed, and by
/// `update_reward_params` when the authority signs, and by
/// `confidential_vote`.
pub proof fn lemma_empty_proof_is_refused(
    stake_ctx: StakeAccounts,
    withdraw_ctx: Withdraw,
    update_ctx: UpdateRewardParams,
    governance: Governance,
    order: TradeOrder,
    amount: u64,
    vote: u8,
    now: i64,
)
    ensures
        stake_error(stake_ctx, amount, Seq::empty()) == Some(ErrorCode::InvalidZKProof),
        reveal_error(Some(order), Seq::empty()) == Some(ErrorCode::InvalidZKProof),
        now - withdraw_ctx.user_stake.stake_timestamp >= MIN_STAKE_DURATION ==> withdraw_error(
            withdraw_ctx,
            amount,
            Seq::empty(),
            now,
        ) == Some(ErrorCode::InvalidZKProof),
        update_ctx.governance.authority@ == update_ctx.authority@ ==> update_reward_params_error(
            update_ctx,
            Seq::empty(),
        ) == Some(ErrorCode::InvalidZKProof),
        vote_error(governance, vote, Seq::empty()) == Some(ErrorCode::InvalidZKProof),
{
}

} // verus!
