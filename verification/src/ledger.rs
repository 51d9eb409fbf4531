use vstd::prelude::*;

use crate::accounts::{BuyAndStake, Initialize};
use crate::config::{admin_accepted, admin_proposed, configured_state, initial_state};
use crate::key::Key;
use crate::operational::operational_claimed_state;
use crate::swap::swapped_state;
use crate::staking::{
    buy_and_stake_aborts, buy_and_stake_error, bought_record, bought_state, claim_refund_error,
    claim_rewards_aborts, claim_rewards_error, claimable_now, lemma_linear_release, refunded_record,
    refunded_state, rewards_claimed_record, rewards_claimed_state, vested, elapsed_since_purchase,
    lock_seconds,
};
use crate::state::{GlobalState, StakingRecord};

verus! {

/// The reward that stake `rec` is still owed: what it was promised less what
/// it has been paid, while it is open; nothing once it is refunded or closed.
pub open spec fn owed(rec: StakingRecord) -> int {
    if rec.is_staked && !rec.is_refunded {
        rec.total_reward_tokens - rec.released_tokens
    } else {
        0
    }
}

/// The rewards still owed to all the stakes in `records`.
pub open spec fn outstanding(records: Seq<StakingRecord>) -> int
    decreases records.len(),
{
    if records.len() == 0 {
        0
    } else {
        outstanding(records.drop_last()) + owed(records.last())
    }
}

/// Every stake in `records` has been paid no more than it was promised.
pub open spec fn all_well_formed(records: Seq<StakingRecord>) -> bool {
    forall|i: int| 0 <= i < records.len() ==> (#[trigger] records[i]).well_formed()
}

/// The reward vault's reservation is exactly what the stakes in `records`
/// are still owed.
pub open spec fn reservation_matches(s: GlobalState, records: Seq<StakingRecord>) -> bool {
    &&& all_well_formed(records)
    &&& s.reward_vault_reserved == outstanding(records)
}

proof fn lemma_outstanding_push(records: Seq<StakingRecord>, rec: StakingRecord)
    ensures
        outstanding(records.push(rec)) == outstanding(records) + owed(rec),
{
    assert(records.push(rec).drop_last() =~= records);
}

proof fn lemma_outstanding_update(records: Seq<StakingRecord>, i: int, rec: StakingRecord)
    requires
        0 <= i < records.len(),
    ensures
        outstanding(records.update(i, rec)) == outstanding(records) - owed(records[i]) + owed(rec),
    decreases records.len(),
{
    let updated = records.update(i, rec);
    if i == records.len() - 1 {
        assert(updated.drop_last() =~= records.drop_last());
    } else {
        lemma_outstanding_update(records.drop_last(), i, rec);
        assert(updated.drop_last() =~= records.drop_last().update(i, rec));
    }
}

proof fn lemma_owed_within_outstanding(records: Seq<StakingRecord>, i: int)
    requires
        0 <= i < records.len(),
        all_well_formed(records),
    ensures
        0 <= owed(records[i]) <= outstanding(records),
    decreases records.len(),
{
    let rest = records.drop_last();
    assert(all_well_formed(rest)) by {
        assert forall|j: int| 0 <= j < rest.len() implies (#[trigger] rest[j]).well_formed() by {
            assert(rest[j] == records[j]);
        }
    }
    assert(records.last().well_formed()) by {
        assert(records[records.len() - 1].well_formed());
    }
    lemma_outstanding_nonnegative(rest);
    if i < records.len() - 1 {
        assert(records[i] == rest[i]);
        lemma_owed_within_outstanding(rest, i);
    }
}

proof fn lemma_outstanding_nonnegative(records: Seq<StakingRecord>)
    requires
        all_well_formed(records),
    ensures
        outstanding(records) >= 0,
    decreases records.len(),
{
    if records.len() > 0 {
        let rest = records.drop_last();
        assert(all_well_formed(rest)) by {
            assert forall|j: int| 0 <= j < rest.len() implies (#[trigger] rest[j]).well_formed() by {
                assert(rest[j] == records[j]);
            }
        }
        assert(records[records.len() - 1].well_formed());
        lemma_outstanding_nonnegative(rest);
    }
}

/// An accepted stake reserves exactly the reward that its new record is owed.
pub proof fn lemma_stake_keeps_reservation(
    ctx: BuyAndStake,
    records: Seq<StakingRecord>,
    usdt_amount: u64,
    now: i64,
)
    requires
        reservation_matches(ctx.state, records),
        buy_and_stake_error(ctx.state, usdt_amount) is None,
        !buy_and_stake_aborts(ctx.state, usdt_amount),
    ensures
        reservation_matches(
            bought_state(ctx.state, usdt_amount),
            records.push(bought_record(ctx, usdt_amount, now)),
        ),
{
    let rec = bought_record(ctx, usdt_amount, now);
    lemma_outstanding_push(records, rec);
    let grown = records.push(rec);
    assert forall|j: int| 0 <= j < grown.len() implies (#[trigger] grown[j]).well_formed() by {
        if j < records.len() {
            assert(grown[j] == records[j]);
        }
    }
}

/// A claim never finds the reservation short of what it pays, and pays out
/// exactly what leaves the reservation.
pub proof fn lemma_claim_keeps_reservation(
    s: GlobalState,
    records: Seq<StakingRecord>,
    i: int,
    record_id: u64,
    now: i64,
)
    requires
        reservation_matches(s, records),
        0 <= i < records.len(),
        claim_rewards_error(s, records[i], records[i].user, record_id, now) is None,
        !(elapsed_since_purchase(records[i], now) < i64::MIN),
        !(elapsed_since_purchase(records[i], now) > i64::MAX),
        s.reward_paid + claimable_now(records[i], now) <= u64::MAX,
    ensures
        !claim_rewards_aborts(s, records[i], records[i].user, record_id, now),
        reservation_matches(
            rewards_claimed_state(s, records[i], now),
            records.update(i, rewards_claimed_record(records[i], now)),
        ),
{
    let rec = records[i];
    let new_rec = rewards_claimed_record(rec, now);
    assert(rec.well_formed());
    lemma_owed_within_outstanding(records, i);
    let e = elapsed_since_purchase(rec, now);
    let lock = lock_seconds(rec);
    if 0 < e < lock {
        lemma_linear_release(rec.total_reward_tokens as int, e, e, lock);
    }
    assert(vested(rec, now) <= rec.total_reward_tokens);
    lemma_outstanding_update(records, i, new_rec);
    let updated = records.update(i, new_rec);
    assert forall|j: int| 0 <= j < updated.len() implies (#[trigger] updated[j]).well_formed() by {
        if j != i {
            assert(updated[j] == records[j]);
        }
    }
}

/// A refund never finds the reservation short of the stake's reward, and
/// frees exactly that reward.
pub proof fn lemma_refund_keeps_reservation(
    s: GlobalState,
    records: Seq<StakingRecord>,
    i: int,
    record_id: u64,
    now: i64,
)
    requires
        reservation_matches(s, records),
        0 <= i < records.len(),
        claim_refund_error(s, records[i], records[i].user, record_id, now) is None,
    ensures
        records[i].total_reward_tokens <= s.reward_vault_reserved,
        reservation_matches(
            refunded_state(s, records[i]),
            records.update(i, refunded_record(records[i])),
        ),
{
    let rec = records[i];
    assert(rec.well_formed());
    lemma_owed_within_outstanding(records, i);
    lemma_outstanding_update(records, i, refunded_record(rec));
    let updated = records.update(i, refunded_record(rec));
    assert forall|j: int| 0 <= j < updated.len() implies (#[trigger] updated[j]).well_formed() by {
        if j != i {
            assert(updated[j] == records[j]);
        }
    }
}

/// At launch no stake exists and nothing is reserved.
pub proof fn lemma_launch_reserves_nothing(
    ctx: Initialize,
    sell_price: u64,
    swap_fee_percentage: u64,
    vault_authority_bump: u8,
    now: i64,
)
    ensures
        reservation_matches(
            initial_state(ctx, sell_price, swap_fee_percentage, vault_authority_bump, now),
            Seq::<StakingRecord>::empty(),
        ),
{
}

/// The instructions that touch no stake leave the reservation as it is:
/// configuration, the admin handover, the pause, swaps and operational
/// releases.
pub proof fn lemma_other_instructions_keep_reservation(
    s: GlobalState,
    records: Seq<StakingRecord>,
    flags: (bool, bool, bool, bool),
    price: u64,
    fee: u64,
    new_admin: Key,
    paused: bool,
    amount: u64,
    vault_type: u8,
    now: i64,
)
    requires
        reservation_matches(s, records),
    ensures
        reservation_matches(configured_state(s, flags.0, flags.1, flags.2, flags.3, price, fee), records),
        reservation_matches(admin_proposed(s, new_admin), records),
        reservation_matches(admin_accepted(s), records),
        reservation_matches(GlobalState { emergency_paused: paused, ..s }, records),
        reservation_matches(swapped_state(s, amount), records),
        reservation_matches(operational_claimed_state(s, vault_type, now), records),
{
}

} // verus!
