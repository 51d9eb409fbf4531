use vstd::prelude::*;

use crate::accounts::BuyAndStake;
use crate::config::{
    accept_admin_error, admin_accepted, admin_proposed, set_emergency_pause_error, transfer_admin_error,
    update_config_error,
};
use crate::error::AGXError;
use crate::key::{zero_key, Key};
use crate::operational::{
    claim_operational_vault_aborts, claim_operational_vault_error, operational_claimed_state, vault_claimed,
    vault_start_time, vault_tranches, vault_lock_months, vault_monthly_release, vault_release_due,
    vault_elapsed,
};
use crate::pricing::active_price;
use crate::staking::{
    buy_agx, buy_and_stake_aborts, buy_and_stake_error, claim_refund_aborts, buy_reward, bought_record, bought_state,
    claim_refund_error, claim_rewards_aborts, claimable_now, claim_rewards_error, lemma_linear_release,
    lock_seconds, refunded_record, refunded_state, rewards_claimed_record, rewards_claimed_state,
    tier_months, tier_multiplier, vested, elapsed_since_purchase,
};
use crate::state::{GlobalState, AGX_UNIT, OPERATIONAL_CAP, StakingRecord, MIN_STAKE_USDT, PRESALE_CAP, REFUND_WINDOW, SECONDS_PER_MONTH};
use crate::swap::{
    swap_agx, swap_t20_aborts, swapped_state,
    swap_agx_to_usdt_aborts, swap_agx_to_usdt_error, swap_back_fee, swap_back_usdt, swap_t20_error,
};
use vstd::arithmetic::div_mod::{lemma_div_by_multiple, lemma_div_is_ordered, lemma_fundamental_div_mod, lemma_mod_bound};

verus! {

/// The AGX price never falls as sales grow: it is at least 0.062 USDT, and
/// more AGX sold never means a lower price.
pub proof fn lemma_price_never_falls(sold1: int, sold2: int)
    requires
        0 <= sold1 <= sold2,
    ensures
        62_000 <= active_price(sold1) <= active_price(sold2),
{
    if sold1 >= PRESALE_CAP {
        lemma_div_is_ordered(sold1 - PRESALE_CAP, sold2 - PRESALE_CAP, 1_000_000_000_000);
    }
    if sold2 >= PRESALE_CAP {
        lemma_div_is_ordered(0, sold2 - PRESALE_CAP, 1_000_000_000_000);
    }
}

/// A larger stake never gets a shorter lock or a smaller reward multiplier.
pub proof fn lemma_larger_stakes_get_richer_tiers(usdt1: u64, usdt2: u64)
    requires
        MIN_STAKE_USDT <= usdt1 <= usdt2,
    ensures
        tier_months(usdt1) <= tier_months(usdt2),
        tier_multiplier(usdt1) <= tier_multiplier(usdt2),
        2 <= tier_multiplier(usdt1) <= 4,
{
}

/// Every AGX that an accepted stake buys is counted in the sales, in the
/// first phase or beyond it, and its whole reward is reserved in the reward
/// vault.
pub proof fn lemma_purchase_fully_accounted(s: GlobalState, usdt_amount: u64)
    requires
        buy_and_stake_error(s, usdt_amount) is None,
        !buy_and_stake_aborts(s, usdt_amount),
    ensures
        bought_state(s, usdt_amount).sold() == s.sold() + buy_agx(s, usdt_amount),
        bought_state(s, usdt_amount).reward_vault_reserved == s.reward_vault_reserved + buy_reward(s, usdt_amount),
        bought_state(s, usdt_amount).sold() <= crate::state::HARD_CAP,
{
}

/// While the emergency pause is on, every instruction but the pause switch
/// itself is refused with `EmergencyPaused` (to the signers that the
/// instruction admits: the admin, or the stake's owner).
pub proof fn lemma_pause_blocks_everything(
    s: GlobalState,
    rec: StakingRecord,
    record_id: u64,
    amount: u64,
    vault_type: u8,
    signer: Key,
    new_admin: Key,
    now: i64,
)
    requires
        s.emergency_paused,
    ensures
        buy_and_stake_error(s, amount) == Some(AGXError::EmergencyPaused),
        claim_rewards_error(s, rec, rec.user, record_id, now) == Some(AGXError::EmergencyPaused),
        claim_refund_error(s, rec, rec.user, record_id, now) == Some(AGXError::EmergencyPaused),
        swap_t20_error(s) == Some(AGXError::EmergencyPaused),
        swap_agx_to_usdt_error(s, amount) == Some(AGXError::EmergencyPaused),
        claim_operational_vault_error(s, s.admin, vault_type, now) == Some(AGXError::EmergencyPaused),
        update_config_error(s, s.admin) == Some(AGXError::EmergencyPaused),
        transfer_admin_error(s, s.admin, new_admin) == Some(AGXError::EmergencyPaused),
        accept_admin_error(s, signer) == Some(AGXError::EmergencyPaused),
        set_emergency_pause_error(s, s.admin) is None,
{
}

/// Only the recorded admin may update the configuration, propose a new
/// admin, switch the pause or claim an operational vault: any other signer
/// is refused, before anything else is looked at.
pub proof fn lemma_only_admin_runs_admin_instructions(
    s: GlobalState,
    signer: Key,
    new_admin: Key,
    vault_type: u8,
    now: i64,
)
    requires
        signer != s.admin,
    ensures
        update_config_error(s, signer) == Some(AGXError::ConstraintHasOne),
        transfer_admin_error(s, signer, new_admin) == Some(AGXError::ConstraintHasOne),
        set_emergency_pause_error(s, signer) == Some(AGXError::ConstraintHasOne),
        claim_operational_vault_error(s, signer, vault_type, now) == Some(AGXError::ConstraintHasOne),
        !claim_operational_vault_aborts(s, signer, vault_type, now),
{
}

/// Only a stake's owner may claim its rewards or its refund: any other
/// signer is refused, before anything else is looked at.
pub proof fn lemma_only_owner_claims(s: GlobalState, rec: StakingRecord, signer: Key, record_id: u64, now: i64)
    requires
        signer != rec.user,
    ensures
        claim_rewards_error(s, rec, signer, record_id, now) == Some(AGXError::ConstraintHasOne),
        claim_refund_error(s, rec, signer, record_id, now) == Some(AGXError::ConstraintHasOne),
        !claim_rewards_aborts(s, rec, signer, record_id, now),
        !claim_refund_aborts(s, rec, signer, record_id, now),
{
}

/// Handing over the admin role takes two steps: once `new_admin` has been
/// proposed, it alone can accept, and its acceptance makes it the admin and
/// clears the proposal.
pub proof fn lemma_admin_handover(s: GlobalState, new_admin: Key, other: Key)
    requires
        transfer_admin_error(s, s.admin, new_admin) is None,
        other != new_admin,
    ensures
        accept_admin_error(admin_proposed(s, new_admin), new_admin) is None,
        accept_admin_error(admin_proposed(s, new_admin), other) == Some(AGXError::Unauthorized),
        admin_accepted(admin_proposed(s, new_admin)).admin == new_admin,
        admin_accepted(admin_proposed(s, new_admin)).pending_admin == zero_key(),
{
}

/// A stake is refunded in full if, and only if, the refund is asked within
/// 7 days of the purchase (and the program is not paused in between);
/// the refund gives back exactly the USDT paid and frees exactly the
/// reward that the purchase reserved.
pub proof fn lemma_refund_within_a_week(ctx: BuyAndStake, usdt_amount: u64, now: i64, later: i64)
    requires
        buy_and_stake_error(ctx.state, usdt_amount) is None,
        !buy_and_stake_aborts(ctx.state, usdt_amount),
    ensures
        ({
            let s1 = bought_state(ctx.state, usdt_amount);
            let rec = bought_record(ctx, usdt_amount, now);
            &&& (claim_refund_error(s1, rec, rec.user, rec.record_id, later) is None
                <==> later - now <= REFUND_WINDOW)
            &&& rec.staked_amount_usdt == usdt_amount
            &&& refunded_state(s1, rec).reward_vault_reserved == ctx.state.reward_vault_reserved
            &&& refunded_record(rec).is_refunded && !refunded_record(rec).is_staked
        }),
{
}

/// The released part of a stake's reward grows with time, never exceeds the
/// reward, and is the whole reward once the lock is over.
pub proof fn lemma_release_schedule(rec: StakingRecord, t1: i64, t2: i64)
    requires
        t1 <= t2,
    ensures
        0 <= vested(rec, t1) <= vested(rec, t2) <= rec.total_reward_tokens,
        elapsed_since_purchase(rec, t2) >= lock_seconds(rec) && elapsed_since_purchase(rec, t2) > 0
            ==> vested(rec, t2) == rec.total_reward_tokens,
{
    let e1 = elapsed_since_purchase(rec, t1);
    let e2 = elapsed_since_purchase(rec, t2);
    let lock = lock_seconds(rec);
    let total = rec.total_reward_tokens as int;
    if e1 > 0 && e1 < lock {
        if e2 < lock {
            lemma_linear_release(total, e1, e2, lock);
        } else {
            lemma_linear_release(total, e1, lock, lock);
        }
    } else if e2 > 0 && e2 < lock {
        lemma_linear_release(total, e2, e2, lock);
    }
}

/// Once part of a reward has been paid out, the stake can no longer be
/// refunded.
pub proof fn lemma_claim_forbids_refund(s: GlobalState, rec: StakingRecord, record_id: u64, now: i64, later: i64)
    requires
        claim_rewards_error(s, rec, rec.user, record_id, now) is None,
        !claim_rewards_aborts(s, rec, rec.user, record_id, now),
    ensures
        claim_refund_error(rewards_claimed_state(s, rec, now), rewards_claimed_record(rec, now), rec.user, record_id, later)
            == Some(AGXError::RefundForbiddenClaimed),
{
    lemma_release_schedule(rec, now, now);
}

/// A refunded stake is closed: it can be neither refunded again nor earn
/// rewards.
pub proof fn lemma_refund_closes_stake(s: GlobalState, rec: StakingRecord, record_id: u64, now: i64, later: i64)
    requires
        claim_refund_error(s, rec, rec.user, record_id, now) is None,
    ensures
        claim_refund_error(refunded_state(s, rec), refunded_record(rec), rec.user, record_id, later)
            == Some(AGXError::NotStaked),
        claim_rewards_error(refunded_state(s, rec), refunded_record(rec), rec.user, record_id, later) is Some,
{
}

/// What an operational vault may have released grows with time.
pub proof fn lemma_operational_release_grows(s: GlobalState, vault_type: u8, t1: i64, t2: i64)
    requires
        1 <= vault_type <= 4,
        t1 <= t2,
        vault_elapsed(s, vault_type, t1) >= vault_lock_months(vault_type) * SECONDS_PER_MONTH,
    ensures
        vault_monthly_release(vault_type) <= vault_release_due(s, vault_type, t1) <= vault_release_due(s, vault_type, t2),
{
    let lock = vault_lock_months(vault_type) * SECONDS_PER_MONTH;
    let e1 = vault_elapsed(s, vault_type, t1);
    let e2 = vault_elapsed(s, vault_type, t2);
    lemma_div_is_ordered(0, e1 - lock, SECONDS_PER_MONTH as int);
    lemma_div_is_ordered(e1 - lock, e2 - lock, SECONDS_PER_MONTH as int);
    let m1 = (e1 - lock) / (SECONDS_PER_MONTH as int) + 1;
    let m2 = (e2 - lock) / (SECONDS_PER_MONTH as int) + 1;
    let rate = vault_monthly_release(vault_type);
    assert(rate <= m1 * rate <= m2 * rate) by (nonlinear_arith)
        requires 1 <= m1 <= m2, 0 < rate;
}

/// Swapping AGX back never pays more than the AGX is worth at the swap
/// price: the fee only lowers the USDT paid.
pub proof fn lemma_swap_back_fee_only_lowers(s: GlobalState, agx_amount: u64)
    requires
        !s.emergency_paused,
        s.swap_active,
        s.sell_price != 0,
        !swap_agx_to_usdt_aborts(s, agx_amount),
    ensures
        0 <= swap_back_fee(s, agx_amount) <= agx_amount,
        0 <= swap_back_usdt(s, agx_amount) <= (agx_amount * s.sell_price) / (AGX_UNIT as int),
{
    let fee = swap_back_fee(s, agx_amount);
    let net = agx_amount - fee;
    assert(0 <= agx_amount * s.swap_fee_percentage) by (nonlinear_arith);
    lemma_div_is_ordered(0, agx_amount * s.swap_fee_percentage, 100);
    assert(0 <= net * s.sell_price <= agx_amount * s.sell_price) by (nonlinear_arith)
        requires 0 <= net <= agx_amount, 0 <= s.sell_price;
    lemma_div_is_ordered(0, net * s.sell_price, AGX_UNIT as int);
    lemma_div_is_ordered(net * s.sell_price, agx_amount * s.sell_price, AGX_UNIT as int);
}

/// An operational claim never lowers what any vault has released, and
/// keeps every vault within its 5M cap.
pub proof fn lemma_operational_claims_capped_and_monotone(s: GlobalState, admin: Key, vault_type: u8, now: i64)
    requires
        claim_operational_vault_error(s, admin, vault_type, now) is None,
        !claim_operational_vault_aborts(s, admin, vault_type, now),
        s.treasury_claimed <= OPERATIONAL_CAP,
        s.development_claimed <= OPERATIONAL_CAP,
        s.marketing_claimed <= OPERATIONAL_CAP,
        s.roadmap_claimed <= OPERATIONAL_CAP,
    ensures
        ({
            let t = operational_claimed_state(s, vault_type, now);
            &&& s.treasury_claimed <= t.treasury_claimed <= OPERATIONAL_CAP
            &&& s.development_claimed <= t.development_claimed <= OPERATIONAL_CAP
            &&& s.marketing_claimed <= t.marketing_claimed <= OPERATIONAL_CAP
            &&& s.roadmap_claimed <= t.roadmap_claimed <= OPERATIONAL_CAP
        }),
{
}

/// An operational vault pays each monthly release once: a second claim in
/// the same 30-day period is refused, as still locked, or as at its cap once
/// the whole 5M is out.
pub proof fn lemma_one_release_per_month(s: GlobalState, admin: Key, vault_type: u8, now: i64, later: i64)
    requires
        claim_operational_vault_error(s, admin, vault_type, now) is None,
        !claim_operational_vault_aborts(s, admin, vault_type, now),
        (vault_elapsed(s, vault_type, later) - vault_lock_months(vault_type) * SECONDS_PER_MONTH)
            / (SECONDS_PER_MONTH as int)
            == (vault_elapsed(s, vault_type, now) - vault_lock_months(vault_type) * SECONDS_PER_MONTH)
            / (SECONDS_PER_MONTH as int),
    ensures
        claim_operational_vault_error(operational_claimed_state(s, vault_type, now), admin, vault_type, later)
            == Some(if vault_release_due(s, vault_type, now) >= OPERATIONAL_CAP {
                AGXError::MaxOperationalLimitReached
            } else {
                AGXError::OperationalTimeLocked
            }),
{
    let t = operational_claimed_state(s, vault_type, now);
    assert(vault_start_time(t, vault_type) == vault_start_time(s, vault_type));
    assert(vault_elapsed(t, vault_type, later) == vault_elapsed(s, vault_type, later));
    assert(vault_release_due(t, vault_type, later) == vault_release_due(s, vault_type, now));
    assert(vault_claimed(t, vault_type) == vault_release_due(s, vault_type, now));
}

/// A claim made once the lock is over pays out the whole remaining reward.
pub proof fn lemma_claim_after_lock_releases_all(s: GlobalState, rec: StakingRecord, record_id: u64, now: i64)
    requires
        claim_rewards_error(s, rec, rec.user, record_id, now) is None,
        elapsed_since_purchase(rec, now) >= lock_seconds(rec),
    ensures
        rewards_claimed_record(rec, now).released_tokens == rec.total_reward_tokens,
        rewards_claimed_record(rec, now).well_formed(),
{
}

/// An operational vault's whole 5M allocation can be released: once the
/// monthly releases earned reach 5M, a claim takes everything still held back.
pub proof fn lemma_whole_allocation_released(s: GlobalState, vault_type: u8, now: i64)
    requires
        !s.emergency_paused,
        1 <= vault_type <= 4,
        vault_elapsed(s, vault_type, now) >= vault_lock_months(vault_type) * SECONDS_PER_MONTH,
        vault_tranches(s, vault_type, now) * vault_monthly_release(vault_type) >= OPERATIONAL_CAP,
        vault_claimed(s, vault_type) < OPERATIONAL_CAP,
    ensures
        claim_operational_vault_error(s, s.admin, vault_type, now) is None,
        vault_claimed(operational_claimed_state(s, vault_type, now), vault_type) == OPERATIONAL_CAP,
{
}

/// Splitting a reward claim in two never changes the payout: claiming at
/// `t1` and then at `t2` pays in all what one claim at `t2` pays, and leaves
/// the same record and global account.
pub proof fn lemma_split_claims_pay_the_same(s: GlobalState, rec: StakingRecord, record_id: u64, t1: i64, t2: i64)
    requires
        claim_rewards_error(s, rec, rec.user, record_id, t1) is None,
        !claim_rewards_aborts(s, rec, rec.user, record_id, t1),
        claim_rewards_error(rewards_claimed_state(s, rec, t1), rewards_claimed_record(rec, t1), rec.user, record_id, t2) is None,
        !claim_rewards_aborts(rewards_claimed_state(s, rec, t1), rewards_claimed_record(rec, t1), rec.user, record_id, t2),
    ensures
        claim_rewards_error(s, rec, rec.user, record_id, t2) is None,
        !claim_rewards_aborts(s, rec, rec.user, record_id, t2),
        claimable_now(rec, t1) + claimable_now(rewards_claimed_record(rec, t1), t2) == claimable_now(rec, t2),
        rewards_claimed_record(rewards_claimed_record(rec, t1), t2) == rewards_claimed_record(rec, t2),
        rewards_claimed_state(rewards_claimed_state(s, rec, t1), rewards_claimed_record(rec, t1), t2)
            == rewards_claimed_state(s, rec, t2),
{
    lemma_release_schedule(rec, t1, t1);
    let rec1 = rewards_claimed_record(rec, t1);
    assert(vested(rec1, t2) == vested(rec, t2));
}

/// A second reward claim at the same moment finds nothing to pay.
pub proof fn lemma_no_second_claim_at_once(s: GlobalState, rec: StakingRecord, record_id: u64, now: i64)
    requires
        claim_rewards_error(s, rec, rec.user, record_id, now) is None,
        !claim_rewards_aborts(s, rec, rec.user, record_id, now),
    ensures
        claim_rewards_error(rewards_claimed_state(s, rec, now), rewards_claimed_record(rec, now), rec.user, record_id, now)
            == Some(AGXError::NoClaimableRewards),
{
    lemma_release_schedule(rec, now, now);
    assert(vested(rewards_claimed_record(rec, now), now) == vested(rec, now));
}

/// Buying AGX with `swap_t20` and selling it straight back never returns
/// more USDT than was paid.
pub proof fn lemma_swap_round_trip_never_gains(s: GlobalState, usdt_amount: u64)
    requires
        swap_t20_error(s) is None,
        !swap_t20_aborts(s, usdt_amount),
        !swap_agx_to_usdt_aborts(swapped_state(s, usdt_amount), swap_agx(s, usdt_amount) as u64),
    ensures
        swap_back_usdt(swapped_state(s, usdt_amount), swap_agx(s, usdt_amount) as u64) <= usdt_amount,
{
    let p = s.sell_price as int;
    let scaled = usdt_amount * AGX_UNIT;
    let agx = scaled / p;
    let s1 = swapped_state(s, usdt_amount);
    lemma_fundamental_div_mod(scaled, p);
    lemma_mod_bound(scaled, p);
    assert(0 <= agx) by (nonlinear_arith) requires 0 <= scaled, p > 0, agx == scaled / p;
    assert(agx <= u64::MAX);
    assert(agx * p <= scaled) by (nonlinear_arith)
        requires scaled == p * agx + scaled % p, 0 <= scaled % p;
    lemma_swap_back_fee_only_lowers(s1, agx as u64);
    lemma_div_is_ordered(agx * p, scaled, AGX_UNIT as int);
    lemma_div_by_multiple(usdt_amount as int, AGX_UNIT as int);
}

} // verus!
