use vstd::prelude::*;

use crate::accounts::{BuyAndStake, ClaimRefund, ClaimRewards};
use crate::error::AGXError;
use crate::key::Key;
use crate::pricing::{
    active_price, agx_for_usdt, convert_usdt_to_agx, determine_staking_tier, get_active_price,
    staking_tier,
};
use crate::state::{
    event, transfer, Effects, GlobalState, Holder, ProgramEvent, StakingRecord, TokenTransfer,
    AGX_UNIT, EVENT_BUY, EVENT_CLAIM, EVENT_REFUND, HARD_CAP, MIN_STAKE_USDT, PRESALE_CAP,
    REFUND_WINDOW, REWARD_SALE_CAP, SECONDS_PER_MONTH,
};
use vstd::arithmetic::div_mod::{lemma_div_by_multiple, lemma_div_is_ordered};
use vstd::arithmetic::mul::lemma_mul_inequality;

verus! {

/// Lock in months of the tier of `usdt_amount` (at least 100 USDT).
pub open spec fn tier_months(usdt_amount: u64) -> u8 {
    match staking_tier(usdt_amount as int) {
        Some(t) => t.0,
        None => 0,
    }
}

/// Reward multiplier of the tier of `usdt_amount` (at least 100 USDT).
pub open spec fn tier_multiplier(usdt_amount: u64) -> u8 {
    match staking_tier(usdt_amount as int) {
        Some(t) => t.1,
        None => 0,
    }
}

/// Why `buy_and_stake` is refused before any amount is computed, if it is.
pub open spec fn buy_gate_error(s: GlobalState, usdt_amount: u64) -> Option<AGXError> {
    if s.emergency_paused {
        Some(AGXError::EmergencyPaused)
    } else if !s.buy_active {
        Some(AGXError::PurchaseInactive)
    } else if !s.stake_active {
        Some(AGXError::StakingInactive)
    } else if s.sale_completed {
        Some(AGXError::SalesCompleted)
    } else if s.reward_sale_completed {
        Some(AGXError::RewardSaleCompleted)
    } else if usdt_amount < MIN_STAKE_USDT {
        Some(AGXError::BelowMinStake)
    } else {
        None
    }
}

/// AGX bought by `usdt_amount` at the current price.
pub open spec fn buy_agx(s: GlobalState, usdt_amount: u64) -> int {
    agx_for_usdt(usdt_amount as int, active_price(s.sold()))
}

/// The part of a purchase of `agx` that the first phase still takes.
pub open spec fn presale_share(s: GlobalState, agx: int) -> int {
    if s.tokens_sold_presale < PRESALE_CAP {
        if agx > PRESALE_CAP - s.tokens_sold_presale {
            PRESALE_CAP - s.tokens_sold_presale
        } else {
            agx
        }
    } else {
        0
    }
}

/// The part of a purchase of `agx` that goes beyond the first phase.
pub open spec fn reward_share(s: GlobalState, agx: int) -> int {
    agx - presale_share(s, agx)
}

/// The reward that a stake of `usdt_amount` earns: its AGX times the tier's
/// multiplier.
pub open spec fn buy_reward(s: GlobalState, usdt_amount: u64) -> int {
    buy_agx(s, usdt_amount) * tier_multiplier(usdt_amount)
}

/// Why `buy_and_stake` refuses a stake of `usdt_amount`, if it does.
pub open spec fn buy_and_stake_error(s: GlobalState, usdt_amount: u64) -> Option<AGXError> {
    match buy_gate_error(s, usdt_amount) {
        Some(e) => Some(e),
        None => if s.sold() + buy_agx(s, usdt_amount) > HARD_CAP {
            Some(AGXError::HardCapReached)
        } else if s.reward_vault_available < buy_reward(s, usdt_amount) {
            Some(AGXError::InsufficientRewardVault)
        } else {
            None
        },
    }
}

/// Whether `buy_and_stake` runs out of 64-bit range on the way (the program
/// then aborts): in the sales tally, the scaling of `usdt_amount` to AGX
/// units, the reward-sale tally, the reward reservation or a counter.
pub open spec fn buy_and_stake_aborts(s: GlobalState, usdt_amount: u64) -> bool {
    let agx = buy_agx(s, usdt_amount);
    let reward = buy_reward(s, usdt_amount);
    &&& buy_gate_error(s, usdt_amount) is None
    &&& {
        ||| s.sold() > u64::MAX
        ||| usdt_amount * AGX_UNIT > u64::MAX
        ||| s.sold() + agx > u64::MAX
        ||| s.sold() + agx <= HARD_CAP && {
            ||| s.reward_sold + reward_share(s, agx) > u64::MAX
            ||| s.reward_vault_available >= reward && {
                ||| s.reward_vault_reserved + reward > s.reward_vault_total
                ||| s.transaction_count + 1 > u64::MAX
                ||| s.sale_counter + agx > u64::MAX
                ||| s.sale_transactions + 1 > u64::MAX
                ||| s.reward_counter + 1 > u64::MAX
            }
        }
    }
}

/// The global account after an accepted stake of `usdt_amount`.
pub open spec fn bought_state(s: GlobalState, usdt_amount: u64) -> GlobalState {
    let agx = buy_agx(s, usdt_amount);
    let reward = buy_reward(s, usdt_amount);
    let presale = s.tokens_sold_presale + presale_share(s, agx);
    let beyond = s.tokens_sold_reward + reward_share(s, agx);
    let reserved = s.reward_vault_reserved + reward;
    GlobalState {
        tokens_sold_presale: presale as u64,
        tokens_sold_reward: beyond as u64,
        reward_sold: (s.reward_sold + reward_share(s, agx)) as u64,
        reward_sale_completed: beyond >= REWARD_SALE_CAP,
        sale_completed: presale + beyond >= HARD_CAP,
        reward_vault_reserved: reserved as u64,
        reward_vault_available: (s.reward_vault_total - reserved) as u64,
        transaction_count: (s.transaction_count + 1) as u64,
        sale_counter: (s.sale_counter + agx) as u64,
        sale_transactions: (s.sale_transactions + 1) as u64,
        reward_counter: (s.reward_counter + 1) as u64,
        ..s
    }
}

/// The staking record that an accepted stake of `usdt_amount` at `now` fills in.
pub open spec fn bought_record(ctx: BuyAndStake, usdt_amount: u64, now: i64) -> StakingRecord {
    StakingRecord {
        record_id: ctx.state.transaction_count,
        user: ctx.user,
        staked_amount_usdt: usdt_amount,
        equivalent_agx: buy_agx(ctx.state, usdt_amount) as u64,
        total_reward_tokens: buy_reward(ctx.state, usdt_amount) as u64,
        released_tokens: 0,
        purchase_time: now,
        last_claim_time: now,
        lock_duration_months: tier_months(usdt_amount),
        is_refunded: false,
        is_staked: true,
        ..ctx.stake_record
    }
}

proof fn lemma_agx_bound(scaled: int, price: int)
    requires
        0 <= scaled <= u64::MAX,
        price >= 62_000,
    ensures
        0 <= scaled / price <= 297_528_146_000_000,
{
    assert(scaled / price <= scaled / 62_000) by (nonlinear_arith)
        requires 0 <= scaled, price >= 62_000;
}

/// Buys AGX with `usdt_amount` USDT at the current price and stakes it at
/// time `now`: the purchase is split between the first phase and the reward
/// phase, the tier's reward is reserved in the reward vault, the staking
/// record is filled in, and the USDT moves from the user to the USDT vault.
pub fn buy_and_stake(ctx: &mut BuyAndStake, usdt_amount: u64, now: i64) -> (r: Result<Effects, AGXError>)
    requires
        !buy_and_stake_aborts(old(ctx).state, usdt_amount),
    ensures
        match buy_and_stake_error(old(ctx).state, usdt_amount) {
            Some(e) => r == Err::<Effects, AGXError>(e) && *final(ctx) == *old(ctx),
            None => r matches Ok(eff) && {
                &&& final(ctx).state == bought_state(old(ctx).state, usdt_amount)
                &&& final(ctx).stake_record == bought_record(*old(ctx), usdt_amount, now)
                &&& final(ctx).user == old(ctx).user
                &&& eff.transfers@ == seq![transfer(Holder::UserUsdt, Holder::UsdtVault, usdt_amount, false)]
                &&& eff.event == event(EVENT_BUY, old(ctx).user, usdt_amount,
                    buy_agx(old(ctx).state, usdt_amount) as u64, old(ctx).state.transaction_count)
            },
        },
        r is Ok ==> final(ctx).stake_record.well_formed(),
        old(ctx).state.well_formed() ==> final(ctx).state.well_formed(),
{
    let ghost s = ctx.state;
    if ctx.state.emergency_paused {
        return Err(AGXError::EmergencyPaused);
    }
    if !ctx.state.buy_active {
        return Err(AGXError::PurchaseInactive);
    }
    if !ctx.state.stake_active {
        return Err(AGXError::StakingInactive);
    }
    if ctx.state.sale_completed {
        return Err(AGXError::SalesCompleted);
    }
    if ctx.state.reward_sale_completed {
        return Err(AGXError::RewardSaleCompleted);
    }
    if usdt_amount < MIN_STAKE_USDT {
        return Err(AGXError::BelowMinStake);
    }
    let current_price = match get_active_price(&ctx.state) {
        Ok(p) => p,
        Err(e) => return Err(e),
    };
    let agx_amount = convert_usdt_to_agx(usdt_amount, current_price);
    proof {
        lemma_agx_bound(usdt_amount * AGX_UNIT, current_price as int);
    }
    let total_sold = ctx.state.tokens_sold_presale + ctx.state.tokens_sold_reward;
    let new_total_sold = total_sold + agx_amount;
    if new_total_sold > HARD_CAP {
        return Err(AGXError::HardCapReached);
    }
    let presale_part: u64;
    if ctx.state.tokens_sold_presale < PRESALE_CAP {
        let presale_rem = PRESALE_CAP - ctx.state.tokens_sold_presale;
        if agx_amount > presale_rem {
            presale_part = presale_rem;
        } else {
            presale_part = agx_amount;
        }
    } else {
        presale_part = 0;
    }
    let reward_part = agx_amount - presale_part;
    assert(presale_part == presale_share(s, agx_amount as int));
    let new_presale = ctx.state.tokens_sold_presale + presale_part;
    let new_reward_phase = ctx.state.tokens_sold_reward + reward_part;
    let new_reward_sold = ctx.state.reward_sold + reward_part;

    let (duration_months, multiplier) = match determine_staking_tier(usdt_amount) {
        Ok(t) => t,
        Err(e) => return Err(e),
    };
    assert(agx_amount * multiplier <= agx_amount * 4) by (nonlinear_arith)
        requires multiplier <= 4;
    let total_reward = agx_amount * (multiplier as u64);
    if ctx.state.reward_vault_available < total_reward {
        return Err(AGXError::InsufficientRewardVault);
    }
    let new_reserved = ctx.state.reward_vault_reserved + total_reward;
    let new_available = ctx.state.reward_vault_total - new_reserved;
    let record_id = ctx.state.transaction_count;

    ctx.state.tokens_sold_presale = new_presale;
    ctx.state.tokens_sold_reward = new_reward_phase;
    ctx.state.reward_sold = new_reward_sold;
    ctx.state.reward_sale_completed = new_reward_phase >= REWARD_SALE_CAP;
    ctx.state.sale_completed = new_presale + new_reward_phase >= HARD_CAP;
    ctx.state.reward_vault_reserved = new_reserved;
    ctx.state.reward_vault_available = new_available;
    ctx.state.transaction_count = ctx.state.transaction_count + 1;
    ctx.state.sale_counter = ctx.state.sale_counter + agx_amount;
    ctx.state.sale_transactions = ctx.state.sale_transactions + 1;
    ctx.state.reward_counter = ctx.state.reward_counter + 1;

    ctx.stake_record.record_id = record_id;
    ctx.stake_record.user = ctx.user;
    ctx.stake_record.staked_amount_usdt = usdt_amount;
    ctx.stake_record.equivalent_agx = agx_amount;
    ctx.stake_record.total_reward_tokens = total_reward;
    ctx.stake_record.released_tokens = 0;
    ctx.stake_record.lock_duration_months = duration_months;
    ctx.stake_record.purchase_time = now;
    ctx.stake_record.last_claim_time = now;
    ctx.stake_record.is_refunded = false;
    ctx.stake_record.is_staked = true;

    let mut transfers: Vec<TokenTransfer> = Vec::new();
    transfers.push(TokenTransfer {
        from: Holder::UserUsdt,
        to: Holder::UsdtVault,
        amount: usdt_amount,
        by_vault_authority: false,
    });
    Ok(Effects {
        transfers,
        event: ProgramEvent {
            event_type: EVENT_BUY,
            user: ctx.user,
            amount_1: usdt_amount,
            amount_2: agx_amount,
            record_id,
        },
    })
}

/// Whether `buy_and_stake` would run out of 64-bit range on this input:
/// the test that a caller makes before the call.
pub fn buy_and_stake_overflows(ctx: &BuyAndStake, usdt_amount: u64) -> (r: bool)
    ensures
        r == buy_and_stake_aborts(ctx.state, usdt_amount),
{
    let s = &ctx.state;
    if s.emergency_paused || !s.buy_active || !s.stake_active || s.sale_completed
        || s.reward_sale_completed || usdt_amount < MIN_STAKE_USDT {
        return false;
    }
    let total_sold = match s.tokens_sold_presale.checked_add(s.tokens_sold_reward) {
        Some(t) => t,
        None => return true,
    };
    let scaled = match usdt_amount.checked_mul(AGX_UNIT) {
        Some(x) => x,
        None => return true,
    };
    let current_price = match get_active_price(s) {
        Ok(p) => p,
        Err(_) => return true,
    };
    let agx_amount = scaled / current_price;
    proof {
        lemma_agx_bound(scaled as int, current_price as int);
    }
    let new_total_sold = match total_sold.checked_add(agx_amount) {
        Some(t) => t,
        None => return true,
    };
    if new_total_sold > HARD_CAP {
        return false;
    }
    let presale_part: u64;
    if s.tokens_sold_presale < PRESALE_CAP {
        let presale_rem = PRESALE_CAP - s.tokens_sold_presale;
        if agx_amount > presale_rem {
            presale_part = presale_rem;
        } else {
            presale_part = agx_amount;
        }
    } else {
        presale_part = 0;
    }
    let reward_part = agx_amount - presale_part;
    if s.reward_sold.checked_add(reward_part).is_none() {
        return true;
    }
    let multiplier = match determine_staking_tier(usdt_amount) {
        Ok(t) => t.1,
        Err(_) => return false,
    };
    assert(agx_amount * multiplier <= agx_amount * 4) by (nonlinear_arith)
        requires multiplier <= 4;
    let total_reward = agx_amount * (multiplier as u64);
    if s.reward_vault_available < total_reward {
        return false;
    }
    match s.reward_vault_reserved.checked_add(total_reward) {
        Some(reserved) => if reserved > s.reward_vault_total {
            return true;
        },
        None => return true,
    }
    s.transaction_count == u64::MAX || s.sale_counter.checked_add(agx_amount).is_none()
        || s.sale_transactions == u64::MAX || s.reward_counter == u64::MAX
}

/// Seconds since the purchase recorded in `rec`.
pub open spec fn elapsed_since_purchase(rec: StakingRecord, now: i64) -> int {
    now - rec.purchase_time
}

/// Length in seconds of the lock of `rec`.
pub open spec fn lock_seconds(rec: StakingRecord) -> int {
    rec.lock_duration_months * SECONDS_PER_MONTH
}

/// The part of the reward of `rec` released by time `now`: nothing before
/// the purchase, then linearly over the lock (rounded down), and all of it
/// once the lock is over.
pub open spec fn vested(rec: StakingRecord, now: i64) -> int {
    let e = elapsed_since_purchase(rec, now);
    if e <= 0 {
        0
    } else if e >= lock_seconds(rec) {
        rec.total_reward_tokens as int
    } else {
        (rec.total_reward_tokens * e) / lock_seconds(rec)
    }
}

/// The reward of `rec` released by `now` and not yet paid out.
pub open spec fn claimable_now(rec: StakingRecord, now: i64) -> int {
    vested(rec, now) - rec.released_tokens
}

/// The part of a reward `total` released after `e` of `lock` seconds stays
/// within the reward and grows with time.
pub proof fn lemma_linear_release(total: int, e1: int, e2: int, lock: int)
    requires
        0 <= total,
        0 <= e1 <= e2 <= lock,
        0 < lock,
    ensures
        0 <= (total * e1) / lock <= (total * e2) / lock <= total,
{
    lemma_mul_inequality(e1, e2, total);
    lemma_mul_inequality(e2, lock, total);
    assert(total * e1 == e1 * total) by (nonlinear_arith);
    assert(total * e2 == e2 * total) by (nonlinear_arith);
    assert(total * lock == lock * total) by (nonlinear_arith);
    assert(0 <= total * e1) by (nonlinear_arith)
        requires 0 <= total, 0 <= e1;
    lemma_div_is_ordered(0, total * e1, lock);
    lemma_div_is_ordered(total * e1, total * e2, lock);
    lemma_div_is_ordered(total * e2, total * lock, lock);
    lemma_div_by_multiple(total, lock);
}

/// Why `claim_rewards`, signed by `user`, is refused before any time is
/// read, if it is: only the record's owner may claim.
pub open spec fn claim_gate_error(s: GlobalState, rec: StakingRecord, user: Key, record_id: u64) -> Option<AGXError> {
    if user != rec.user {
        Some(AGXError::ConstraintHasOne)
    } else if s.emergency_paused {
        Some(AGXError::EmergencyPaused)
    } else if !s.claim_active {
        Some(AGXError::ClaimsInactive)
    } else if !rec.is_staked {
        Some(AGXError::NotStaked)
    } else if rec.is_refunded {
        Some(AGXError::AlreadyRefunded)
    } else if rec.record_id != record_id {
        Some(AGXError::InvalidRecordId)
    } else {
        None
    }
}

/// Why `claim_rewards` refuses the claim, if it does.
pub open spec fn claim_rewards_error(s: GlobalState, rec: StakingRecord, user: Key, record_id: u64, now: i64) -> Option<AGXError> {
    match claim_gate_error(s, rec, user, record_id) {
        Some(e) => Some(e),
        None => if elapsed_since_purchase(rec, now) <= 0 || claimable_now(rec, now) <= 0 {
            Some(AGXError::NoClaimableRewards)
        } else {
            None
        },
    }
}

/// Whether `claim_rewards` runs out of range on the way (the program then
/// aborts): in the elapsed time, when the record has released more than is
/// vested, in the reward reservation or in the paid-out tally.
pub open spec fn claim_rewards_aborts(s: GlobalState, rec: StakingRecord, user: Key, record_id: u64, now: i64) -> bool {
    let e = elapsed_since_purchase(rec, now);
    let pending = claimable_now(rec, now);
    &&& claim_gate_error(s, rec, user, record_id) is None
    &&& {
        ||| e < i64::MIN
        ||| e > i64::MAX
        ||| e > 0 && {
            ||| pending < 0
            ||| pending > 0 && {
                ||| pending > s.reward_vault_reserved
                ||| s.reward_paid + pending > u64::MAX
            }
        }
    }
}

/// The global account after paying out what `rec` has pending at `now`.
pub open spec fn rewards_claimed_state(s: GlobalState, rec: StakingRecord, now: i64) -> GlobalState {
    GlobalState {
        reward_vault_reserved: (s.reward_vault_reserved - claimable_now(rec, now)) as u64,
        reward_paid: (s.reward_paid + claimable_now(rec, now)) as u64,
        ..s
    }
}

/// The staking record after paying out what it has pending at `now`.
pub open spec fn rewards_claimed_record(rec: StakingRecord, now: i64) -> StakingRecord {
    StakingRecord { released_tokens: vested(rec, now) as u64, last_claim_time: now, ..rec }
}

/// Pays out to the user the part of the staking reward released by `now`
/// and not yet paid, from the reward vault.
pub fn claim_rewards(ctx: &mut ClaimRewards, record_id: u64, now: i64) -> (r: Result<Effects, AGXError>)
    requires
        !claim_rewards_aborts(old(ctx).state, old(ctx).stake_record, old(ctx).user, record_id, now),
    ensures
        match claim_rewards_error(old(ctx).state, old(ctx).stake_record, old(ctx).user, record_id, now) {
            Some(e) => r == Err::<Effects, AGXError>(e) && *final(ctx) == *old(ctx),
            None => r matches Ok(eff) && {
                &&& final(ctx).state == rewards_claimed_state(old(ctx).state, old(ctx).stake_record, now)
                &&& final(ctx).stake_record == rewards_claimed_record(old(ctx).stake_record, now)
                &&& final(ctx).user == old(ctx).user
                &&& eff.transfers@ == seq![transfer(Holder::RewardVault, Holder::UserToken,
                    claimable_now(old(ctx).stake_record, now) as u64, true)]
                &&& eff.event == event(EVENT_CLAIM, old(ctx).stake_record.user,
                    claimable_now(old(ctx).stake_record, now) as u64,
                    vested(old(ctx).stake_record, now) as u64, old(ctx).stake_record.record_id)
            },
        },
        r is Ok ==> final(ctx).stake_record.well_formed(),
        old(ctx).stake_record.well_formed() ==> final(ctx).stake_record.well_formed(),
        old(ctx).state.well_formed() ==> final(ctx).state.well_formed(),
{
    if ctx.user != ctx.stake_record.user {
        return Err(AGXError::ConstraintHasOne);
    }
    if ctx.state.emergency_paused {
        return Err(AGXError::EmergencyPaused);
    }
    if !ctx.state.claim_active {
        return Err(AGXError::ClaimsInactive);
    }
    if !ctx.stake_record.is_staked {
        return Err(AGXError::NotStaked);
    }
    if ctx.stake_record.is_refunded {
        return Err(AGXError::AlreadyRefunded);
    }
    if ctx.stake_record.record_id != record_id {
        return Err(AGXError::InvalidRecordId);
    }
    let elapsed = now - ctx.stake_record.purchase_time;
    let total_lock_time = (ctx.stake_record.lock_duration_months as i64) * SECONDS_PER_MONTH;
    if elapsed <= 0 {
        return Err(AGXError::NoClaimableRewards);
    }
    let total_reward = ctx.stake_record.total_reward_tokens;
    let total_claimable: u64;
    if elapsed >= total_lock_time {
        total_claimable = total_reward;
    } else {
        proof {
            lemma_linear_release(total_reward as int, elapsed as int, elapsed as int, total_lock_time as int);
        }
        assert((total_reward as u128) * (elapsed as u128) <= u64::MAX * 700_000_000) by (nonlinear_arith)
            requires total_reward <= u64::MAX, 0 < elapsed < 700_000_000;
        let scaled = (total_reward as u128) * (elapsed as u128);
        total_claimable = (scaled / (total_lock_time as u128)) as u64;
    }
    assert(total_claimable == vested(ctx.stake_record, now));
    if total_claimable <= ctx.stake_record.released_tokens {
        return Err(AGXError::NoClaimableRewards);
    }
    let pending_to_claim = total_claimable - ctx.stake_record.released_tokens;

    ctx.stake_record.released_tokens = total_claimable;
    ctx.stake_record.last_claim_time = now;
    ctx.state.reward_vault_reserved = ctx.state.reward_vault_reserved - pending_to_claim;
    ctx.state.reward_paid = ctx.state.reward_paid + pending_to_claim;

    let mut transfers: Vec<TokenTransfer> = Vec::new();
    transfers.push(TokenTransfer {
        from: Holder::RewardVault,
        to: Holder::UserToken,
        amount: pending_to_claim,
        by_vault_authority: true,
    });
    Ok(Effects {
        transfers,
        event: ProgramEvent {
            event_type: EVENT_CLAIM,
            user: ctx.stake_record.user,
            amount_1: pending_to_claim,
            amount_2: total_claimable,
            record_id: ctx.stake_record.record_id,
        },
    })
}

/// Whether `claim_rewards` would run out of range on this input: the test
/// that a caller makes before the call.
pub fn claim_rewards_overflows(ctx: &ClaimRewards, record_id: u64, now: i64) -> (r: bool)
    ensures
        r == claim_rewards_aborts(ctx.state, ctx.stake_record, ctx.user, record_id, now),
{
    let rec = &ctx.stake_record;
    if ctx.user != rec.user || ctx.state.emergency_paused || !ctx.state.claim_active || !rec.is_staked
        || rec.is_refunded || rec.record_id != record_id {
        return false;
    }
    let elapsed = match now.checked_sub(rec.purchase_time) {
        Some(e) => e,
        None => return true,
    };
    if elapsed <= 0 {
        return false;
    }
    let total_lock_time = (rec.lock_duration_months as i64) * SECONDS_PER_MONTH;
    let total_reward = rec.total_reward_tokens;
    let total_claimable: u64;
    if elapsed >= total_lock_time {
        total_claimable = total_reward;
    } else {
        proof {
            lemma_linear_release(total_reward as int, elapsed as int, elapsed as int, total_lock_time as int);
        }
        assert((total_reward as u128) * (elapsed as u128) <= u64::MAX * 700_000_000) by (nonlinear_arith)
            requires total_reward <= u64::MAX, 0 < elapsed < 700_000_000;
        let scaled = (total_reward as u128) * (elapsed as u128);
        total_claimable = (scaled / (total_lock_time as u128)) as u64;
    }
    assert(total_claimable == vested(*rec, now));
    if total_claimable < rec.released_tokens {
        return true;
    }
    let pending = total_claimable - rec.released_tokens;
    if pending == 0 {
        return false;
    }
    pending > ctx.state.reward_vault_reserved || ctx.state.reward_paid.checked_add(pending).is_none()
}

/// Why `claim_refund`, signed by `user`, is refused, if it is: only the
/// record's owner may ask for the refund.
pub open spec fn claim_refund_error(s: GlobalState, rec: StakingRecord, user: Key, record_id: u64, now: i64) -> Option<AGXError> {
    if user != rec.user {
        Some(AGXError::ConstraintHasOne)
    } else if s.emergency_paused {
        Some(AGXError::EmergencyPaused)
    } else if !rec.is_staked {
        Some(AGXError::NotStaked)
    } else if rec.is_refunded {
        Some(AGXError::AlreadyRefunded)
    } else if rec.released_tokens != 0 {
        Some(AGXError::RefundForbiddenClaimed)
    } else if rec.record_id != record_id {
        Some(AGXError::InvalidRecordId)
    } else if elapsed_since_purchase(rec, now) > REFUND_WINDOW {
        Some(AGXError::RefundWindowExpired)
    } else {
        None
    }
}

/// Whether `claim_refund` runs out of range on the way (the program then
/// aborts): in the elapsed time, in the reward reservation, or in the
/// refund tallies.
pub open spec fn claim_refund_aborts(s: GlobalState, rec: StakingRecord, user: Key, record_id: u64, now: i64) -> bool {
    let e = elapsed_since_purchase(rec, now);
    &&& user == rec.user
    &&& !s.emergency_paused
    &&& rec.is_staked
    &&& !rec.is_refunded
    &&& rec.released_tokens == 0
    &&& rec.record_id == record_id
    &&& {
        ||| e < i64::MIN
        ||| e > i64::MAX
        ||| e <= REFUND_WINDOW && {
            ||| rec.total_reward_tokens > s.reward_vault_reserved
            ||| s.reward_vault_reserved - rec.total_reward_tokens > s.reward_vault_total
            ||| s.returned_counter + 1 > u64::MAX
            ||| s.reward_returned + rec.equivalent_agx > u64::MAX
        }
    }
}

/// `a - b`, or 0 where `b` exceeds `a`.
pub open spec fn saturating_minus(a: int, b: int) -> int {
    if a >= b { a - b } else { 0 }
}

/// The global account after refunding the stake `rec`: its reward is no
/// longer reserved, and its AGX leaves the reward-phase tallies.
pub open spec fn refunded_state(s: GlobalState, rec: StakingRecord) -> GlobalState {
    let reserved = s.reward_vault_reserved - rec.total_reward_tokens;
    GlobalState {
        reward_vault_reserved: reserved as u64,
        reward_vault_available: (s.reward_vault_total - reserved) as u64,
        tokens_sold_reward: saturating_minus(s.tokens_sold_reward as int, rec.equivalent_agx as int) as u64,
        reward_sold: saturating_minus(s.reward_sold as int, rec.equivalent_agx as int) as u64,
        returned_counter: (s.returned_counter + 1) as u64,
        reward_returned: (s.reward_returned + rec.equivalent_agx) as u64,
        ..s
    }
}

/// The staking record once refunded.
pub open spec fn refunded_record(rec: StakingRecord) -> StakingRecord {
    StakingRecord { is_refunded: true, is_staked: false, ..rec }
}

/// Hands the staked USDT back in full, within 7 days of the purchase and
/// before any reward has been paid out, and closes the stake.
pub fn claim_refund(ctx: &mut ClaimRefund, record_id: u64, now: i64) -> (r: Result<Effects, AGXError>)
    requires
        !claim_refund_aborts(old(ctx).state, old(ctx).stake_record, old(ctx).user, record_id, now),
    ensures
        match claim_refund_error(old(ctx).state, old(ctx).stake_record, old(ctx).user, record_id, now) {
            Some(e) => r == Err::<Effects, AGXError>(e) && *final(ctx) == *old(ctx),
            None => r matches Ok(eff) && {
                &&& final(ctx).state == refunded_state(old(ctx).state, old(ctx).stake_record)
                &&& final(ctx).stake_record == refunded_record(old(ctx).stake_record)
                &&& final(ctx).user == old(ctx).user
                &&& eff.transfers@ == seq![transfer(Holder::UsdtVault, Holder::UserUsdt,
                    old(ctx).stake_record.staked_amount_usdt, true)]
                &&& eff.event == event(EVENT_REFUND, old(ctx).stake_record.user,
                    old(ctx).stake_record.staked_amount_usdt, old(ctx).stake_record.equivalent_agx,
                    old(ctx).stake_record.record_id)
            },
        },
        old(ctx).stake_record.well_formed() ==> final(ctx).stake_record.well_formed(),
        old(ctx).state.well_formed() ==> final(ctx).state.well_formed(),
{
    if ctx.user != ctx.stake_record.user {
        return Err(AGXError::ConstraintHasOne);
    }
    if ctx.state.emergency_paused {
        return Err(AGXError::EmergencyPaused);
    }
    if !ctx.stake_record.is_staked {
        return Err(AGXError::NotStaked);
    }
    if ctx.stake_record.is_refunded {
        return Err(AGXError::AlreadyRefunded);
    }
    if ctx.stake_record.released_tokens != 0 {
        return Err(AGXError::RefundForbiddenClaimed);
    }
    if ctx.stake_record.record_id != record_id {
        return Err(AGXError::InvalidRecordId);
    }
    let elapsed = now - ctx.stake_record.purchase_time;
    if elapsed > REFUND_WINDOW {
        return Err(AGXError::RefundWindowExpired);
    }
    ctx.stake_record.is_refunded = true;
    ctx.stake_record.is_staked = false;

    let total_reward = ctx.stake_record.total_reward_tokens;
    let agx = ctx.stake_record.equivalent_agx;
    ctx.state.reward_vault_reserved = ctx.state.reward_vault_reserved - total_reward;
    ctx.state.reward_vault_available = ctx.state.reward_vault_total - ctx.state.reward_vault_reserved;
    ctx.state.tokens_sold_reward = ctx.state.tokens_sold_reward.saturating_sub(agx);
    ctx.state.reward_sold = ctx.state.reward_sold.saturating_sub(agx);
    ctx.state.returned_counter = ctx.state.returned_counter + 1;
    ctx.state.reward_returned = ctx.state.reward_returned + agx;

    let mut transfers: Vec<TokenTransfer> = Vec::new();
    transfers.push(TokenTransfer {
        from: Holder::UsdtVault,
        to: Holder::UserUsdt,
        amount: ctx.stake_record.staked_amount_usdt,
        by_vault_authority: true,
    });
    Ok(Effects {
        transfers,
        event: ProgramEvent {
            event_type: EVENT_REFUND,
            user: ctx.stake_record.user,
            amount_1: ctx.stake_record.staked_amount_usdt,
            amount_2: agx,
            record_id: ctx.stake_record.record_id,
        },
    })
}

/// Whether `claim_refund` would run out of range on this input: the test
/// that a caller makes before the call.
pub fn claim_refund_overflows(ctx: &ClaimRefund, record_id: u64, now: i64) -> (r: bool)
    ensures
        r == claim_refund_aborts(ctx.state, ctx.stake_record, ctx.user, record_id, now),
{
    let rec = &ctx.stake_record;
    let s = &ctx.state;
    if ctx.user != rec.user || s.emergency_paused || !rec.is_staked || rec.is_refunded
        || rec.released_tokens != 0 || rec.record_id != record_id {
        return false;
    }
    let elapsed = match now.checked_sub(rec.purchase_time) {
        Some(e) => e,
        None => return true,
    };
    if elapsed > REFUND_WINDOW {
        return false;
    }
    if rec.total_reward_tokens > s.reward_vault_reserved {
        return true;
    }
    s.reward_vault_reserved - rec.total_reward_tokens > s.reward_vault_total
        || s.returned_counter == u64::MAX
        || s.reward_returned.checked_add(rec.equivalent_agx).is_none()
}

} // verus!
