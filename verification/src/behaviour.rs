use vstd::prelude::*;

use crate::accounts::{BuyAndStake, Initialize};
use crate::config::{
    accept_admin_error, admin_accepted, admin_proposed, configured_state, initial_state,
    set_emergency_pause_error, transfer_admin_error, update_config_error,
};
use crate::error::AGXError;
use crate::key::{zero_key, Key};
use crate::operational::{
    claim_operational_vault_aborts, claim_operational_vault_error, operational_claimed_state,
    vault_holder, vault_to_claim,
};
use crate::laws::lemma_release_schedule;
use crate::pricing::{active_price, agx_for_usdt, staking_tier};
use crate::staking::{
    bought_record, bought_state, buy_and_stake_aborts, buy_and_stake_error, claim_refund_aborts, claim_refund_error,
    claim_rewards_aborts, claim_rewards_error, claimable_now, refunded_record, refunded_state,
    rewards_claimed_record, rewards_claimed_state, tier_months, tier_multiplier,
};
use crate::state::{
    event, transfer, GlobalState, Holder, StakingRecord, EVENT_ADMIN_ACCEPT, EVENT_ADMIN_TRANSFER, EVENT_BUY,
    EVENT_CLAIM, EVENT_CONFIG, EVENT_OPERATIONAL_CLAIM, EVENT_PAUSE, EVENT_REFUND, EVENT_SWAP,
};
use crate::swap::{
    swap_agx, swap_agx_to_usdt_error, swap_back_usdt, swap_t20_aborts, swap_t20_error, swapped_state,
};

verus! {

/// The price schedule, step by step: 0.062 USDT for the first million AGX
/// sold, 0.072 for the second, 0.085 for the third, 0.095 for the fourth,
/// 0.10 for the fifth; past 5M, 0.10 USDT plus 0.000015 USDT for each full
/// thousand AGX sold beyond 5M.
pub proof fn lemma_price_schedule(sold: int)
    requires
        0 <= sold,
    ensures
        sold < 1_000_000_000_000_000 ==> active_price(sold) == 62_000,
        1_000_000_000_000_000 <= sold < 2_000_000_000_000_000 ==> active_price(sold) == 72_000,
        2_000_000_000_000_000 <= sold < 3_000_000_000_000_000 ==> active_price(sold) == 85_000,
        3_000_000_000_000_000 <= sold < 4_000_000_000_000_000 ==> active_price(sold) == 95_000,
        4_000_000_000_000_000 <= sold < 5_000_000_000_000_000 ==> active_price(sold) == 100_000,
        5_000_000_000_000_000 <= sold ==> active_price(sold)
            == 100_000 + 15 * ((sold - 5_000_000_000_000_000) / 1_000_000_000_000),
{
}

/// The staking tiers: below 100 USDT no tier; up to 2,500 USDT a 20-month
/// lock and 2x reward; up to 5,000 USDT 30 months and 3x; above, 40 months
/// and 4x.
pub proof fn lemma_tier_table(usdt_amount: u64)
    ensures
        usdt_amount < 100_000_000 ==> staking_tier(usdt_amount as int) is None,
        100_000_000 <= usdt_amount <= 2_500_000_000 ==> tier_months(usdt_amount) == 20
            && tier_multiplier(usdt_amount) == 2,
        2_500_000_000 < usdt_amount <= 5_000_000_000 ==> tier_months(usdt_amount) == 30
            && tier_multiplier(usdt_amount) == 3,
        5_000_000_000 < usdt_amount ==> tier_months(usdt_amount) == 40 && tier_multiplier(usdt_amount) == 4,
{
}

/// When `buy_and_stake` refuses: the pause, the purchase or staking switch,
/// a completed sale, less than 100 USDT, a purchase beyond the 30M hard cap
/// or a reward the reward vault cannot cover; nothing else.
pub proof fn lemma_buy_refusals(s: GlobalState, usdt_amount: u64)
    ensures
        ({
            let agx = (usdt_amount * 1_000_000_000) / active_price(s.tokens_sold_presale + s.tokens_sold_reward);
            let reward = agx * (if usdt_amount <= 2_500_000_000 { 2int } else if usdt_amount <= 5_000_000_000 { 3int } else { 4int });
            buy_and_stake_error(s, usdt_amount) == if s.emergency_paused {
                Some(AGXError::EmergencyPaused)
            } else if !s.buy_active {
                Some(AGXError::PurchaseInactive)
            } else if !s.stake_active {
                Some(AGXError::StakingInactive)
            } else if s.sale_completed {
                Some(AGXError::SalesCompleted)
            } else if s.reward_sale_completed {
                Some(AGXError::RewardSaleCompleted)
            } else if usdt_amount < 100_000_000 {
                Some(AGXError::BelowMinStake)
            } else if s.tokens_sold_presale + s.tokens_sold_reward + agx > 30_000_000_000_000_000 {
                Some(AGXError::HardCapReached)
            } else if s.reward_vault_available < reward {
                Some(AGXError::InsufficientRewardVault)
            } else {
                None
            }
        }),
{
}

/// What an accepted `buy_and_stake` does: it buys `usdt * 10^9 / price` AGX
/// at the price of the current sales, fills the first phase up to 5M and
/// counts the rest in the reward phase, closes the sale only at 30M sold (and
/// the reward phase only at 25M), reserves the tier's multiple of the AGX as
/// reward, counts one more transaction, and records the stake under the
/// transaction number with the tier's lock.
pub proof fn lemma_buy_outcome(ctx: BuyAndStake, usdt_amount: u64, now: i64)
    requires
        buy_and_stake_error(ctx.state, usdt_amount) is None,
        !buy_and_stake_aborts(ctx.state, usdt_amount),
    ensures
        ({
            let s = ctx.state;
            let t = bought_state(s, usdt_amount);
            let rec = bought_record(ctx, usdt_amount, now);
            let agx = (usdt_amount * 1_000_000_000) / active_price(s.tokens_sold_presale + s.tokens_sold_reward);
            let multiplier: int = if usdt_amount <= 2_500_000_000 { 2 } else if usdt_amount <= 5_000_000_000 { 3 } else { 4 };
            let months: int = if usdt_amount <= 2_500_000_000 { 20 } else if usdt_amount <= 5_000_000_000 { 30 } else { 40 };
            &&& t.tokens_sold_presale == (if s.tokens_sold_presale + agx <= 5_000_000_000_000_000 {
                    s.tokens_sold_presale + agx
                } else if s.tokens_sold_presale <= 5_000_000_000_000_000 {
                    5_000_000_000_000_000
                } else {
                    s.tokens_sold_presale as int
                })
            &&& t.tokens_sold_presale + t.tokens_sold_reward == s.tokens_sold_presale + s.tokens_sold_reward + agx
            &&& t.reward_sold - s.reward_sold == t.tokens_sold_reward - s.tokens_sold_reward
            &&& t.sale_completed == (t.tokens_sold_presale + t.tokens_sold_reward >= 30_000_000_000_000_000)
            &&& t.reward_sale_completed == (t.tokens_sold_reward >= 25_000_000_000_000_000)
            &&& rec.equivalent_agx == agx
            &&& rec.total_reward_tokens == agx * multiplier
            &&& rec.lock_duration_months == months
            &&& t.reward_vault_reserved == s.reward_vault_reserved + agx * multiplier
            &&& t.reward_vault_available == s.reward_vault_total - t.reward_vault_reserved
            &&& t.reward_vault_total == s.reward_vault_total
            &&& t.transaction_count == s.transaction_count + 1
            &&& t.sale_counter == s.sale_counter + agx
            &&& t.sale_transactions == s.sale_transactions + 1
            &&& t.reward_counter == s.reward_counter + 1
            &&& t.returned_counter == s.returned_counter && t.reward_paid == s.reward_paid
            &&& t.sell_price == s.sell_price && t.emergency_paused == s.emergency_paused
            &&& t.buy_active == s.buy_active && t.stake_active == s.stake_active
            &&& t.admin == s.admin && t.treasury_claimed == s.treasury_claimed
            &&& rec.record_id == s.transaction_count
            &&& rec.user == ctx.user
            &&& rec.staked_amount_usdt == usdt_amount
            &&& rec.released_tokens == 0
            &&& rec.purchase_time == now && rec.last_claim_time == now
            &&& rec.is_staked && !rec.is_refunded
        }),
{
}

/// The linear release of a stake's reward: after `e` of its own
/// `lock_duration_months` 30-day months, `total * e / lock` (rounded down)
/// is released in all; once the lock is over, the whole reward. A claim pays
/// what is released and not yet paid, and takes it out of the reservation.
pub proof fn lemma_claim_outcome(s: GlobalState, rec: StakingRecord, record_id: u64, now: i64)
    requires
        claim_rewards_error(s, rec, rec.user, record_id, now) is None,
        !claim_rewards_aborts(s, rec, rec.user, record_id, now),
    ensures
        ({
            let e = now - rec.purchase_time;
            let lock = rec.lock_duration_months * 2_592_000;
            let released = if e >= lock {
                rec.total_reward_tokens as int
            } else {
                (rec.total_reward_tokens * e) / lock
            };
            let r2 = rewards_claimed_record(rec, now);
            let t = rewards_claimed_state(s, rec, now);
            &&& e > 0
            &&& claimable_now(rec, now) == released - rec.released_tokens
            &&& released > rec.released_tokens
            &&& r2.released_tokens == released
            &&& r2.last_claim_time == now
            &&& r2.total_reward_tokens == rec.total_reward_tokens
            &&& r2.is_staked && !r2.is_refunded && r2.user == rec.user && r2.record_id == rec.record_id
            &&& t.reward_vault_reserved == s.reward_vault_reserved - (released - rec.released_tokens)
            &&& t.reward_paid == s.reward_paid + (released - rec.released_tokens)
            &&& t.reward_vault_available == s.reward_vault_available
            &&& t.tokens_sold_presale == s.tokens_sold_presale && t.tokens_sold_reward == s.tokens_sold_reward
        }),
{
    lemma_release_schedule(rec, now, now);
}

/// A reward claim at or before the purchase time finds nothing to pay.
pub proof fn lemma_no_claim_before_time(s: GlobalState, rec: StakingRecord, record_id: u64, now: i64)
    requires
        now <= rec.purchase_time,
        claim_rewards_error(s, rec, rec.user, record_id, now) != Some(AGXError::EmergencyPaused),
        s.claim_active,
        rec.is_staked,
        !rec.is_refunded,
        rec.record_id == record_id,
    ensures
        claim_rewards_error(s, rec, rec.user, record_id, now) == Some(AGXError::NoClaimableRewards),
{
}

/// When the owner's refund is granted: not paused, the stake open and
/// nothing paid out on it, the right record, and at most 7 days (604,800 s)
/// after the purchase. A granted refund frees the stake's whole reward,
/// makes everything else in the reward vault available again, takes the
/// stake's AGX off the reward-phase tallies (not below zero), leaves the
/// first-phase tally alone, and closes the stake.
pub proof fn lemma_refund_outcome(s: GlobalState, rec: StakingRecord, record_id: u64, now: i64)
    ensures
        (claim_refund_error(s, rec, rec.user, record_id, now) is None) == (!s.emergency_paused && rec.is_staked
            && !rec.is_refunded && rec.released_tokens == 0 && rec.record_id == record_id
            && now - rec.purchase_time <= 604_800),
        claim_refund_error(s, rec, rec.user, record_id, now) is None
            && !claim_refund_aborts(s, rec, rec.user, record_id, now) ==> ({
            let t = refunded_state(s, rec);
            let r2 = refunded_record(rec);
            &&& t.reward_vault_reserved == s.reward_vault_reserved - rec.total_reward_tokens
            &&& t.reward_vault_available == s.reward_vault_total - t.reward_vault_reserved
            &&& t.tokens_sold_reward == (if s.tokens_sold_reward >= rec.equivalent_agx {
                    s.tokens_sold_reward - rec.equivalent_agx
                } else {
                    0
                })
            &&& t.tokens_sold_presale == s.tokens_sold_presale
            &&& r2.is_refunded && !r2.is_staked
            &&& r2.staked_amount_usdt == rec.staked_amount_usdt
            &&& r2.released_tokens == 0
        }),
{
}

/// When `swap_t20` is granted, and what it sells: `usdt * 10^9 / sell_price`
/// AGX, counted in the activity counters only; the sales tallies that set
/// the staking price do not move.
pub proof fn lemma_swap_t20_outcome(s: GlobalState, usdt_amount: u64)
    ensures
        swap_t20_error(s) == if s.emergency_paused {
            Some(AGXError::EmergencyPaused)
        } else if !s.swap_active {
            Some(AGXError::SwapInactive)
        } else if s.sale_completed {
            Some(AGXError::SalesCompleted)
        } else if s.sell_price == 0 {
            Some(AGXError::PurchaseInactive)
        } else {
            None
        },
        swap_t20_error(s) is None && !swap_t20_aborts(s, usdt_amount) ==> ({
            let agx = (usdt_amount * 1_000_000_000) / (s.sell_price as int);
            let t = swapped_state(s, usdt_amount);
            &&& swap_agx(s, usdt_amount) == agx
            &&& t.sale_counter == s.sale_counter + agx
            &&& t.transaction_count == s.transaction_count + 1
            &&& t.sale_transactions == s.sale_transactions + 1
            &&& t.tokens_sold_presale == s.tokens_sold_presale
            &&& t.tokens_sold_reward == s.tokens_sold_reward
            &&& t.sale_completed == s.sale_completed
        }),
{
}

/// When `swap_agx_to_usdt` is granted, and what it pays: it needs only the
/// pause off, swaps on and a non-zero swap price, and a payment of at least
/// one USDT unit; the sale's progress and the other switches play no part.
/// It pays `(agx - agx * fee / 100) * sell_price / 10^9` USDT units.
pub proof fn lemma_swap_back_outcome(s: GlobalState, agx_amount: u64)
    ensures
        ({
            let paid = ((agx_amount - (agx_amount * s.swap_fee_percentage) / 100) * s.sell_price) / 1_000_000_000;
            &&& swap_back_usdt(s, agx_amount) == paid
            &&& swap_agx_to_usdt_error(s, agx_amount) == if s.emergency_paused {
                Some(AGXError::EmergencyPaused)
            } else if !s.swap_active {
                Some(AGXError::SwapInactive)
            } else if s.sell_price == 0 {
                Some(AGXError::PurchaseInactive)
            } else if paid <= 0 {
                Some(AGXError::BelowMinStake)
            } else {
                None
            }
        }),
{
}

/// The operational vaults' schedules: vault 1 (treasury) 12-month lock and
/// 50,000 AGX a month, vault 2 (development) 8 months and 25,000, vault 3
/// (marketing) 6 months and 12,500, vault 4 (roadmap) 12 months and 5,000;
/// a month is 2,592,000 s. An accepted claim pays from that vault's own
/// account, raises that vault's own tally to what is due (one monthly
/// release per month since the lock ended, the first in its last month, up
/// to 5M in all), and leaves the other three vaults alone.
pub proof fn lemma_operational_outcome(s: GlobalState, admin: Key, vault_type: u8, now: i64)
    requires
        claim_operational_vault_error(s, admin, vault_type, now) is None,
        !claim_operational_vault_aborts(s, admin, vault_type, now),
    ensures
        ({
            let (start, lock_months, rate, claimed) = if vault_type == 1 {
                (s.treasury_start_time, 12int, 50_000_000_000_000int, s.treasury_claimed)
            } else if vault_type == 2 {
                (s.development_start_time, 8int, 25_000_000_000_000int, s.development_claimed)
            } else if vault_type == 3 {
                (s.marketing_start_time, 6int, 12_500_000_000_000int, s.marketing_claimed)
            } else {
                (s.roadmap_start_time, 12int, 5_000_000_000_000int, s.roadmap_claimed)
            };
            let earned = ((now - start - lock_months * 2_592_000) / 2_592_000 + 1) * rate;
            let due = if earned < 5_000_000_000_000_000 { earned } else { 5_000_000_000_000_000 };
            let t = operational_claimed_state(s, vault_type, now);
            &&& 1 <= vault_type <= 4
            &&& now - start >= lock_months * 2_592_000
            &&& vault_to_claim(s, vault_type, now) == due - claimed
            &&& due > claimed
            &&& vault_type == 1 ==> vault_holder(vault_type) == Holder::TreasuryVault
                && t.treasury_claimed == due && t.development_claimed == s.development_claimed
                && t.marketing_claimed == s.marketing_claimed && t.roadmap_claimed == s.roadmap_claimed
            &&& vault_type == 2 ==> vault_holder(vault_type) == Holder::DevelopmentVault
                && t.development_claimed == due && t.treasury_claimed == s.treasury_claimed
                && t.marketing_claimed == s.marketing_claimed && t.roadmap_claimed == s.roadmap_claimed
            &&& vault_type == 3 ==> vault_holder(vault_type) == Holder::MarketingVault
                && t.marketing_claimed == due && t.treasury_claimed == s.treasury_claimed
                && t.development_claimed == s.development_claimed && t.roadmap_claimed == s.roadmap_claimed
            &&& vault_type == 4 ==> vault_holder(vault_type) == Holder::RoadmapVault
                && t.roadmap_claimed == due && t.treasury_claimed == s.treasury_claimed
                && t.development_claimed == s.development_claimed && t.marketing_claimed == s.marketing_claimed
            &&& t.admin == s.admin && t.tokens_sold_presale == s.tokens_sold_presale
            &&& t.reward_vault_reserved == s.reward_vault_reserved
        }),
{
}

/// The event kinds: 1 buy, 2 claim, 3 refund, 4 swap, 5 operational claim,
/// 6 pause, 7 configuration, 8 admin proposal, 9 admin acceptance; an event
/// and a transfer carry exactly the values they are built from.
pub proof fn lemma_event_and_transfer_records(
    kind: u8,
    user: Key,
    amount_1: u64,
    amount_2: u64,
    record_id: u64,
    from: Holder,
    to: Holder,
    amount: u64,
    by_vault: bool,
)
    ensures
        EVENT_BUY == 1 && EVENT_CLAIM == 2 && EVENT_REFUND == 3 && EVENT_SWAP == 4,
        EVENT_OPERATIONAL_CLAIM == 5 && EVENT_PAUSE == 6 && EVENT_CONFIG == 7,
        EVENT_ADMIN_TRANSFER == 8 && EVENT_ADMIN_ACCEPT == 9,
        event(kind, user, amount_1, amount_2, record_id).event_type == kind,
        event(kind, user, amount_1, amount_2, record_id).user == user,
        event(kind, user, amount_1, amount_2, record_id).amount_1 == amount_1,
        event(kind, user, amount_1, amount_2, record_id).amount_2 == amount_2,
        event(kind, user, amount_1, amount_2, record_id).record_id == record_id,
        transfer(from, to, amount, by_vault).from == from,
        transfer(from, to, amount, by_vault).to == to,
        transfer(from, to, amount, by_vault).amount == amount,
        transfer(from, to, amount, by_vault).by_vault_authority == by_vault,
        zero_key() == (Key { w0: 0, w1: 0, w2: 0, w3: 0 }),
        agx_for_usdt(amount as int, amount_1 as int) == (amount * 1_000_000_000) / (amount_1 as int),
{
}

/// What `initialize` sets up: the admin and the accounts as given, no
/// pending admin, every activity on and the pause off, the given swap price,
/// fee and bump, nothing sold, reserved, paid or claimed, a 25M reward pool
/// wholly available, and the four operational schedules starting at `now`.
pub proof fn lemma_launch_outcome(ctx: Initialize, sell_price: u64, fee: u64, bump: u8, now: i64)
    ensures
        ({
            let t = initial_state(ctx, sell_price, fee, bump, now);
            &&& t.admin == ctx.admin && t.pending_admin == (Key { w0: 0, w1: 0, w2: 0, w3: 0 })
            &&& t.token_mint == ctx.token_mint && t.usdt_mint == ctx.usdt_mint
            &&& t.usdt_vault == ctx.usdt_vault && t.reward_vault == ctx.reward_vault
            &&& t.presale_vault == ctx.presale_vault && t.treasury_vault == ctx.treasury_vault
            &&& t.development_vault == ctx.development_vault && t.marketing_vault == ctx.marketing_vault
            &&& t.roadmap_vault == ctx.roadmap_vault
            &&& t.vault_authority_bump == bump && t.sell_price == sell_price && t.swap_fee_percentage == fee
            &&& t.buy_active && t.claim_active && t.stake_active && t.swap_active && !t.emergency_paused
            &&& !t.sale_completed && !t.reward_sale_completed
            &&& t.transaction_count == 0 && t.tokens_sold_presale == 0 && t.tokens_sold_reward == 0
            &&& t.reward_vault_total == 25_000_000_000_000_000
            &&& t.reward_vault_reserved == 0
            &&& t.reward_vault_available == 25_000_000_000_000_000
            &&& t.treasury_claimed == 0 && t.development_claimed == 0
            &&& t.marketing_claimed == 0 && t.roadmap_claimed == 0
            &&& t.sale_counter == 0 && t.sale_transactions == 0 && t.reward_counter == 0
            &&& t.returned_counter == 0 && t.reward_paid == 0 && t.reward_returned == 0 && t.reward_sold == 0
            &&& t.treasury_start_time == now && t.development_start_time == now
            &&& t.marketing_start_time == now && t.roadmap_start_time == now
            &&& t.padding == ctx.state.padding
        }),
{
}

/// The admin instructions: only the recorded admin may sign them; the pause
/// blocks all but the pause switch; a proposal must name a real address and
/// only the proposed admin may accept. What they change and nothing else.
pub proof fn lemma_admin_instructions(
    s: GlobalState,
    signer: Key,
    new_admin: Key,
    flags: (bool, bool, bool, bool),
    price: u64,
    fee: u64,
)
    ensures
        update_config_error(s, signer) == if signer != s.admin {
            Some(AGXError::ConstraintHasOne)
        } else if s.emergency_paused {
            Some(AGXError::EmergencyPaused)
        } else {
            None
        },
        transfer_admin_error(s, signer, new_admin) == if signer != s.admin {
            Some(AGXError::ConstraintHasOne)
        } else if s.emergency_paused {
            Some(AGXError::EmergencyPaused)
        } else if new_admin == (Key { w0: 0, w1: 0, w2: 0, w3: 0 }) {
            Some(AGXError::InvalidAdminAddress)
        } else {
            None
        },
        accept_admin_error(s, signer) == if s.emergency_paused {
            Some(AGXError::EmergencyPaused)
        } else if signer != s.pending_admin {
            Some(AGXError::Unauthorized)
        } else {
            None
        },
        set_emergency_pause_error(s, signer) == if signer != s.admin {
            Some(AGXError::ConstraintHasOne)
        } else {
            None
        },
        ({
            let c = configured_state(s, flags.0, flags.1, flags.2, flags.3, price, fee);
            &&& c.buy_active == flags.0 && c.claim_active == flags.1
            &&& c.stake_active == flags.2 && c.swap_active == flags.3
            &&& c.sell_price == price && c.swap_fee_percentage == fee
            &&& c.admin == s.admin && c.emergency_paused == s.emergency_paused
            &&& c.tokens_sold_presale == s.tokens_sold_presale && c.reward_vault_reserved == s.reward_vault_reserved
        }),
        admin_proposed(s, new_admin).pending_admin == new_admin,
        admin_proposed(s, new_admin).admin == s.admin,
        admin_accepted(s).admin == s.pending_admin,
        admin_accepted(s).pending_admin == (Key { w0: 0, w1: 0, w2: 0, w3: 0 }),
        admin_accepted(s).emergency_paused == s.emergency_paused,
{
}

/// Why a reward claim is refused, in order: a signer who is not the owner,
/// the pause, claims switched off, a closed or refunded stake, another
/// record's id, a time not after the purchase, or nothing released and
/// unpaid.
pub proof fn lemma_claim_refusals(s: GlobalState, rec: StakingRecord, user: Key, record_id: u64, now: i64)
    requires
        !claim_rewards_aborts(s, rec, user, record_id, now),
    ensures
        claim_rewards_error(s, rec, user, record_id, now) == if user != rec.user {
            Some(AGXError::ConstraintHasOne)
        } else if s.emergency_paused {
            Some(AGXError::EmergencyPaused)
        } else if !s.claim_active {
            Some(AGXError::ClaimsInactive)
        } else if !rec.is_staked {
            Some(AGXError::NotStaked)
        } else if rec.is_refunded {
            Some(AGXError::AlreadyRefunded)
        } else if rec.record_id != record_id {
            Some(AGXError::InvalidRecordId)
        } else if now - rec.purchase_time <= 0 {
            Some(AGXError::NoClaimableRewards)
        } else if (if now - rec.purchase_time >= rec.lock_duration_months * 2_592_000 {
            rec.total_reward_tokens as int
        } else {
            (rec.total_reward_tokens * (now - rec.purchase_time)) / (rec.lock_duration_months * 2_592_000)
        }) <= rec.released_tokens {
            Some(AGXError::NoClaimableRewards)
        } else {
            None
        },
{
}

/// Why a refund is refused, in order: a signer who is not the owner, the
/// pause, a closed stake, a refunded stake, a stake with rewards paid,
/// another record's id, or more than 7 days since the purchase.
pub proof fn lemma_refund_refusals(s: GlobalState, rec: StakingRecord, user: Key, record_id: u64, now: i64)
    ensures
        claim_refund_error(s, rec, user, record_id, now) == if user != rec.user {
            Some(AGXError::ConstraintHasOne)
        } else if s.emergency_paused {
            Some(AGXError::EmergencyPaused)
        } else if !rec.is_staked {
            Some(AGXError::NotStaked)
        } else if rec.is_refunded {
            Some(AGXError::AlreadyRefunded)
        } else if rec.released_tokens != 0 {
            Some(AGXError::RefundForbiddenClaimed)
        } else if rec.record_id != record_id {
            Some(AGXError::InvalidRecordId)
        } else if now - rec.purchase_time > 604_800 {
            Some(AGXError::RefundWindowExpired)
        } else {
            None
        },
{
}

/// Why an operational claim is refused, in order: a signer who is not the
/// admin, the pause, a vault number other than 1 to 4, a lock not yet over,
/// or nothing due beyond what was released, which is reported as the cap
/// once the vault has released its 5M.
pub proof fn lemma_operational_refusals(s: GlobalState, admin: Key, vault_type: u8, now: i64)
    ensures
        admin != s.admin ==> claim_operational_vault_error(s, admin, vault_type, now)
            == Some(AGXError::ConstraintHasOne),
        admin == s.admin && s.emergency_paused ==> claim_operational_vault_error(s, admin, vault_type, now)
            == Some(AGXError::EmergencyPaused),
        admin == s.admin && !s.emergency_paused && !(1 <= vault_type <= 4)
            ==> claim_operational_vault_error(s, admin, vault_type, now) == Some(AGXError::InvalidVaultType),
        ({
            let (start, lock_months, rate, claimed) = if vault_type == 1 {
                (s.treasury_start_time, 12int, 50_000_000_000_000int, s.treasury_claimed)
            } else if vault_type == 2 {
                (s.development_start_time, 8int, 25_000_000_000_000int, s.development_claimed)
            } else if vault_type == 3 {
                (s.marketing_start_time, 6int, 12_500_000_000_000int, s.marketing_claimed)
            } else {
                (s.roadmap_start_time, 12int, 5_000_000_000_000int, s.roadmap_claimed)
            };
            let earned = ((now - start - lock_months * 2_592_000) / 2_592_000 + 1) * rate;
            let due = if earned < 5_000_000_000_000_000 { earned } else { 5_000_000_000_000_000 };
            admin == s.admin && !s.emergency_paused && 1 <= vault_type <= 4 ==>
                claim_operational_vault_error(s, admin, vault_type, now) == if now - start < lock_months * 2_592_000 {
                    Some(AGXError::OperationalTimeLocked)
                } else if due <= claimed {
                    if claimed >= 5_000_000_000_000_000 {
                        Some(AGXError::MaxOperationalLimitReached)
                    } else {
                        Some(AGXError::OperationalTimeLocked)
                    }
                } else {
                    None
                }
        }),
{
}

} // verus!
