use agx_ecosystem::accounts::{BuyAndStake, ClaimRefund, ClaimRewards, Initialize};
use agx_ecosystem::config::initialize;
use agx_ecosystem::error::AGXError;
use agx_ecosystem::key::Key;
use agx_ecosystem::staking::{
    buy_and_stake, buy_and_stake_overflows, claim_refund, claim_refund_overflows, claim_rewards,
    claim_rewards_overflows,
};
use agx_ecosystem::state::{GlobalState, Holder, StakingRecord, TokenTransfer};

const START: i64 = 1_700_000_000;
const MONTH: i64 = 2_592_000;

fn key(n: u64) -> Key {
    Key { w0: n, w1: n, w2: 0, w3: 0 }
}

fn zero_state() -> GlobalState {
    GlobalState {
        admin: key(0),
        pending_admin: key(0),
        token_mint: key(0),
        usdt_mint: key(0),
        usdt_vault: key(0),
        reward_vault: key(0),
        presale_vault: key(0),
        treasury_vault: key(0),
        development_vault: key(0),
        marketing_vault: key(0),
        roadmap_vault: key(0),
        vault_authority_bump: 0,
        buy_active: false,
        claim_active: false,
        stake_active: false,
        swap_active: false,
        emergency_paused: false,
        sell_price: 0,
        swap_fee_percentage: 0,
        transaction_count: 0,
        tokens_sold_presale: 0,
        tokens_sold_reward: 0,
        reward_vault_total: 0,
        reward_vault_reserved: 0,
        reward_vault_available: 0,
        treasury_claimed: 0,
        development_claimed: 0,
        marketing_claimed: 0,
        roadmap_claimed: 0,
        sale_completed: false,
        reward_sale_completed: false,
        sale_counter: 0,
        sale_transactions: 0,
        reward_counter: 0,
        returned_counter: 0,
        reward_paid: 0,
        reward_returned: 0,
        reward_sold: 0,
        treasury_start_time: 0,
        development_start_time: 0,
        marketing_start_time: 0,
        roadmap_start_time: 0,
        padding: [0u8; 64],
    }
}

fn empty_record() -> StakingRecord {
    StakingRecord {
        record_id: 0,
        user: key(0),
        staked_amount_usdt: 0,
        equivalent_agx: 0,
        total_reward_tokens: 0,
        released_tokens: 0,
        purchase_time: 0,
        last_claim_time: 0,
        lock_duration_months: 0,
        is_refunded: false,
        is_staked: false,
        padding: [0u8; 32],
    }
}

fn launched() -> GlobalState {
    let mut ctx = Initialize {
        state: zero_state(),
        admin: key(1),
        token_mint: key(2),
        usdt_mint: key(3),
        usdt_vault: key(4),
        reward_vault: key(5),
        presale_vault: key(6),
        treasury_vault: key(7),
        development_vault: key(8),
        marketing_vault: key(9),
        roadmap_vault: key(10),
    };
    initialize(&mut ctx, 100_000, 5, 254, START);
    ctx.state
}

fn buy(state: GlobalState, usdt: u64, now: i64) -> (BuyAndStake, Result<Vec<TokenTransfer>, AGXError>) {
    let mut ctx = BuyAndStake { state, stake_record: empty_record(), user: key(42) };
    assert!(!buy_and_stake_overflows(&ctx, usdt));
    let r = buy_and_stake(&mut ctx, usdt, now).map(|e| e.transfers);
    (ctx, r)
}

#[test]
fn buy_and_stake_first_purchase() {
    let (ctx, r) = buy(launched(), 1_000_000_000, START + 10);
    let mut eff_transfers = r.unwrap();
    assert_eq!(eff_transfers.len(), 1);
    assert_eq!(
        eff_transfers.pop().unwrap(),
        TokenTransfer { from: Holder::UserUsdt, to: Holder::UsdtVault, amount: 1_000_000_000, by_vault_authority: false }
    );
    // 1,000 USDT at 0.062 USDT
    assert_eq!(ctx.state.tokens_sold_presale, 16_129_032_258_064);
    assert_eq!(ctx.state.tokens_sold_reward, 0);
    assert_eq!(ctx.state.reward_vault_reserved, 32_258_064_516_128);
    assert_eq!(ctx.state.reward_vault_available, 25_000_000_000_000_000 - 32_258_064_516_128);
    assert_eq!(ctx.state.transaction_count, 1);
    assert_eq!(ctx.state.sale_counter, 16_129_032_258_064);
    assert_eq!(ctx.state.sale_transactions, 1);
    assert_eq!(ctx.state.reward_counter, 1);
    let rec = ctx.stake_record;
    assert_eq!(rec.record_id, 0);
    assert_eq!(rec.user, key(42));
    assert_eq!(rec.staked_amount_usdt, 1_000_000_000);
    assert_eq!(rec.equivalent_agx, 16_129_032_258_064);
    assert_eq!(rec.total_reward_tokens, 32_258_064_516_128);
    assert_eq!(rec.lock_duration_months, 20);
    assert_eq!(rec.purchase_time, START + 10);
    assert_eq!(rec.last_claim_time, START + 10);
    assert!(rec.is_staked && !rec.is_refunded);
    assert_eq!(rec.released_tokens, 0);
}

#[test]
fn buy_and_stake_event() {
    let mut ctx = BuyAndStake { state: launched(), stake_record: empty_record(), user: key(42) };
    ctx.state.transaction_count = 7;
    let eff = buy_and_stake(&mut ctx, 3_000_000_000, START).unwrap();
    assert_eq!(eff.event.event_type, 1);
    assert_eq!(eff.event.user, key(42));
    assert_eq!(eff.event.amount_1, 3_000_000_000);
    assert_eq!(eff.event.amount_2, 48_387_096_774_193);
    assert_eq!(eff.event.record_id, 7);
    // 3,000 USDT: 30 months, 3x
    assert_eq!(ctx.stake_record.lock_duration_months, 30);
    assert_eq!(ctx.stake_record.total_reward_tokens, 3 * 48_387_096_774_193);
}

#[test]
fn buy_and_stake_splits_across_the_first_phase_end() {
    let mut s = launched();
    s.tokens_sold_presale = 4_999_000_000_000_000; // 1,000 tokens short of 5M; price 0.10
    let (ctx, r) = buy(s, 1_000_000_000, START);
    assert!(r.is_ok());
    // 10,000 AGX bought: 1,000 close the first phase, 9,000 go beyond
    assert_eq!(ctx.state.tokens_sold_presale, 5_000_000_000_000_000);
    assert_eq!(ctx.state.tokens_sold_reward, 9_000_000_000_000);
    assert_eq!(ctx.state.reward_sold, 9_000_000_000_000);
}

#[test]
fn buy_and_stake_beyond_first_phase() {
    let mut s = launched();
    s.tokens_sold_presale = 5_000_000_000_000_000;
    s.tokens_sold_reward = 2_000_000_000_000;
    s.reward_sold = 2_000_000_000_000;
    let (ctx, r) = buy(s, 100_030_000, START);
    assert!(r.is_ok());
    // price 0.10003 USDT: exactly 1,000 AGX
    assert_eq!(ctx.state.tokens_sold_presale, 5_000_000_000_000_000);
    assert_eq!(ctx.state.tokens_sold_reward, 3_000_000_000_000);
    assert_eq!(ctx.state.reward_sold, 3_000_000_000_000);
    assert_eq!(ctx.stake_record.equivalent_agx, 1_000_000_000_000);
}

#[test]
fn buy_and_stake_completion_flags() {
    let mut s = launched();
    s.tokens_sold_presale = 5_000_000_000_000_000;
    s.tokens_sold_reward = 24_999_000_000_000_000;
    s.reward_sold = 24_999_000_000_000_000;
    // 1,000 tokens short of the cap; price 0.10 + 24,999 * 0.000015 = 0.474985 USDT
    let (ctx, r) = buy(s, 474_985_000, START);
    assert_eq!(r.clone().map(|_| ()), Ok(()));
    assert_eq!(ctx.state.tokens_sold_reward, 25_000_000_000_000_000);
    assert!(ctx.state.reward_sale_completed);
    assert!(ctx.state.sale_completed);
}

#[test]
fn buy_and_stake_refusals() {
    let mut s = launched();
    s.emergency_paused = true;
    assert_eq!(buy(s, 1_000_000_000, START).1, Err(AGXError::EmergencyPaused));
    let mut s = launched();
    s.buy_active = false;
    assert_eq!(buy(s, 1_000_000_000, START).1, Err(AGXError::PurchaseInactive));
    let mut s = launched();
    s.stake_active = false;
    assert_eq!(buy(s, 1_000_000_000, START).1, Err(AGXError::StakingInactive));
    let mut s = launched();
    s.sale_completed = true;
    assert_eq!(buy(s, 1_000_000_000, START).1, Err(AGXError::SalesCompleted));
    let mut s = launched();
    s.reward_sale_completed = true;
    assert_eq!(buy(s, 1_000_000_000, START).1, Err(AGXError::RewardSaleCompleted));
    assert_eq!(buy(launched(), 99_999_999, START).1, Err(AGXError::BelowMinStake));
}

#[test]
fn buy_and_stake_hard_cap() {
    let mut s = launched();
    s.tokens_sold_presale = 5_000_000_000_000_000;
    s.tokens_sold_reward = 24_999_999_000_000_000;
    s.reward_sold = 24_999_999_000_000_000;
    let before = s;
    let (ctx, r) = buy(s, 1_000_000_000, START);
    assert_eq!(r, Err(AGXError::HardCapReached));
    assert_eq!(ctx.state.tokens_sold_reward, before.tokens_sold_reward);
    assert_eq!(ctx.state.transaction_count, before.transaction_count);
}

#[test]
fn buy_and_stake_reward_vault_shortfall() {
    let mut s = launched();
    s.reward_vault_available = 32_258_064_516_127;
    let (ctx, r) = buy(s, 1_000_000_000, START);
    assert_eq!(r, Err(AGXError::InsufficientRewardVault));
    // a refused purchase leaves everything as it was
    assert_eq!(ctx.state.tokens_sold_presale, 0);
    assert_eq!(ctx.state.reward_vault_reserved, 0);
    assert!(!ctx.stake_record.is_staked);
}

#[test]
fn buy_and_stake_overflow_detection() {
    let ctx = BuyAndStake { state: launched(), stake_record: empty_record(), user: key(42) };
    assert!(buy_and_stake_overflows(&ctx, u64::MAX));
    assert!(!buy_and_stake_overflows(&ctx, 18_000_000_000));
    let mut paused = BuyAndStake { state: launched(), stake_record: empty_record(), user: key(42) };
    paused.state.emergency_paused = true;
    // refused before any arithmetic
    assert!(!buy_and_stake_overflows(&paused, u64::MAX));
    let mut counters = BuyAndStake { state: launched(), stake_record: empty_record(), user: key(42) };
    counters.state.transaction_count = u64::MAX;
    assert!(buy_and_stake_overflows(&counters, 1_000_000_000));
}

fn staked() -> (GlobalState, StakingRecord) {
    let (ctx, r) = buy(launched(), 1_000_000_000, START);
    assert!(r.is_ok());
    (ctx.state, ctx.stake_record)
}

#[test]
fn claim_rewards_halfway_and_at_the_end() {
    let (state, rec) = staked();
    let lock = 20 * MONTH;
    let mut ctx = ClaimRewards { state, stake_record: rec, user: key(42) };
    assert!(!claim_rewards_overflows(&ctx, 0, START + lock / 2));
    let eff = claim_rewards(&mut ctx, 0, START + lock / 2).unwrap();
    // elapsed is lock/2 - 0: half the reward is released (rounded down)
    let half = 32_258_064_516_128u128 * (lock as u128 / 2) / lock as u128;
    assert_eq!(ctx.stake_record.released_tokens as u128, half);
    assert_eq!(ctx.stake_record.last_claim_time, START + lock / 2);
    assert_eq!(ctx.state.reward_paid as u128, half);
    assert_eq!(ctx.state.reward_vault_reserved as u128, 32_258_064_516_128 - half);
    assert_eq!(
        eff.transfers,
        vec![TokenTransfer { from: Holder::RewardVault, to: Holder::UserToken, amount: half as u64, by_vault_authority: true }]
    );
    assert_eq!(eff.event.event_type, 2);
    assert_eq!(eff.event.amount_1 as u128, half);
    assert_eq!(eff.event.amount_2 as u128, half);

    let eff = claim_rewards(&mut ctx, 0, START + lock + 5).unwrap();
    assert_eq!(ctx.stake_record.released_tokens, 32_258_064_516_128);
    assert_eq!(eff.event.amount_2, 32_258_064_516_128);
    assert_eq!(eff.event.amount_1 as u128, 32_258_064_516_128 - half);
    assert_eq!(ctx.state.reward_vault_reserved, 0);
    assert_eq!(ctx.state.reward_paid, 32_258_064_516_128);

    // nothing more to release
    assert_eq!(claim_rewards(&mut ctx, 0, START + 2 * lock).map(|_| ()), Err(AGXError::NoClaimableRewards));
}

#[test]
fn claim_rewards_refusals() {
    let (state, rec) = staked();
    let mut ctx = ClaimRewards { state, stake_record: rec, user: key(42) };
    assert_eq!(claim_rewards(&mut ctx, 0, START).map(|_| ()), Err(AGXError::NoClaimableRewards));
    assert_eq!(claim_rewards(&mut ctx, 0, START - 100).map(|_| ()), Err(AGXError::NoClaimableRewards));
    assert_eq!(claim_rewards(&mut ctx, 3, START + MONTH).map(|_| ()), Err(AGXError::InvalidRecordId));
    ctx.state.claim_active = false;
    assert_eq!(claim_rewards(&mut ctx, 0, START + MONTH).map(|_| ()), Err(AGXError::ClaimsInactive));
    ctx.state.claim_active = true;
    ctx.state.emergency_paused = true;
    assert_eq!(claim_rewards(&mut ctx, 0, START + MONTH).map(|_| ()), Err(AGXError::EmergencyPaused));
    ctx.state.emergency_paused = false;
    ctx.stake_record.is_refunded = true;
    assert_eq!(claim_rewards(&mut ctx, 0, START + MONTH).map(|_| ()), Err(AGXError::AlreadyRefunded));
    ctx.stake_record.is_staked = false;
    assert_eq!(claim_rewards(&mut ctx, 0, START + MONTH).map(|_| ()), Err(AGXError::NotStaked));
    assert_eq!(ctx.state.reward_paid, 0);
}

#[test]
fn claim_rewards_overflow_detection() {
    let (state, rec) = staked();
    let ctx = ClaimRewards { state, stake_record: rec, user: key(42) };
    assert!(claim_rewards_overflows(&ctx, 0, i64::MIN));
    let mut over_released = ClaimRewards { state, stake_record: rec, user: key(42) };
    over_released.stake_record.released_tokens = 32_258_064_516_128;
    assert!(claim_rewards_overflows(&over_released, 0, START + MONTH));
    assert!(!claim_rewards_overflows(&ctx, 0, START + MONTH));
}

#[test]
fn claim_refund_within_a_week() {
    let (state, rec) = staked();
    let mut ctx = ClaimRefund { state, stake_record: rec, user: key(42) };
    assert!(!claim_refund_overflows(&ctx, 0, START + 604_800));
    let eff = claim_refund(&mut ctx, 0, START + 604_800).unwrap();
    assert_eq!(
        eff.transfers,
        vec![TokenTransfer { from: Holder::UsdtVault, to: Holder::UserUsdt, amount: 1_000_000_000, by_vault_authority: true }]
    );
    assert_eq!(eff.event.event_type, 3);
    assert_eq!(eff.event.amount_1, 1_000_000_000);
    assert_eq!(eff.event.amount_2, 16_129_032_258_064);
    assert!(ctx.stake_record.is_refunded && !ctx.stake_record.is_staked);
    assert_eq!(ctx.state.reward_vault_reserved, 0);
    assert_eq!(ctx.state.reward_vault_available, 25_000_000_000_000_000);
    assert_eq!(ctx.state.returned_counter, 1);
    assert_eq!(ctx.state.reward_returned, 16_129_032_258_064);
    // the purchase stayed in the first phase: the reward-phase tallies stay at 0
    assert_eq!(ctx.state.tokens_sold_reward, 0);
    assert_eq!(ctx.state.reward_sold, 0);
    assert_eq!(ctx.state.tokens_sold_presale, 16_129_032_258_064);
    // a second refund is refused
    assert_eq!(claim_refund(&mut ctx, 0, START + 10).map(|_| ()), Err(AGXError::NotStaked));
}

#[test]
fn claim_refund_refusals() {
    let (state, rec) = staked();
    let mut ctx = ClaimRefund { state, stake_record: rec, user: key(42) };
    assert_eq!(claim_refund(&mut ctx, 0, START + 604_801).map(|_| ()), Err(AGXError::RefundWindowExpired));
    assert_eq!(claim_refund(&mut ctx, 9, START).map(|_| ()), Err(AGXError::InvalidRecordId));
    ctx.stake_record.released_tokens = 1;
    assert_eq!(claim_refund(&mut ctx, 0, START).map(|_| ()), Err(AGXError::RefundForbiddenClaimed));
    ctx.stake_record.is_refunded = true;
    assert_eq!(claim_refund(&mut ctx, 0, START).map(|_| ()), Err(AGXError::AlreadyRefunded));
    ctx.state.emergency_paused = true;
    assert_eq!(claim_refund(&mut ctx, 0, START).map(|_| ()), Err(AGXError::EmergencyPaused));
    assert_eq!(ctx.state.returned_counter, 0);
}

#[test]
fn claim_refund_overflow_detection() {
    let (state, rec) = staked();
    let mut ctx = ClaimRefund { state, stake_record: rec, user: key(42) };
    ctx.state.reward_vault_reserved = 0;
    assert!(claim_refund_overflows(&ctx, 0, START));
    let ctx = ClaimRefund { state, stake_record: rec, user: key(42) };
    assert!(!claim_refund_overflows(&ctx, 0, START));
    // beyond the window the refund is refused, with no arithmetic
    let mut late = ClaimRefund { state, stake_record: rec, user: key(42) };
    late.state.reward_vault_reserved = 0;
    assert!(!claim_refund_overflows(&late, 0, START + 604_801));
}

#[test]
fn claim_forbids_later_refund() {
    let (state, rec) = staked();
    let mut claim = ClaimRewards { state, stake_record: rec, user: key(42) };
    claim_rewards(&mut claim, 0, START + 1_000).unwrap();
    let mut refund = ClaimRefund { state: claim.state, stake_record: claim.stake_record, user: key(42) };
    assert_eq!(claim_refund(&mut refund, 0, START + 2_000).map(|_| ()), Err(AGXError::RefundForbiddenClaimed));
}

#[test]
fn refund_frees_the_reservation_of_a_mixed_purchase() {
    let mut s = launched();
    s.tokens_sold_presale = 4_999_000_000_000_000;
    s.reward_vault_reserved = 7;
    s.reward_vault_available = 25_000_000_000_000_000 - 7;
    let (ctx, r) = buy(s, 1_000_000_000, START);
    assert!(r.is_ok());
    let mut refund = ClaimRefund { state: ctx.state, stake_record: ctx.stake_record, user: key(42) };
    claim_refund(&mut refund, 0, START + 60).unwrap();
    assert_eq!(refund.state.reward_vault_reserved, 7);
    // the whole purchase leaves the reward-phase tally, which saturates at 0
    assert_eq!(refund.state.tokens_sold_reward, 0);
    assert_eq!(refund.state.tokens_sold_presale, 5_000_000_000_000_000);
}
