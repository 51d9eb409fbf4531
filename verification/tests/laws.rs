use agx_ecosystem::accounts::{
    AcceptAdmin, BuyAndStake, ClaimOperationalVault, ClaimRefund, ClaimRewards, Initialize, SwapAgxToUsdt,
    SwapT20, TransferAdmin, UpdateConfig,
};
use agx_ecosystem::config::{accept_admin, initialize, transfer_admin, update_config};
use agx_ecosystem::error::AGXError;
use agx_ecosystem::key::Key;
use agx_ecosystem::operational::claim_operational_vault;
use agx_ecosystem::staking::{buy_and_stake, claim_refund, claim_rewards};
use agx_ecosystem::state::{GlobalState, StakingRecord};
use agx_ecosystem::swap::{swap_agx_to_usdt, swap_t20};

const START: i64 = 1_000_000;
const MONTH: i64 = 2_592_000;

fn key(n: u64) -> Key {
    Key { w0: n, w1: n, w2: n, w3: n }
}

fn blank_record() -> StakingRecord {
    StakingRecord {
        record_id: 0, user: key(0), staked_amount_usdt: 0, equivalent_agx: 0, total_reward_tokens: 0,
        released_tokens: 0, purchase_time: 0, last_claim_time: 0, lock_duration_months: 0,
        is_refunded: false, is_staked: false, padding: [0u8; 32],
    }
}

fn launched() -> GlobalState {
    let blank = key(0);
    let mut ctx = Initialize {
        state: GlobalState {
            admin: blank, pending_admin: blank, token_mint: blank, usdt_mint: blank, usdt_vault: blank,
            reward_vault: blank, presale_vault: blank, treasury_vault: blank, development_vault: blank,
            marketing_vault: blank, roadmap_vault: blank, vault_authority_bump: 0, buy_active: false,
            claim_active: false, stake_active: false, swap_active: false, emergency_paused: false,
            sell_price: 0, swap_fee_percentage: 0, transaction_count: 0, tokens_sold_presale: 0,
            tokens_sold_reward: 0, reward_vault_total: 0, reward_vault_reserved: 0, reward_vault_available: 0,
            treasury_claimed: 0, development_claimed: 0, marketing_claimed: 0, roadmap_claimed: 0,
            sale_completed: false, reward_sale_completed: false, sale_counter: 0, sale_transactions: 0,
            reward_counter: 0, returned_counter: 0, reward_paid: 0, reward_returned: 0, reward_sold: 0,
            treasury_start_time: 0, development_start_time: 0, marketing_start_time: 0, roadmap_start_time: 0,
            padding: [0u8; 64],
        },
        admin: key(1), token_mint: key(2), usdt_mint: key(3), usdt_vault: key(4), reward_vault: key(5),
        presale_vault: key(6), treasury_vault: key(7), development_vault: key(8), marketing_vault: key(9),
        roadmap_vault: key(10),
    };
    initialize(&mut ctx, 100_000, 5, 254, START);
    ctx.state
}

fn well_formed(s: &GlobalState) -> bool {
    s.tokens_sold_presale <= 5_000_000_000_000_000
        && s.tokens_sold_presale as u128 + s.tokens_sold_reward as u128 <= 30_000_000_000_000_000
        && s.reward_vault_total == 25_000_000_000_000_000
        && s.reward_vault_reserved as u128 + s.reward_vault_available as u128 <= s.reward_vault_total as u128
        && s.reward_sold == s.tokens_sold_reward
        && s.treasury_claimed <= 5_000_000_000_000_000
        && s.development_claimed <= 5_000_000_000_000_000
        && s.marketing_claimed <= 5_000_000_000_000_000
        && s.roadmap_claimed <= 5_000_000_000_000_000
}

fn owed(r: &StakingRecord) -> u64 {
    if r.is_staked && !r.is_refunded { r.total_reward_tokens - r.released_tokens } else { 0 }
}

#[test]
fn pause_blocks_every_instruction() {
    let mut s = launched();
    s.emergency_paused = true;
    let mut rec = blank_record();
    rec.user = key(5);
    let paused = Err(AGXError::EmergencyPaused);
    assert_eq!(update_config(&mut UpdateConfig { state: s, admin: key(1) }, true, true, true, true, 1, 1).map(|_| ()), paused);
    assert_eq!(buy_and_stake(&mut BuyAndStake { state: s, stake_record: rec, user: key(5) }, 1_000_000_000, START).map(|_| ()), paused);
    assert_eq!(claim_rewards(&mut ClaimRewards { state: s, stake_record: rec, user: key(5) }, 0, START).map(|_| ()), paused);
    assert_eq!(claim_refund(&mut ClaimRefund { state: s, stake_record: rec, user: key(5) }, 0, START).map(|_| ()), paused);
    assert_eq!(swap_t20(&mut SwapT20 { state: s, user: key(5) }, 1_000_000).map(|_| ()), paused);
    assert_eq!(swap_agx_to_usdt(&mut SwapAgxToUsdt { state: s, user: key(5) }, 1_000_000_000).map(|_| ()), paused);
    assert_eq!(claim_operational_vault(&mut ClaimOperationalVault { state: s, admin: key(1) }, 1, START + 20 * MONTH).map(|_| ()), paused);
    assert_eq!(transfer_admin(&mut TransferAdmin { state: s, admin: key(1) }, key(9)).map(|_| ()), paused);
    assert_eq!(accept_admin(&mut AcceptAdmin { state: s, pending_admin: key(0) }).map(|_| ()), paused);
}

#[test]
fn purchases_are_fully_accounted() {
    let mut s = launched();
    s.tokens_sold_presale = 4_999_500_000_000_000;
    let before = s;
    let mut ctx = BuyAndStake { state: s, stake_record: blank_record(), user: key(5) };
    buy_and_stake(&mut ctx, 5_000_000_000, START).unwrap();
    let agx = ctx.stake_record.equivalent_agx;
    assert_eq!(
        ctx.state.tokens_sold_presale + ctx.state.tokens_sold_reward,
        before.tokens_sold_presale + before.tokens_sold_reward + agx
    );
    assert_eq!(ctx.state.reward_vault_reserved, ctx.stake_record.total_reward_tokens);
    assert_eq!(ctx.stake_record.total_reward_tokens, 3 * agx);
}

#[test]
fn reservation_follows_owed_rewards_and_state_stays_well_formed() {
    let mut state = launched();
    let mut records: Vec<StakingRecord> = Vec::new();
    let amounts: [u64; 4] = [1_000_000_000, 4_000_000_000, 100_000_000, 9_000_000_000];
    for (i, usdt) in amounts.iter().enumerate() {
        let mut ctx = BuyAndStake { state, stake_record: blank_record(), user: key(100 + i as u64) };
        buy_and_stake(&mut ctx, *usdt, START + i as i64).unwrap();
        state = ctx.state;
        records.push(ctx.stake_record);
        assert!(well_formed(&state));
        assert_eq!(state.reward_vault_reserved, records.iter().map(owed).sum::<u64>());
    }
    // a swap does not touch the reservation
    let mut swap = SwapT20 { state, user: key(7) };
    swap_t20(&mut swap, 2_000_000).unwrap();
    state = swap.state;
    // the second stake is refunded, the first claims twice, the fourth once
    let mut refund = ClaimRefund { state, stake_record: records[1], user: key(101) };
    claim_refund(&mut refund, records[1].record_id, START + 3_600).unwrap();
    state = refund.state;
    records[1] = refund.stake_record;
    assert!(well_formed(&state));
    assert_eq!(state.reward_vault_reserved, records.iter().map(owed).sum::<u64>());
    for (idx, when) in [(0usize, START + 5 * MONTH), (0, START + 25 * MONTH), (3, START + 10 * MONTH)] {
        let mut claim = ClaimRewards { state, stake_record: records[idx], user: key(100 + idx as u64) };
        claim_rewards(&mut claim, records[idx].record_id, when).unwrap();
        state = claim.state;
        records[idx] = claim.stake_record;
        assert!(records[idx].released_tokens <= records[idx].total_reward_tokens);
        assert!(well_formed(&state));
        assert_eq!(state.reward_vault_reserved, records.iter().map(owed).sum::<u64>());
    }
    // the first stake's lock is over: its whole reward has been paid
    assert_eq!(records[0].released_tokens, records[0].total_reward_tokens);
    assert_eq!(owed(&records[0]), 0);
}

#[test]
fn refunded_stake_earns_nothing() {
    let mut ctx = BuyAndStake { state: launched(), stake_record: blank_record(), user: key(5) };
    buy_and_stake(&mut ctx, 1_000_000_000, START).unwrap();
    let mut refund = ClaimRefund { state: ctx.state, stake_record: ctx.stake_record, user: key(5) };
    claim_refund(&mut refund, 0, START + 5).unwrap();
    let mut claim = ClaimRewards { state: refund.state, stake_record: refund.stake_record, user: key(5) };
    assert_eq!(claim_rewards(&mut claim, 0, START + 30 * MONTH).map(|_| ()), Err(AGXError::NotStaked));
}

#[test]
fn released_reward_grows_with_time_and_stops_at_the_total() {
    let mut ctx = BuyAndStake { state: launched(), stake_record: blank_record(), user: key(5) };
    buy_and_stake(&mut ctx, 6_000_000_000, START).unwrap();
    let total = ctx.stake_record.total_reward_tokens;
    let mut state = ctx.state;
    let mut rec = ctx.stake_record;
    let mut last = 0u64;
    for months in [1i64, 7, 13, 39, 40, 41, 80] {
        let mut claim = ClaimRewards { state, stake_record: rec, user: key(5) };
        match claim_rewards(&mut claim, 0, START + months * MONTH) {
            Ok(_) => {
                state = claim.state;
                rec = claim.stake_record;
            }
            Err(e) => assert_eq!(e, AGXError::NoClaimableRewards),
        }
        assert!(rec.released_tokens >= last);
        assert!(rec.released_tokens <= total);
        last = rec.released_tokens;
    }
    assert_eq!(rec.released_tokens, total);
    assert_eq!(state.reward_paid, total);
}

#[test]
fn split_claims_pay_the_same() {
    let mut ctx = BuyAndStake { state: launched(), stake_record: blank_record(), user: key(5) };
    buy_and_stake(&mut ctx, 3_000_000_000, START).unwrap();
    let mut a = ClaimRewards { state: ctx.state, stake_record: ctx.stake_record, user: key(5) };
    let p1 = claim_rewards(&mut a, 0, START + 7 * MONTH + 3).unwrap().transfers[0].amount;
    let p2 = claim_rewards(&mut a, 0, START + 19 * MONTH + 11).unwrap().transfers[0].amount;
    let mut b = ClaimRewards { state: ctx.state, stake_record: ctx.stake_record, user: key(5) };
    let whole = claim_rewards(&mut b, 0, START + 19 * MONTH + 11).unwrap().transfers[0].amount;
    assert_eq!(p1 + p2, whole);
    assert_eq!(a.stake_record.released_tokens, b.stake_record.released_tokens);
    assert_eq!(a.state.reward_paid, b.state.reward_paid);
    assert_eq!(a.state.reward_vault_reserved, b.state.reward_vault_reserved);
    // and a second claim at the same moment finds nothing
    assert_eq!(claim_rewards(&mut b, 0, START + 19 * MONTH + 11).map(|_| ()), Err(AGXError::NoClaimableRewards));
}

#[test]
fn swap_round_trip_never_gains() {
    for (usdt, price, fee) in [(1_000_000u64, 100_000u64, 5u64), (7_777_777, 62_001, 0), (123, 3, 1), (10_000_000, 1_000_000_000, 0)] {
        let mut s = launched();
        s.sell_price = price;
        s.swap_fee_percentage = fee;
        let mut buy = SwapT20 { state: s, user: key(5) };
        let agx = swap_t20(&mut buy, usdt).unwrap().transfers[1].amount;
        let mut sell = SwapAgxToUsdt { state: buy.state, user: key(5) };
        match swap_agx_to_usdt(&mut sell, agx) {
            Ok(eff) => assert!(eff.transfers[1].amount <= usdt),
            Err(e) => assert_eq!(e, AGXError::BelowMinStake),
        }
    }
}
