use agx_ecosystem::error::AGXError;
use agx_ecosystem::key::Key;
use agx_ecosystem::pricing::{convert_usdt_to_agx, determine_staking_tier, get_active_price};
use agx_ecosystem::state::GlobalState;

fn key(n: u64) -> Key {
    Key { w0: n, w1: 0, w2: 0, w3: 0 }
}

fn state_with_sales(presale: u64, beyond: u64) -> GlobalState {
    GlobalState {
        admin: key(1),
        pending_admin: key(0),
        token_mint: key(2),
        usdt_mint: key(3),
        usdt_vault: key(4),
        reward_vault: key(5),
        presale_vault: key(6),
        treasury_vault: key(7),
        development_vault: key(8),
        marketing_vault: key(9),
        roadmap_vault: key(10),
        vault_authority_bump: 254,
        buy_active: true,
        claim_active: true,
        stake_active: true,
        swap_active: true,
        emergency_paused: false,
        sell_price: 100_000,
        swap_fee_percentage: 5,
        transaction_count: 0,
        tokens_sold_presale: presale,
        tokens_sold_reward: beyond,
        reward_vault_total: 25_000_000_000_000_000,
        reward_vault_reserved: 0,
        reward_vault_available: 25_000_000_000_000_000,
        treasury_claimed: 0,
        development_claimed: 0,
        marketing_claimed: 0,
        roadmap_claimed: 0,
        sale_completed: false,
        reward_sale_completed: false,
        sale_counter: 0,
        sale_transactions: 0,
        reward_counter: 0,
        returned_counter: 0,
        reward_paid: 0,
        reward_returned: 0,
        reward_sold: beyond,
        treasury_start_time: 0,
        development_start_time: 0,
        marketing_start_time: 0,
        roadmap_start_time: 0,
        padding: [0u8; 64],
    }
}

#[test]
fn first_phase_price_steps() {
    assert_eq!(get_active_price(&state_with_sales(0, 0)), Ok(62_000));
    assert_eq!(get_active_price(&state_with_sales(999_999_999_999_999, 0)), Ok(62_000));
    assert_eq!(get_active_price(&state_with_sales(1_000_000_000_000_000, 0)), Ok(72_000));
    assert_eq!(get_active_price(&state_with_sales(2_000_000_000_000_000, 0)), Ok(85_000));
    assert_eq!(get_active_price(&state_with_sales(3_000_000_000_000_000, 0)), Ok(95_000));
    assert_eq!(get_active_price(&state_with_sales(4_000_000_000_000_000, 0)), Ok(100_000));
    assert_eq!(get_active_price(&state_with_sales(4_999_999_999_999_999, 0)), Ok(100_000));
}

#[test]
fn second_phase_price_rises_per_thousand_tokens() {
    assert_eq!(get_active_price(&state_with_sales(5_000_000_000_000_000, 0)), Ok(100_000));
    assert_eq!(get_active_price(&state_with_sales(5_000_000_000_000_000, 999_999_999_999)), Ok(100_000));
    assert_eq!(get_active_price(&state_with_sales(5_000_000_000_000_000, 1_000_000_000_000)), Ok(100_015));
    assert_eq!(get_active_price(&state_with_sales(5_000_000_000_000_000, 1_500_000_000_000)), Ok(100_015));
    assert_eq!(get_active_price(&state_with_sales(5_000_000_000_000_000, 1_000_000_000_000_000)), Ok(115_000));
    // the price follows the sum of both tallies
    assert_eq!(get_active_price(&state_with_sales(3_000_000_000_000_000, 3_000_000_000_000_000)), Ok(115_000));
}

#[test]
fn price_never_falls_on_sample_points() {
    let points: [u64; 9] = [
        0,
        1_000_000_000_000_000,
        2_500_000_000_000_000,
        3_999_999_999_999_999,
        4_000_000_000_000_000,
        5_000_000_000_000_000,
        5_000_000_000_000_001,
        12_000_000_000_000_000,
        30_000_000_000_000_000,
    ];
    let mut last = 0u64;
    for p in points.iter() {
        let price = get_active_price(&state_with_sales(*p, 0)).unwrap();
        assert!(price >= last);
        assert!(price >= 62_000);
        last = price;
    }
}

#[test]
fn staking_tiers() {
    assert_eq!(determine_staking_tier(99_999_999), Err(AGXError::BelowMinStake));
    assert_eq!(determine_staking_tier(0), Err(AGXError::BelowMinStake));
    assert_eq!(determine_staking_tier(100_000_000), Ok((20, 2)));
    assert_eq!(determine_staking_tier(2_500_000_000), Ok((20, 2)));
    assert_eq!(determine_staking_tier(2_500_000_001), Ok((30, 3)));
    assert_eq!(determine_staking_tier(5_000_000_000), Ok((30, 3)));
    assert_eq!(determine_staking_tier(5_000_000_001), Ok((40, 4)));
    assert_eq!(determine_staking_tier(u64::MAX), Ok((40, 4)));
}

#[test]
fn larger_stakes_get_richer_tiers_on_samples() {
    let amounts: [u64; 6] = [100_000_000, 2_500_000_000, 2_500_000_001, 5_000_000_000, 5_000_000_001, 90_000_000_000];
    for w in amounts.windows(2) {
        let (m1, x1) = determine_staking_tier(w[0]).unwrap();
        let (m2, x2) = determine_staking_tier(w[1]).unwrap();
        assert!(m1 <= m2 && x1 <= x2);
    }
}

#[test]
fn usdt_to_agx_conversion() {
    // 1,000 USDT at 0.062 USDT
    assert_eq!(convert_usdt_to_agx(1_000_000_000, 62_000), 16_129_032_258_064);
    // 1 USDT at 0.10 USDT: 10 AGX
    assert_eq!(convert_usdt_to_agx(1_000_000, 100_000), 10_000_000_000);
}
