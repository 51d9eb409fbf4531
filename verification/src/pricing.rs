use vstd::prelude::*;

use crate::error::AGXError;
use crate::state::{GlobalState, AGX_UNIT, MIN_STAKE_USDT, PRESALE_CAP};

verus! {

/// The price of one AGX in USDT base units (6 decimals) once `sold` AGX base
/// units have been sold: fixed steps of 0.062, 0.072, 0.085, 0.095 and 0.10
/// USDT for each million tokens of the first phase, then 0.10 USDT plus
/// 0.000015 USDT for every thousand tokens sold beyond 5M.
pub open spec fn active_price(sold: int) -> int {
    if sold < 1_000_000_000_000_000 {
        62_000
    } else if sold < 2_000_000_000_000_000 {
        72_000
    } else if sold < 3_000_000_000_000_000 {
        85_000
    } else if sold < 4_000_000_000_000_000 {
        95_000
    } else if sold < PRESALE_CAP {
        100_000
    } else {
        100_000 + ((sold - PRESALE_CAP) / 1_000_000_000_000) * 15
    }
}

/// The active price for the current sales of `state`.
pub fn get_active_price(state: &GlobalState) -> (r: Result<u64, AGXError>)
    requires
        state.sold() <= u64::MAX,
    ensures
        r == Ok::<u64, AGXError>(active_price(state.sold()) as u64),
        62_000 <= active_price(state.sold()) <= u64::MAX,
{
    let total_sold = state.tokens_sold_presale + state.tokens_sold_reward;
    if total_sold < 1_000_000_000_000_000u64 {
        Ok(62_000u64)
    } else if total_sold < 2_000_000_000_000_000u64 {
        Ok(72_000u64)
    } else if total_sold < 3_000_000_000_000_000u64 {
        Ok(85_000u64)
    } else if total_sold < 4_000_000_000_000_000u64 {
        Ok(95_000u64)
    } else if total_sold < PRESALE_CAP {
        Ok(100_000u64)
    } else {
        let phase2_sold = total_sold - PRESALE_CAP;
        let thousand_tokens_chunks = phase2_sold / 1_000_000_000_000u64;
        assert(thousand_tokens_chunks <= 18_446_745) by {
            assert(phase2_sold <= u64::MAX);
        }
        let increment_amount = thousand_tokens_chunks * 15u64;
        Ok(100_000u64 + increment_amount)
    }
}

/// The lock (in months) and reward multiplier of a stake of `usdt_amount`
/// USDT base units: 20 months and 2x from 100 to 2,500 USDT, 30 months and
/// 3x up to 5,000 USDT, 40 months and 4x above; none below 100 USDT.
pub open spec fn staking_tier(usdt_amount: int) -> Option<(u8, u8)> {
    if MIN_STAKE_USDT <= usdt_amount <= 2_500_000_000 {
        Some((20u8, 2u8))
    } else if 2_500_000_000 < usdt_amount <= 5_000_000_000 {
        Some((30u8, 3u8))
    } else if usdt_amount > 5_000_000_000 {
        Some((40u8, 4u8))
    } else {
        None
    }
}

/// The staking tier of `usdt_amount`, or `BelowMinStake` under 100 USDT.
pub fn determine_staking_tier(usdt_amount: u64) -> (r: Result<(u8, u8), AGXError>)
    ensures
        match staking_tier(usdt_amount as int) {
            Some(t) => r == Ok::<(u8, u8), AGXError>(t),
            None => r == Err::<(u8, u8), AGXError>(AGXError::BelowMinStake),
        },
        r is Err <==> usdt_amount < MIN_STAKE_USDT,
{
    if usdt_amount >= 100_000_000u64 && usdt_amount <= 2_500_000_000u64 {
        Ok((20, 2))
    } else if usdt_amount > 2_500_000_000u64 && usdt_amount <= 5_000_000_000u64 {
        Ok((30, 3))
    } else if usdt_amount > 5_000_000_000u64 {
        Ok((40, 4))
    } else {
        Err(AGXError::BelowMinStake)
    }
}

/// AGX base units bought with `usdt_amount` USDT base units at `price`.
pub open spec fn agx_for_usdt(usdt_amount: int, price: int) -> int {
    (usdt_amount * AGX_UNIT) / price
}

/// `agx_for_usdt`, for amounts whose scaling to AGX units fits in 64 bits.
pub fn convert_usdt_to_agx(usdt_amount: u64, price: u64) -> (r: u64)
    requires
        price > 0,
        usdt_amount * AGX_UNIT <= u64::MAX,
    ensures
        r == agx_for_usdt(usdt_amount as int, price as int),
{
    let scaled = usdt_amount * AGX_UNIT;
    scaled / price
}

} // verus!
