use vstd::prelude::*;

use crate::accounts::{SwapAgxToUsdt, SwapT20};
use crate::error::AGXError;
use crate::pricing::{agx_for_usdt, convert_usdt_to_agx};
use crate::state::{
    event, transfer, Effects, GlobalState, Holder, ProgramEvent, TokenTransfer, AGX_UNIT,
    EVENT_SWAP,
};

verus! {

/// Why `swap_t20` is refused, if it is.
pub open spec fn swap_t20_error(s: GlobalState) -> Option<AGXError> {
    if s.emergency_paused {
        Some(AGXError::EmergencyPaused)
    } else if !s.swap_active {
        Some(AGXError::SwapInactive)
    } else if s.sale_completed {
        Some(AGXError::SalesCompleted)
    } else if s.sell_price == 0 {
        Some(AGXError::PurchaseInactive)
    } else {
        None
    }
}

/// AGX handed out by `swap_t20` for `usdt_amount`, at the admin's swap price.
pub open spec fn swap_agx(s: GlobalState, usdt_amount: u64) -> int {
    agx_for_usdt(usdt_amount as int, s.sell_price as int)
}

/// Whether `swap_t20` runs out of 64-bit range on the way (the program then
/// aborts): in the scaling of `usdt_amount` to AGX units or in a counter.
pub open spec fn swap_t20_aborts(s: GlobalState, usdt_amount: u64) -> bool {
    &&& swap_t20_error(s) is None
    &&& {
        ||| usdt_amount * AGX_UNIT > u64::MAX
        ||| s.transaction_count + 1 > u64::MAX
        ||| s.sale_counter + swap_agx(s, usdt_amount) > u64::MAX
        ||| s.sale_transactions + 1 > u64::MAX
    }
}

/// The global account after a swap of `usdt_amount`: only the activity
/// counters move, not the tallies that set the sale price.
pub open spec fn swapped_state(s: GlobalState, usdt_amount: u64) -> GlobalState {
    GlobalState {
        transaction_count: (s.transaction_count + 1) as u64,
        sale_counter: (s.sale_counter + swap_agx(s, usdt_amount)) as u64,
        sale_transactions: (s.sale_transactions + 1) as u64,
        ..s
    }
}

/// Sells AGX from the presale vault for `usdt_amount` USDT at the admin's
/// swap price, with no lock.
pub fn swap_t20(ctx: &mut SwapT20, usdt_amount: u64) -> (r: Result<Effects, AGXError>)
    requires
        !swap_t20_aborts(old(ctx).state, usdt_amount),
    ensures
        match swap_t20_error(old(ctx).state) {
            Some(e) => r == Err::<Effects, AGXError>(e) && *final(ctx) == *old(ctx),
            None => r matches Ok(eff) && {
                &&& final(ctx).state == swapped_state(old(ctx).state, usdt_amount)
                &&& final(ctx).user == old(ctx).user
                &&& eff.transfers@ == seq![
                    transfer(Holder::UserUsdt, Holder::UsdtVault, usdt_amount, false),
                    transfer(Holder::PresaleVault, Holder::UserToken,
                        swap_agx(old(ctx).state, usdt_amount) as u64, true),
                ]
                &&& eff.event == event(EVENT_SWAP, old(ctx).user, usdt_amount,
                    swap_agx(old(ctx).state, usdt_amount) as u64, 0)
            },
        },
        old(ctx).state.well_formed() ==> final(ctx).state.well_formed(),
{
    if ctx.state.emergency_paused {
        return Err(AGXError::EmergencyPaused);
    }
    if !ctx.state.swap_active {
        return Err(AGXError::SwapInactive);
    }
    if ctx.state.sale_completed {
        return Err(AGXError::SalesCompleted);
    }
    let current_price = ctx.state.sell_price;
    if current_price == 0 {
        return Err(AGXError::PurchaseInactive);
    }
    let agx_amount = convert_usdt_to_agx(usdt_amount, current_price);

    ctx.state.transaction_count = ctx.state.transaction_count + 1;
    ctx.state.sale_counter = ctx.state.sale_counter + agx_amount;
    ctx.state.sale_transactions = ctx.state.sale_transactions + 1;

    let mut transfers: Vec<TokenTransfer> = Vec::new();
    transfers.push(TokenTransfer {
        from: Holder::UserUsdt,
        to: Holder::UsdtVault,
        amount: usdt_amount,
        by_vault_authority: false,
    });
    transfers.push(TokenTransfer {
        from: Holder::PresaleVault,
        to: Holder::UserToken,
        amount: agx_amount,
        by_vault_authority: true,
    });
    Ok(Effects {
        transfers,
        event: ProgramEvent {
            event_type: EVENT_SWAP,
            user: ctx.user,
            amount_1: usdt_amount,
            amount_2: agx_amount,
            record_id: 0,
        },
    })
}

/// Whether `swap_t20` would run out of range on this input: the test that
/// a caller makes before the call.
pub fn swap_t20_overflows(ctx: &SwapT20, usdt_amount: u64) -> (r: bool)
    ensures
        r == swap_t20_aborts(ctx.state, usdt_amount),
{
    let s = &ctx.state;
    if s.emergency_paused || !s.swap_active || s.sale_completed || s.sell_price == 0 {
        return false;
    }
    let scaled = match usdt_amount.checked_mul(AGX_UNIT) {
        Some(x) => x,
        None => return true,
    };
    let agx_amount = scaled / s.sell_price;
    s.transaction_count == u64::MAX || s.sale_counter.checked_add(agx_amount).is_none()
        || s.sale_transactions == u64::MAX
}

/// The admin's fee on a swap of `agx_amount` back to USDT: `swap_fee_percentage`
/// percent of it, rounded down.
pub open spec fn swap_back_fee(s: GlobalState, agx_amount: u64) -> int {
    (agx_amount * s.swap_fee_percentage) / 100
}

/// USDT paid for `agx_amount` swapped back: what is left after the fee,
/// at the admin's swap price, rounded down.
pub open spec fn swap_back_usdt(s: GlobalState, agx_amount: u64) -> int {
    ((agx_amount - swap_back_fee(s, agx_amount)) * s.sell_price) / (AGX_UNIT as int)
}

/// Why `swap_agx_to_usdt` is refused, if it is.
pub open spec fn swap_agx_to_usdt_error(s: GlobalState, agx_amount: u64) -> Option<AGXError> {
    if s.emergency_paused {
        Some(AGXError::EmergencyPaused)
    } else if !s.swap_active {
        Some(AGXError::SwapInactive)
    } else if s.sell_price == 0 {
        Some(AGXError::PurchaseInactive)
    } else if swap_back_usdt(s, agx_amount) <= 0 {
        Some(AGXError::BelowMinStake)
    } else {
        None
    }
}

/// Whether `swap_agx_to_usdt` runs out of 64-bit range on the way (the
/// program then aborts): in the fee, when the fee exceeds the amount, or in
/// the USDT value.
pub open spec fn swap_agx_to_usdt_aborts(s: GlobalState, agx_amount: u64) -> bool {
    &&& !s.emergency_paused
    &&& s.swap_active
    &&& s.sell_price != 0
    &&& {
        ||| agx_amount * s.swap_fee_percentage > u64::MAX
        ||| swap_back_fee(s, agx_amount) > agx_amount
        ||| (agx_amount - swap_back_fee(s, agx_amount)) * s.sell_price > u64::MAX
    }
}

/// Buys `agx_amount` AGX back into the presale vault and pays its value in
/// USDT, less the admin's fee; the global account does not change.
pub fn swap_agx_to_usdt(ctx: &mut SwapAgxToUsdt, agx_amount: u64) -> (r: Result<Effects, AGXError>)
    requires
        !swap_agx_to_usdt_aborts(old(ctx).state, agx_amount),
    ensures
        *final(ctx) == *old(ctx),
        match swap_agx_to_usdt_error(old(ctx).state, agx_amount) {
            Some(e) => r == Err::<Effects, AGXError>(e),
            None => r matches Ok(eff) && {
                &&& eff.transfers@ == seq![
                    transfer(Holder::UserToken, Holder::PresaleVault, agx_amount, false),
                    transfer(Holder::UsdtVault, Holder::UserUsdt,
                        swap_back_usdt(old(ctx).state, agx_amount) as u64, true),
                ]
                &&& eff.event == event(EVENT_SWAP, old(ctx).user, agx_amount,
                    swap_back_usdt(old(ctx).state, agx_amount) as u64, 1)
            },
        },
{
    if ctx.state.emergency_paused {
        return Err(AGXError::EmergencyPaused);
    }
    if !ctx.state.swap_active {
        return Err(AGXError::SwapInactive);
    }
    let current_price = ctx.state.sell_price;
    if current_price == 0 {
        return Err(AGXError::PurchaseInactive);
    }
    let fee_amount = agx_amount * ctx.state.swap_fee_percentage / 100;
    let net_agx = agx_amount - fee_amount;
    let usdt_amount = net_agx * current_price / AGX_UNIT;
    if usdt_amount == 0 {
        return Err(AGXError::BelowMinStake);
    }
    let mut transfers: Vec<TokenTransfer> = Vec::new();
    transfers.push(TokenTransfer {
        from: Holder::UserToken,
        to: Holder::PresaleVault,
        amount: agx_amount,
        by_vault_authority: false,
    });
    transfers.push(TokenTransfer {
        from: Holder::UsdtVault,
        to: Holder::UserUsdt,
        amount: usdt_amount,
        by_vault_authority: true,
    });
    Ok(Effects {
        transfers,
        event: ProgramEvent {
            event_type: EVENT_SWAP,
            user: ctx.user,
            amount_1: agx_amount,
            amount_2: usdt_amount,
            record_id: 1,
        },
    })
}

/// Whether `swap_agx_to_usdt` would run out of range on this input: the
/// test that a caller makes before the call.
pub fn swap_agx_to_usdt_overflows(ctx: &SwapAgxToUsdt, agx_amount: u64) -> (r: bool)
    ensures
        r == swap_agx_to_usdt_aborts(ctx.state, agx_amount),
{
    let s = &ctx.state;
    if s.emergency_paused || !s.swap_active || s.sell_price == 0 {
        return false;
    }
    let fee_amount = match agx_amount.checked_mul(s.swap_fee_percentage) {
        Some(x) => x / 100,
        None => return true,
    };
    if fee_amount > agx_amount {
        return true;
    }
    (agx_amount - fee_amount).checked_mul(s.sell_price).is_none()
}

} // verus!
