use vstd::prelude::*;

use crate::accounts::{AcceptAdmin, Initialize, SetEmergencyPause, TransferAdmin, UpdateConfig};
use crate::error::AGXError;
use crate::key::{zero_key, Key};
use crate::state::{
    event, Effects, GlobalState, ProgramEvent, TokenTransfer, EVENT_ADMIN_ACCEPT,
    EVENT_ADMIN_TRANSFER, EVENT_CONFIG, EVENT_PAUSE, REWARD_POOL,
};

verus! {

/// The global account as `initialize` leaves it at time `now`: every
/// activity switched on, nothing sold, claimed or reserved, the whole reward
/// pool available, the operational schedules started at `now`.
pub open spec fn initial_state(
    ctx: Initialize,
    sell_price: u64,
    swap_fee_percentage: u64,
    vault_authority_bump: u8,
    now: i64,
) -> GlobalState {
    GlobalState {
        admin: ctx.admin,
        pending_admin: zero_key(),
        token_mint: ctx.token_mint,
        usdt_mint: ctx.usdt_mint,
        usdt_vault: ctx.usdt_vault,
        reward_vault: ctx.reward_vault,
        presale_vault: ctx.presale_vault,
        treasury_vault: ctx.treasury_vault,
        development_vault: ctx.development_vault,
        marketing_vault: ctx.marketing_vault,
        roadmap_vault: ctx.roadmap_vault,
        vault_authority_bump,
        buy_active: true,
        claim_active: true,
        stake_active: true,
        swap_active: true,
        emergency_paused: false,
        sell_price,
        swap_fee_percentage,
        transaction_count: 0,
        tokens_sold_presale: 0,
        tokens_sold_reward: 0,
        reward_vault_total: REWARD_POOL,
        reward_vault_reserved: 0,
        reward_vault_available: REWARD_POOL,
        treasury_claimed: 0,
        development_claimed: 0,
        marketing_claimed: 0,
        roadmap_claimed: 0,
        sale_completed: false,
        reward_sale_completed: false,
        sale_counter: 0,
        sale_transactions: 0,
        reward_counter: 0,
        returned_counter: 0,
        reward_paid: 0,
        reward_returned: 0,
        reward_sold: 0,
        treasury_start_time: now,
        development_start_time: now,
        marketing_start_time: now,
        roadmap_start_time: now,
        padding: ctx.state.padding,
    }
}

/// Sets up the global account at time `now`.
pub fn initialize(
    ctx: &mut Initialize,
    sell_price: u64,
    swap_fee_percentage: u64,
    vault_authority_bump: u8,
    now: i64,
) -> (eff: Effects)
    ensures
        *final(ctx) == (Initialize {
            state: initial_state(*old(ctx), sell_price, swap_fee_percentage, vault_authority_bump, now),
            ..*old(ctx)
        }),
        final(ctx).state.well_formed(),
        eff.transfers@ == Seq::<TokenTransfer>::empty(),
        eff.event == event(EVENT_CONFIG, old(ctx).admin, sell_price, swap_fee_percentage, 0),
{
    let state = &mut ctx.state;
    state.admin = ctx.admin;
    state.pending_admin = Key::default_key();
    state.token_mint = ctx.token_mint;
    state.usdt_mint = ctx.usdt_mint;
    state.usdt_vault = ctx.usdt_vault;
    state.reward_vault = ctx.reward_vault;
    state.presale_vault = ctx.presale_vault;
    state.treasury_vault = ctx.treasury_vault;
    state.development_vault = ctx.development_vault;
    state.marketing_vault = ctx.marketing_vault;
    state.roadmap_vault = ctx.roadmap_vault;
    state.vault_authority_bump = vault_authority_bump;
    state.buy_active = true;
    state.claim_active = true;
    state.stake_active = true;
    state.swap_active = true;
    state.emergency_paused = false;
    state.sell_price = sell_price;
    state.swap_fee_percentage = swap_fee_percentage;
    state.tokens_sold_presale = 0;
    state.tokens_sold_reward = 0;
    state.transaction_count = 0;
    state.reward_vault_total = REWARD_POOL;
    state.reward_vault_reserved = 0;
    state.reward_vault_available = REWARD_POOL;
    state.reward_paid = 0;
    state.reward_returned = 0;
    state.reward_sold = 0;
    state.sale_completed = false;
    state.reward_sale_completed = false;
    state.reward_counter = 0;
    state.returned_counter = 0;
    state.sale_counter = 0;
    state.sale_transactions = 0;
    state.treasury_claimed = 0;
    state.development_claimed = 0;
    state.marketing_claimed = 0;
    state.roadmap_claimed = 0;
    state.treasury_start_time = now;
    state.development_start_time = now;
    state.marketing_start_time = now;
    state.roadmap_start_time = now;
    Effects {
        transfers: Vec::new(),
        event: ProgramEvent {
            event_type: EVENT_CONFIG,
            user: state.admin,
            amount_1: sell_price,
            amount_2: swap_fee_percentage,
            record_id: 0,
        },
    }
}

/// The global account after `update_config` with the given settings.
pub open spec fn configured_state(
    s: GlobalState,
    buy_active: bool,
    claim_active: bool,
    stake_active: bool,
    swap_active: bool,
    sell_price: u64,
    swap_fee_percentage: u64,
) -> GlobalState {
    GlobalState {
        buy_active,
        claim_active,
        stake_active,
        swap_active,
        sell_price,
        swap_fee_percentage,
        ..s
    }
}

/// Why `update_config` refuses the signer `admin`, if it does: only the
/// recorded admin may call it, and not while the emergency pause is on.
pub open spec fn update_config_error(s: GlobalState, admin: Key) -> Option<AGXError> {
    if admin != s.admin {
        Some(AGXError::ConstraintHasOne)
    } else if s.emergency_paused {
        Some(AGXError::EmergencyPaused)
    } else {
        None
    }
}

/// The admin replaces the activity switches, the swap price and the swap fee.
pub fn update_config(
    ctx: &mut UpdateConfig,
    buy_active: bool,
    claim_active: bool,
    stake_active: bool,
    swap_active: bool,
    sell_price: u64,
    swap_fee_percentage: u64,
) -> (r: Result<Effects, AGXError>)
    ensures
        match update_config_error(old(ctx).state, old(ctx).admin) {
            Some(e) => r == Err::<Effects, AGXError>(e) && *final(ctx) == *old(ctx),
            None => r matches Ok(eff) && {
                &&& final(ctx).state == configured_state(old(ctx).state, buy_active, claim_active,
                    stake_active, swap_active, sell_price, swap_fee_percentage)
                &&& final(ctx).admin == old(ctx).admin
                &&& eff.transfers@ == Seq::<TokenTransfer>::empty()
                &&& eff.event == event(EVENT_CONFIG, old(ctx).state.admin, sell_price, swap_fee_percentage, 0)
            },
        },
        old(ctx).state.well_formed() ==> final(ctx).state.well_formed(),
{
    if ctx.admin != ctx.state.admin {
        return Err(AGXError::ConstraintHasOne);
    }
    if ctx.state.emergency_paused {
        return Err(AGXError::EmergencyPaused);
    }
    ctx.state.buy_active = buy_active;
    ctx.state.claim_active = claim_active;
    ctx.state.stake_active = stake_active;
    ctx.state.swap_active = swap_active;
    ctx.state.sell_price = sell_price;
    ctx.state.swap_fee_percentage = swap_fee_percentage;
    Ok(Effects {
        transfers: Vec::new(),
        event: ProgramEvent {
            event_type: EVENT_CONFIG,
            user: ctx.state.admin,
            amount_1: sell_price,
            amount_2: swap_fee_percentage,
            record_id: 0,
        },
    })
}

/// Why `transfer_admin`, signed by `admin`, refuses `new_admin`, if it does.
pub open spec fn transfer_admin_error(s: GlobalState, admin: Key, new_admin: Key) -> Option<AGXError> {
    if admin != s.admin {
        Some(AGXError::ConstraintHasOne)
    } else if s.emergency_paused {
        Some(AGXError::EmergencyPaused)
    } else if new_admin == zero_key() {
        Some(AGXError::InvalidAdminAddress)
    } else {
        None
    }
}

/// The global account once `new_admin` has been proposed as admin.
pub open spec fn admin_proposed(s: GlobalState, new_admin: Key) -> GlobalState {
    GlobalState { pending_admin: new_admin, ..s }
}

/// The admin proposes `new_admin` as the next admin; it takes over once it
/// accepts.
pub fn transfer_admin(ctx: &mut TransferAdmin, new_admin: Key) -> (r: Result<Effects, AGXError>)
    ensures
        match transfer_admin_error(old(ctx).state, old(ctx).admin, new_admin) {
            Some(e) => r == Err::<Effects, AGXError>(e) && *final(ctx) == *old(ctx),
            None => r matches Ok(eff) && {
                &&& final(ctx).state == admin_proposed(old(ctx).state, new_admin)
                &&& final(ctx).admin == old(ctx).admin
                &&& eff.transfers@ == Seq::<TokenTransfer>::empty()
                &&& eff.event == event(EVENT_ADMIN_TRANSFER, old(ctx).admin, 0, 0, 0)
            },
        },
        old(ctx).state.well_formed() ==> final(ctx).state.well_formed(),
{
    if ctx.admin != ctx.state.admin {
        return Err(AGXError::ConstraintHasOne);
    }
    if ctx.state.emergency_paused {
        return Err(AGXError::EmergencyPaused);
    }
    if new_admin == Key::default_key() {
        return Err(AGXError::InvalidAdminAddress);
    }
    ctx.state.pending_admin = new_admin;
    Ok(Effects {
        transfers: Vec::new(),
        event: ProgramEvent {
            event_type: EVENT_ADMIN_TRANSFER,
            user: ctx.admin,
            amount_1: 0,
            amount_2: 0,
            record_id: 0,
        },
    })
}

/// Why `accept_admin` refuses `signer`, if it does.
pub open spec fn accept_admin_error(s: GlobalState, signer: Key) -> Option<AGXError> {
    if s.emergency_paused {
        Some(AGXError::EmergencyPaused)
    } else if signer != s.pending_admin {
        Some(AGXError::Unauthorized)
    } else {
        None
    }
}

/// The global account once the pending admin has taken over.
pub open spec fn admin_accepted(s: GlobalState) -> GlobalState {
    GlobalState { admin: s.pending_admin, pending_admin: zero_key(), ..s }
}

/// The pending admin takes over the admin role.
pub fn accept_admin(ctx: &mut AcceptAdmin) -> (r: Result<Effects, AGXError>)
    ensures
        match accept_admin_error(old(ctx).state, old(ctx).pending_admin) {
            Some(e) => r == Err::<Effects, AGXError>(e) && *final(ctx) == *old(ctx),
            None => r matches Ok(eff) && {
                &&& final(ctx).state == admin_accepted(old(ctx).state)
                &&& final(ctx).pending_admin == old(ctx).pending_admin
                &&& eff.transfers@ == Seq::<TokenTransfer>::empty()
                &&& eff.event == event(EVENT_ADMIN_ACCEPT, old(ctx).state.pending_admin, 0, 0, 0)
            },
        },
        old(ctx).state.well_formed() ==> final(ctx).state.well_formed(),
{
    if ctx.state.emergency_paused {
        return Err(AGXError::EmergencyPaused);
    }
    if ctx.pending_admin != ctx.state.pending_admin {
        return Err(AGXError::Unauthorized);
    }
    ctx.state.admin = ctx.state.pending_admin;
    ctx.state.pending_admin = Key::default_key();
    Ok(Effects {
        transfers: Vec::new(),
        event: ProgramEvent {
            event_type: EVENT_ADMIN_ACCEPT,
            user: ctx.state.admin,
            amount_1: 0,
            amount_2: 0,
            record_id: 0,
        },
    })
}

/// Why `set_emergency_pause` refuses the signer `admin`, if it does: only the
/// recorded admin may switch the pause, which does not block this switch.
pub open spec fn set_emergency_pause_error(s: GlobalState, admin: Key) -> Option<AGXError> {
    if admin != s.admin {
        Some(AGXError::ConstraintHasOne)
    } else {
        None
    }
}

/// The admin switches the emergency pause on or off; this is the one
/// instruction that the pause does not block.
pub fn set_emergency_pause(ctx: &mut SetEmergencyPause, paused: bool) -> (r: Result<Effects, AGXError>)
    ensures
        match set_emergency_pause_error(old(ctx).state, old(ctx).admin) {
            Some(e) => r == Err::<Effects, AGXError>(e) && *final(ctx) == *old(ctx),
            None => r matches Ok(eff) && {
                &&& final(ctx).state == (GlobalState { emergency_paused: paused, ..old(ctx).state })
                &&& final(ctx).admin == old(ctx).admin
                &&& eff.transfers@ == Seq::<TokenTransfer>::empty()
                &&& eff.event == event(EVENT_PAUSE, old(ctx).admin, if paused { 1 } else { 0 }, 0, 0)
            },
        },
        old(ctx).state.well_formed() ==> final(ctx).state.well_formed(),
{
    if ctx.admin != ctx.state.admin {
        return Err(AGXError::ConstraintHasOne);
    }
    ctx.state.emergency_paused = paused;
    Ok(Effects {
        transfers: Vec::new(),
        event: ProgramEvent {
            event_type: EVENT_PAUSE,
            user: ctx.admin,
            amount_1: if paused { 1 } else { 0 },
            amount_2: 0,
            record_id: 0,
        },
    })
}

} // verus!
