use vstd::prelude::*;

use crate::accounts::ClaimOperationalVault;
use crate::error::AGXError;
use crate::key::Key;
use crate::state::{
    event, transfer, Effects, GlobalState, Holder, ProgramEvent, TokenTransfer,
    EVENT_OPERATIONAL_CLAIM, OPERATIONAL_CAP, SECONDS_PER_MONTH,
};

verus! {

/// Lock in months before operational vault `vault_type` (1 treasury,
/// 2 development, 3 marketing, 4 roadmap) releases anything.
pub open spec fn vault_lock_months(vault_type: u8) -> int {
    if vault_type == 1 {
        12
    } else if vault_type == 2 {
        8
    } else if vault_type == 3 {
        6
    } else {
        12
    }
}

/// Tokens that operational vault `vault_type` releases each month once its
/// lock is over: 1%, 0.5%, 0.25% and 0.10% of 5M tokens.
pub open spec fn vault_monthly_release(vault_type: u8) -> int {
    if vault_type == 1 {
        50_000_000_000_000
    } else if vault_type == 2 {
        25_000_000_000_000
    } else if vault_type == 3 {
        12_500_000_000_000
    } else {
        5_000_000_000_000
    }
}

/// Start of the release schedule of vault `vault_type`.
pub open spec fn vault_start_time(s: GlobalState, vault_type: u8) -> i64 {
    if vault_type == 1 {
        s.treasury_start_time
    } else if vault_type == 2 {
        s.development_start_time
    } else if vault_type == 3 {
        s.marketing_start_time
    } else {
        s.roadmap_start_time
    }
}

/// Tokens that vault `vault_type` has already released.
pub open spec fn vault_claimed(s: GlobalState, vault_type: u8) -> u64 {
    if vault_type == 1 {
        s.treasury_claimed
    } else if vault_type == 2 {
        s.development_claimed
    } else if vault_type == 3 {
        s.marketing_claimed
    } else {
        s.roadmap_claimed
    }
}

/// The token account of operational vault `vault_type`.
pub open spec fn vault_holder(vault_type: u8) -> Holder {
    if vault_type == 1 {
        Holder::TreasuryVault
    } else if vault_type == 2 {
        Holder::DevelopmentVault
    } else if vault_type == 3 {
        Holder::MarketingVault
    } else {
        Holder::RoadmapVault
    }
}

/// Seconds between the start of the schedule of `vault_type` and `now`.
pub open spec fn vault_elapsed(s: GlobalState, vault_type: u8, now: i64) -> int {
    now - vault_start_time(s, vault_type)
}

/// Monthly releases that vault `vault_type` has earned by `now`: one for the
/// month in which the lock ends and one more for each full month since.
pub open spec fn vault_tranches(s: GlobalState, vault_type: u8, now: i64) -> int {
    let lock = vault_lock_months(vault_type) * SECONDS_PER_MONTH;
    (vault_elapsed(s, vault_type, now) - lock) / (SECONDS_PER_MONTH as int) + 1
}

/// Tokens that vault `vault_type` may have released in all by `now`: its
/// monthly release for each tranche earned, up to the vault's 5M in all.
pub open spec fn vault_release_due(s: GlobalState, vault_type: u8, now: i64) -> int {
    let earned = vault_tranches(s, vault_type, now) * vault_monthly_release(vault_type);
    if earned < OPERATIONAL_CAP { earned } else { OPERATIONAL_CAP as int }
}

/// What vault `vault_type` releases now: what is due and not yet released.
pub open spec fn vault_to_claim(s: GlobalState, vault_type: u8, now: i64) -> int {
    let due = vault_release_due(s, vault_type, now);
    let claimed = vault_claimed(s, vault_type) as int;
    if due >= claimed { due - claimed } else { 0 }
}

/// Why `claim_operational_vault`, signed by `admin`, is refused, if it is:
/// only the recorded admin may claim.
pub open spec fn claim_operational_vault_error(s: GlobalState, admin: Key, vault_type: u8, now: i64) -> Option<AGXError> {
    if admin != s.admin {
        Some(AGXError::ConstraintHasOne)
    } else if s.emergency_paused {
        Some(AGXError::EmergencyPaused)
    } else if !(1 <= vault_type <= 4) {
        Some(AGXError::InvalidVaultType)
    } else if vault_elapsed(s, vault_type, now) < vault_lock_months(vault_type) * SECONDS_PER_MONTH {
        Some(AGXError::OperationalTimeLocked)
    } else if vault_to_claim(s, vault_type, now) == 0 {
        if vault_claimed(s, vault_type) >= OPERATIONAL_CAP {
            Some(AGXError::MaxOperationalLimitReached)
        } else {
            Some(AGXError::OperationalTimeLocked)
        }
    } else {
        None
    }
}

/// Whether `claim_operational_vault` runs out of 64-bit range on the way
/// (the program then aborts): in the elapsed time.
pub open spec fn claim_operational_vault_aborts(s: GlobalState, admin: Key, vault_type: u8, now: i64) -> bool {
    let e = vault_elapsed(s, vault_type, now);
    &&& admin == s.admin
    &&& !s.emergency_paused
    &&& 1 <= vault_type <= 4
    &&& {
        ||| e < i64::MIN
        ||| e > i64::MAX
    }
}

/// The global account once vault `vault_type` has released all that is due.
pub open spec fn operational_claimed_state(s: GlobalState, vault_type: u8, now: i64) -> GlobalState {
    let claimed = (vault_claimed(s, vault_type) + vault_to_claim(s, vault_type, now)) as u64;
    if vault_type == 1 {
        GlobalState { treasury_claimed: claimed, ..s }
    } else if vault_type == 2 {
        GlobalState { development_claimed: claimed, ..s }
    } else if vault_type == 3 {
        GlobalState { marketing_claimed: claimed, ..s }
    } else {
        GlobalState { roadmap_claimed: claimed, ..s }
    }
}

/// `tranches` monthly releases of `monthly_release`, up to the 5M cap.
fn release_due(tranches: u64, monthly_release: u64) -> (r: u64)
    ensures
        r == (if tranches * monthly_release < OPERATIONAL_CAP {
            tranches * monthly_release
        } else {
            OPERATIONAL_CAP as int
        }),
{
    match tranches.checked_mul(monthly_release) {
        Some(earned) => if earned < OPERATIONAL_CAP {
            earned
        } else {
            OPERATIONAL_CAP
        },
        None => OPERATIONAL_CAP,
    }
}

/// The schedule of operational vault `vault_type`: when it started, what it
/// has released, its lock in months, its monthly release and its account.
fn vault_schedule(s: &GlobalState, vault_type: u8) -> (r: (i64, u64, i64, u64, Holder))
    requires
        1 <= vault_type <= 4,
    ensures
        r == (vault_start_time(*s, vault_type), vault_claimed(*s, vault_type),
            vault_lock_months(vault_type) as i64, vault_monthly_release(vault_type) as u64,
            vault_holder(vault_type)),
{
    if vault_type == 1 {
        (s.treasury_start_time, s.treasury_claimed, 12, 50_000_000_000_000, Holder::TreasuryVault)
    } else if vault_type == 2 {
        (s.development_start_time, s.development_claimed, 8, 25_000_000_000_000, Holder::DevelopmentVault)
    } else if vault_type == 3 {
        (s.marketing_start_time, s.marketing_claimed, 6, 12_500_000_000_000, Holder::MarketingVault)
    } else {
        (s.roadmap_start_time, s.roadmap_claimed, 12, 5_000_000_000_000, Holder::RoadmapVault)
    }
}

/// The admin releases to its token account what operational vault
/// `vault_type` has due at `now` and not yet released: its monthly release
/// for each month since the lock ended, up to the vault's 5M in all. Once the
/// 5M are out, further claims are refused with `MaxOperationalLimitReached`.
pub fn claim_operational_vault(ctx: &mut ClaimOperationalVault, vault_type: u8, now: i64) -> (r: Result<Effects, AGXError>)
    requires
        !claim_operational_vault_aborts(old(ctx).state, old(ctx).admin, vault_type, now),
    ensures
        match claim_operational_vault_error(old(ctx).state, old(ctx).admin, vault_type, now) {
            Some(e) => r == Err::<Effects, AGXError>(e) && *final(ctx) == *old(ctx),
            None => r matches Ok(eff) && {
                &&& final(ctx).state == operational_claimed_state(old(ctx).state, vault_type, now)
                &&& final(ctx).admin == old(ctx).admin
                &&& eff.transfers@ == seq![transfer(vault_holder(vault_type), Holder::UserToken,
                    vault_to_claim(old(ctx).state, vault_type, now) as u64, true)]
                &&& eff.event == event(EVENT_OPERATIONAL_CLAIM, old(ctx).admin,
                    vault_to_claim(old(ctx).state, vault_type, now) as u64, vault_type as u64, 0)
            },
        },
        r is Ok ==> vault_claimed(final(ctx).state, vault_type) <= OPERATIONAL_CAP,
        old(ctx).state.well_formed() ==> final(ctx).state.well_formed(),
{
    if ctx.admin != ctx.state.admin {
        return Err(AGXError::ConstraintHasOne);
    }
    if ctx.state.emergency_paused {
        return Err(AGXError::EmergencyPaused);
    }
    if vault_type < 1 || vault_type > 4 {
        return Err(AGXError::InvalidVaultType);
    }
    let (start_time, claimed, lock_months, monthly_release, holder) = vault_schedule(&ctx.state, vault_type);
    let elapsed = now - start_time;
    let lock_period = lock_months * SECONDS_PER_MONTH;
    if elapsed < lock_period {
        return Err(AGXError::OperationalTimeLocked);
    }
    let months_since_lock = ((elapsed - lock_period) / SECONDS_PER_MONTH) as u64;
    assert(months_since_lock + 1 <= u64::MAX);
    let claimable_total = release_due(months_since_lock + 1, monthly_release);
    let to_claim = claimable_total.saturating_sub(claimed);
    if to_claim == 0 {
        if claimed >= OPERATIONAL_CAP {
            return Err(AGXError::MaxOperationalLimitReached);
        }
        return Err(AGXError::OperationalTimeLocked);
    }
    let new_claimed = claimed + to_claim;
    if vault_type == 1 {
        ctx.state.treasury_claimed = new_claimed;
    } else if vault_type == 2 {
        ctx.state.development_claimed = new_claimed;
    } else if vault_type == 3 {
        ctx.state.marketing_claimed = new_claimed;
    } else {
        ctx.state.roadmap_claimed = new_claimed;
    }
    let mut transfers: Vec<TokenTransfer> = Vec::new();
    transfers.push(TokenTransfer {
        from: holder,
        to: Holder::UserToken,
        amount: to_claim,
        by_vault_authority: true,
    });
    Ok(Effects {
        transfers,
        event: ProgramEvent {
            event_type: EVENT_OPERATIONAL_CLAIM,
            user: ctx.admin,
            amount_1: to_claim,
            amount_2: vault_type as u64,
            record_id: 0,
        },
    })
}

/// Whether `claim_operational_vault` would run out of range on this input:
/// the test that a caller makes before the call.
pub fn claim_operational_vault_overflows(ctx: &ClaimOperationalVault, vault_type: u8, now: i64) -> (r: bool)
    ensures
        r == claim_operational_vault_aborts(ctx.state, ctx.admin, vault_type, now),
{
    let s = &ctx.state;
    if ctx.admin != s.admin || s.emergency_paused || vault_type < 1 || vault_type > 4 {
        return false;
    }
    let (start_time, _, _, _, _) = vault_schedule(s, vault_type);
    now.checked_sub(start_time).is_none()
}

} // verus!
