use vstd::prelude::*;

use crate::key::Key;

verus! {

/// One AGX token in base units (9 decimals).
pub const AGX_UNIT: u64 = 1_000_000_000;
/// Smallest USDT amount (6 decimals) accepted by `buy_and_stake`: 100 USDT.
pub const MIN_STAKE_USDT: u64 = 100_000_000;
/// AGX sold at the fixed first-phase prices: 5M tokens.
pub const PRESALE_CAP: u64 = 5_000_000_000_000_000;
/// AGX that can ever be sold through `buy_and_stake`: 30M tokens.
pub const HARD_CAP: u64 = 30_000_000_000_000_000;
/// AGX that can be sold beyond the first phase: 25M tokens.
pub const REWARD_SALE_CAP: u64 = 25_000_000_000_000_000;
/// AGX held by the reward vault: 25M tokens.
pub const REWARD_POOL: u64 = 25_000_000_000_000_000;
/// Tokens that each operational vault can release in all: 5M tokens.
pub const OPERATIONAL_CAP: u64 = 5_000_000_000_000_000;
/// A month of the release schedules: 30 days, in seconds.
pub const SECONDS_PER_MONTH: i64 = 2_592_000;
/// Time after a purchase during which a refund is granted: 7 days, in seconds.
pub const REFUND_WINDOW: i64 = 604_800;

/// Event kinds carried in `ProgramEvent::event_type`.
pub const EVENT_BUY: u8 = 1;
pub const EVENT_CLAIM: u8 = 2;
pub const EVENT_REFUND: u8 = 3;
pub const EVENT_SWAP: u8 = 4;
pub const EVENT_OPERATIONAL_CLAIM: u8 = 5;
pub const EVENT_PAUSE: u8 = 6;
pub const EVENT_CONFIG: u8 = 7;
pub const EVENT_ADMIN_TRANSFER: u8 = 8;
pub const EVENT_ADMIN_ACCEPT: u8 = 9;

/// The program's global account.
#[derive(Clone, Copy, Debug)]
pub struct GlobalState {
    pub admin: Key,
    pub pending_admin: Key,
    pub token_mint: Key,
    pub usdt_mint: Key,
    pub usdt_vault: Key,
    pub reward_vault: Key,
    pub presale_vault: Key,
    pub treasury_vault: Key,
    pub development_vault: Key,
    pub marketing_vault: Key,
    pub roadmap_vault: Key,
    pub vault_authority_bump: u8,
    pub buy_active: bool,
    pub claim_active: bool,
    pub stake_active: bool,
    pub swap_active: bool,
    pub emergency_paused: bool,
    pub sell_price: u64,
    pub swap_fee_percentage: u64,
    pub transaction_count: u64,
    pub tokens_sold_presale: u64,
    pub tokens_sold_reward: u64,
    pub reward_vault_total: u64,
    pub reward_vault_reserved: u64,
    pub reward_vault_available: u64,
    pub treasury_claimed: u64,
    pub development_claimed: u64,
    pub marketing_claimed: u64,
    pub roadmap_claimed: u64,
    pub sale_completed: bool,
    pub reward_sale_completed: bool,
    pub sale_counter: u64,
    pub sale_transactions: u64,
    pub reward_counter: u64,
    pub returned_counter: u64,
    pub reward_paid: u64,
    pub reward_returned: u64,
    pub reward_sold: u64,
    pub treasury_start_time: i64,
    pub development_start_time: i64,
    pub marketing_start_time: i64,
    pub roadmap_start_time: i64,
    pub padding: [u8; 64],
}

/// A user's staking position, created by `buy_and_stake`.
#[derive(Clone, Copy, Debug)]
pub struct StakingRecord {
    pub record_id: u64,
    pub user: Key,
    pub staked_amount_usdt: u64,
    pub equivalent_agx: u64,
    pub total_reward_tokens: u64,
    pub released_tokens: u64,
    pub purchase_time: i64,
    pub last_claim_time: i64,
    pub lock_duration_months: u8,
    pub is_refunded: bool,
    pub is_staked: bool,
    pub padding: [u8; 32],
}

/// The log record that each instruction emits.
#[derive(Clone, Copy, Debug, PartialEq, Eq, Structural)]
pub struct ProgramEvent {
    pub event_type: u8,
    pub user: Key,
    pub amount_1: u64,
    pub amount_2: u64,
    pub record_id: u64,
}

/// The token accounts between which the program moves tokens.
#[derive(Clone, Copy, Debug, PartialEq, Eq, Structural)]
pub enum Holder {
    /// The signing user's USDT account.
    UserUsdt,
    /// The signing user's (or admin's) AGX account.
    UserToken,
    UsdtVault,
    RewardVault,
    PresaleVault,
    TreasuryVault,
    DevelopmentVault,
    MarketingVault,
    RoadmapVault,
}

/// A token transfer that an instruction orders. `by_vault_authority` tells
/// whether the program's vault authority signs it (else the user does).
#[derive(Clone, Copy, Debug, PartialEq, Eq, Structural)]
pub struct TokenTransfer {
    pub from: Holder,
    pub to: Holder,
    pub amount: u64,
    pub by_vault_authority: bool,
}

/// What an accepted instruction asks of the runtime: the transfers, in
/// order, and the event to emit.
#[derive(Debug)]
pub struct Effects {
    pub transfers: Vec<TokenTransfer>,
    pub event: ProgramEvent,
}

impl GlobalState {
    /// AGX sold through `buy_and_stake` and not handed back, in both phases.
    pub open spec fn sold(self) -> int {
        self.tokens_sold_presale + self.tokens_sold_reward
    }

    /// What every state that the program produces satisfies: the first-phase
    /// and total sales stay under their caps, the reward vault's total is the
    /// 25M pool and its reserved and available amounts together never exceed
    /// that total, the reward-sale tally follows the reward-phase sales, and no
    /// operational vault releases more than its cap.
    pub open spec fn well_formed(self) -> bool {
        &&& self.tokens_sold_presale <= PRESALE_CAP
        &&& self.sold() <= HARD_CAP
        &&& self.reward_vault_total == REWARD_POOL
        &&& self.reward_vault_reserved + self.reward_vault_available <= self.reward_vault_total
        &&& self.reward_sold == self.tokens_sold_reward
        &&& self.treasury_claimed <= OPERATIONAL_CAP
        &&& self.development_claimed <= OPERATIONAL_CAP
        &&& self.marketing_claimed <= OPERATIONAL_CAP
        &&& self.roadmap_claimed <= OPERATIONAL_CAP
    }
}

impl StakingRecord {
    /// A record never releases more than the reward it was promised.
    pub open spec fn well_formed(self) -> bool {
        self.released_tokens <= self.total_reward_tokens
    }
}

pub open spec fn event(event_type: u8, user: Key, amount_1: u64, amount_2: u64, record_id: u64) -> ProgramEvent {
    ProgramEvent { event_type, user, amount_1, amount_2, record_id }
}

pub open spec fn transfer(from: Holder, to: Holder, amount: u64, by_vault_authority: bool) -> TokenTransfer {
    TokenTransfer { from, to, amount, by_vault_authority }
}

} // verus!
