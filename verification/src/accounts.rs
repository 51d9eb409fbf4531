use vstd::prelude::*;

use crate::key::Key;
use crate::state::{GlobalState, StakingRecord};

verus! {

/// What `initialize` reads: the freshly created global account and the
/// addresses of the admin, the mints and the vaults.
pub struct Initialize {
    pub state: GlobalState,
    pub admin: Key,
    pub token_mint: Key,
    pub usdt_mint: Key,
    pub usdt_vault: Key,
    pub reward_vault: Key,
    pub presale_vault: Key,
    pub treasury_vault: Key,
    pub development_vault: Key,
    pub marketing_vault: Key,
    pub roadmap_vault: Key,
}

/// What `update_config` reads: the global account and the signer, who must
/// be its admin.
pub struct UpdateConfig {
    pub state: GlobalState,
    pub admin: Key,
}

/// What `buy_and_stake` reads and writes: the global account, the freshly
/// created staking record and the buyer.
pub struct BuyAndStake {
    pub state: GlobalState,
    pub stake_record: StakingRecord,
    pub user: Key,
}

/// What `claim_rewards` reads and writes: the global account, the user's
/// staking record and the signer, who must be the record's owner.
pub struct ClaimRewards {
    pub state: GlobalState,
    pub stake_record: StakingRecord,
    pub user: Key,
}

/// What `claim_refund` reads and writes: the global account, the user's
/// staking record and the signer, who must be the record's owner.
pub struct ClaimRefund {
    pub state: GlobalState,
    pub stake_record: StakingRecord,
    pub user: Key,
}

/// What `swap_t20` reads and writes: the global account and the buyer.
pub struct SwapT20 {
    pub state: GlobalState,
    pub user: Key,
}

/// What `swap_agx_to_usdt` reads: the global account and the seller.
pub struct SwapAgxToUsdt {
    pub state: GlobalState,
    pub user: Key,
}

/// What `claim_operational_vault` reads and writes: the global account and
/// the signer, who must be its admin.
pub struct ClaimOperationalVault {
    pub state: GlobalState,
    pub admin: Key,
}

/// What `transfer_admin` reads and writes: the global account and the
/// signer, who must be its admin.
pub struct TransferAdmin {
    pub state: GlobalState,
    pub admin: Key,
}

/// What `accept_admin` reads and writes: the global account and the signer
/// who claims the pending admin role.
pub struct AcceptAdmin {
    pub state: GlobalState,
    pub pending_admin: Key,
}

/// What `set_emergency_pause` reads and writes: the global account and the
/// signer, who must be its admin.
pub struct SetEmergencyPause {
    pub state: GlobalState,
    pub admin: Key,
}

} // verus!
