use vstd::prelude::*;

verus! {

/// The reasons for which an instruction of the program is refused.
#[derive(Clone, Copy, Debug, PartialEq, Eq, Structural)]
pub enum AGXError {
    /// Purchase functionality is temporarily paused.
    PurchaseInactive,
    /// Staking allocations are temporarily paused.
    StakingInactive,
    /// Claim releases are temporarily paused.
    ClaimsInactive,
    /// Swap pools are temporarily paused.
    SwapInactive,
    /// Contract is under emergency pause block.
    EmergencyPaused,
    /// Staking amount is below the 100 USDT minimum requirement.
    BelowMinStake,
    /// Staked amount is higher than the tier limit rules.
    BelowMaxStake,
    /// The 30,000,000 AGX hard cap limit has been reached.
    HardCapReached,
    /// Requested refund window has expired (7 days max limit).
    RefundWindowExpired,
    /// Operational vault release schedule is locked.
    OperationalTimeLocked,
    /// Vault limit cap reached for the current release epoch.
    MaxOperationalLimitReached,
    /// Specified invalid admin target address.
    InvalidAdminAddress,
    /// Authorization constraint check failed.
    Unauthorized,
    /// Staking record not found or active.
    NotStaked,
    /// Refund request denied because rewards have already been claimed.
    RefundForbiddenClaimed,
    /// This staking record has already been refunded.
    AlreadyRefunded,
    /// Presale hard cap has already been completed.
    SalesCompleted,
    /// Reward presale hard cap has already been completed.
    RewardSaleCompleted,
    /// Insufficient tokens available in Reward Vault.
    InsufficientRewardVault,
    /// Claimable balance is zero for this schedule.
    NoClaimableRewards,
    /// Specified invalid operational vault type target.
    InvalidVaultType,
    /// Invalid staking record ID provided.
    InvalidRecordId,
    /// The signer is not the account that the global account or the staking
    /// record names (its admin, or the record's owner). The program's account
    /// validation reports this before the instruction runs.
    ConstraintHasOne,
}

} // verus!
