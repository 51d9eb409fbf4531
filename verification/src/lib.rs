//! Verified core of the AGX presale and staking program: the global account
//! and staking records, the sale price schedule and staking tiers, and every
//! instruction as a transition from accounts to accounts, token transfers and
//! an event, with proofs of what the program keeps true.

pub mod accounts;
pub mod behaviour;
pub mod config;
pub mod error;
pub mod key;
pub mod laws;
pub mod ledger;
pub mod operational;
pub mod pricing;
pub mod staking;
pub mod state;
pub mod swap;
