//! What a call asks of the ledger beyond its own entries.

use vstd::prelude::*;

use crate::address::{Address, Bytes32};
use crate::types::TierPriceMode;

verus! {

/// A note that the contract publishes on the ledger.
#[derive(Clone, Copy, Debug, PartialEq, Eq, Structural)]
pub enum Event {
    Initialized { admin: Address, token: Address, fee_bps: u32, lock_period_seconds: u64 },
    LockPeriodUpdated { old_period_seconds: u64, new_period_seconds: u64 },
    OracleSet { admin: Address, oracle: Address },
    FeesWithdrawn { recipient: Address, amount: i128 },
    CreatorRegistered { creator: Address, timestamp: u64 },
    TierCreated { tier_id: u32, creator: Address, price: TierPriceMode, duration: u64 },
    TierDeactivated { tier_id: u32, creator: Address },
    TierPriceUpdated { tier_id: u32, old_price: TierPriceMode, new_price: i128 },
    EarningPending { creator: Address, earning_id: u64, amount: i128, unlocks_at: u64 },
    PassMinted { pass_id: u64, tier_id: u32, fan: Address, expires_at: u64 },
    PassRenewed { pass_id: u64, fan: Address, expires_at: u64 },
    PassPaused { pass_id: u64, fan: Address, timestamp: u64 },
    PassResumed { pass_id: u64, fan: Address, timestamp: u64, paused_duration: u64 },
    CreatorWithdrew { creator: Address, amount: i128 },
    EarningReleased { creator: Address, earning_id: u64, amount: i128, timestamp: u64 },
    EarlyReleaseProposed { admin: Address, creator: Address, earning_id: u64, timestamp: u64 },
    EarlyReleaseExecuted {
        admin: Address,
        creator: Address,
        earning_id: u64,
        amount: i128,
        timestamp: u64,
    },
    PermissionGranted { creator: Address, fan: Address, tier_id: u32, expires_at: u64 },
    PermissionRevoked { creator: Address, fan: Address, tier_id: u32 },
    Migrated { from_version: u32, to_version: u32 },
}

impl Event {
    /// The topic under which the event is published.
    pub open spec fn topic_text(self) -> Seq<char> {
        match self {
            Event::Initialized { .. } => "initialized"@,
            Event::LockPeriodUpdated { .. } => "lock_period_updated"@,
            Event::OracleSet { .. } => "oracle_set"@,
            Event::FeesWithdrawn { .. } => "fees_withdrawn"@,
            Event::CreatorRegistered { .. } => "creator_registered"@,
            Event::TierCreated { .. } => "tier_created"@,
            Event::TierDeactivated { .. } => "tier_deactivated"@,
            Event::TierPriceUpdated { .. } => "tier_price_updated"@,
            Event::EarningPending { .. } => "earning_pending"@,
            Event::PassMinted { .. } => "pass_minted"@,
            Event::PassRenewed { .. } => "pass_renewed"@,
            Event::PassPaused { .. } => "pass_paused"@,
            Event::PassResumed { .. } => "pass_resumed"@,
            Event::CreatorWithdrew { .. } => "creator_withdrew"@,
            Event::EarningReleased { .. } => "earning_released"@,
            Event::EarlyReleaseProposed { .. } => "early_release_proposed"@,
            Event::EarlyReleaseExecuted { .. } => "early_release_executed"@,
            Event::PermissionGranted { .. } => "permission_granted"@,
            Event::PermissionRevoked { .. } => "permission_revoked"@,
            Event::Migrated { .. } => "migrated"@,
        }
    }

    /// The topic under which the event is published.
    pub fn topic(&self) -> (topic: &'static str)
        ensures
            topic@ == self.topic_text(),
    {
        match self {
            Event::Initialized { .. } => "initialized",
            Event::LockPeriodUpdated { .. } => "lock_period_updated",
            Event::OracleSet { .. } => "oracle_set",
            Event::FeesWithdrawn { .. } => "fees_withdrawn",
            Event::CreatorRegistered { .. } => "creator_registered",
            Event::TierCreated { .. } => "tier_created",
            Event::TierDeactivated { .. } => "tier_deactivated",
            Event::TierPriceUpdated { .. } => "tier_price_updated",
            Event::EarningPending { .. } => "earning_pending",
            Event::PassMinted { .. } => "pass_minted",
            Event::PassRenewed { .. } => "pass_renewed",
            Event::PassPaused { .. } => "pass_paused",
            Event::PassResumed { .. } => "pass_resumed",
            Event::CreatorWithdrew { .. } => "creator_withdrew",
            Event::EarningReleased { .. } => "earning_released",
            Event::EarlyReleaseProposed { .. } => "early_release_proposed",
            Event::EarlyReleaseExecuted { .. } => "early_release_executed",
            Event::PermissionGranted { .. } => "permission_granted",
            Event::PermissionRevoked { .. } => "permission_revoked",
            Event::Migrated { .. } => "migrated",
        }
    }
}

/// What the ledger has to carry out for a call to stand. If one of these fails,
/// the whole call is undone.
#[derive(Clone, Copy, Debug, PartialEq, Eq, Structural)]
pub enum Effect {
    /// The call needs the signature of this address.
    RequireAuth(Address),
    /// Tokens move.
    Transfer { token: Address, from: Address, to: Address, amount: i128 },
    /// The contract's code is replaced by the code with this hash.
    ReplaceCode(Bytes32),
    /// An event is published.
    Publish(Event),
}

} // verus!
