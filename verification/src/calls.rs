//! The calls that can change the ledger, taken together: what the laws that hold
//! of every call speak of.

use vstd::prelude::*;

use crate::address::{Address, Bytes32};
use crate::admin::{
    admin_refusal, fee_set, fees_refusal, fees_withdrawn, initialize_refusal, initialized,
    lock_period_refusal, lock_period_updated, migrated, migration_refusal, min_withdrawal_refusal,
    min_withdrawal_updated, oracle_set, set_fee_refusal, upgraded,
};
use crate::earnings::{
    approval_refusal, approved, due_now, proposal_refusal, proposed, release_refusal, released,
    withdrawal_refusal, withdrawn,
};
use crate::env::EnvView;
use crate::failure::Failure;
use crate::passes::{
    mint_refusal, minted, pause_refusal, paused, renew_refusal, renewed, resume_refusal, resumed,
};
use crate::permissions::{grant_refusal, granted, revocation_refusal, revoked};
use crate::pricing::Quote;
use crate::tiers::{
    deactivated, deactivation_refusal, registered, registration_refusal, repriced,
    repricing_refusal, tier_created, tier_refusal,
};
use crate::types::TierPriceMode;

verus! {

/// A call that can change the ledger, with its arguments. The calls that create
/// or reprice a tier take a price of either kind; those that take a payment have
/// the oracle's answer with them.
pub ghost enum Call {
    Initialize { admin: Address, token: Address, fee_bps: u32, lock_period_seconds: u64 },
    SetFee { fee_bps: u32 },
    UpdateLockPeriod { admin: Address, new_period_seconds: u64 },
    SetOracle { admin: Address, oracle: Address },
    WithdrawFees { recipient: Address, amount: i128 },
    UpdateMinWithdrawal { admin: Address, new_min: i128 },
    Upgrade { admin: Address, code_hash: Bytes32 },
    Migrate { admin: Address },
    RegisterCreator { creator: Address },
    CreateTier {
        creator: Address,
        name: Seq<u8>,
        price: TierPriceMode,
        duration: u64,
        max_supply: u32,
        permissions: Seq<Seq<char>>,
    },
    DeactivateTier { creator: Address, tier_id: u32 },
    UpdateTierPrice { creator: Address, tier_id: u32, price: TierPriceMode },
    MintPass {
        fan: Address,
        tier_id: u32,
        permissions: Seq<Seq<char>>,
        quote: Option<Quote>,
    },
    RenewPass { fan: Address, pass_id: u64, quote: Option<Quote> },
    PausePass { fan: Address, pass_id: u64 },
    ResumePass { fan: Address, pass_id: u64 },
    Withdraw { creator: Address },
    ProcessUnlockedEarnings { creator: Address },
    ProposeEarlyRelease { admin: Address, creator: Address, earning_id: u64 },
    ApproveEarlyRelease { creator: Address, earning_id: u64 },
    GrantPermission {
        creator: Address,
        fan: Address,
        tier_id: u32,
        permissions: Seq<Seq<char>>,
        duration: u64,
    },
    RevokePermissionGrant { creator: Address, fan: Address, tier_id: u32 },
}

impl Call {
    /// Why the call is refused, if it is.
    pub open spec fn refusal(self, env: EnvView) -> Option<Failure> {
        match self {
            Call::Initialize { fee_bps, lock_period_seconds, .. } => initialize_refusal(
                fee_bps,
                lock_period_seconds,
            ),
            Call::SetFee { fee_bps } => set_fee_refusal(env, fee_bps),
            Call::UpdateLockPeriod { admin, new_period_seconds } => lock_period_refusal(
                env,
                admin,
                new_period_seconds,
            ),
            Call::SetOracle { admin, .. } => admin_refusal(env, admin),
            Call::WithdrawFees { amount, .. } => fees_refusal(env, amount),
            Call::UpdateMinWithdrawal { admin, new_min } => min_withdrawal_refusal(
                env,
                admin,
                new_min,
            ),
            Call::Upgrade { admin, .. } => admin_refusal(env, admin),
            Call::Migrate { admin } => migration_refusal(env, admin),
            Call::RegisterCreator { creator } => registration_refusal(env, creator),
            Call::CreateTier { creator, name, price, duration, .. } => tier_refusal(
                env,
                creator,
                name,
                price,
                duration,
            ),
            Call::DeactivateTier { creator, tier_id } => deactivation_refusal(
                env,
                creator,
                tier_id,
            ),
            Call::UpdateTierPrice { creator, tier_id, price } => repricing_refusal(
                env,
                creator,
                tier_id,
                price,
            ),
            Call::MintPass { tier_id, permissions, quote, .. } => mint_refusal(
                env,
                tier_id,
                permissions,
                quote,
            ),
            Call::RenewPass { fan, pass_id, quote } => renew_refusal(env, fan, pass_id, quote),
            Call::PausePass { fan, pass_id } => pause_refusal(env, fan, pass_id),
            Call::ResumePass { fan, pass_id } => resume_refusal(env, fan, pass_id),
            Call::Withdraw { creator } => withdrawal_refusal(env, creator),
            Call::ProcessUnlockedEarnings { creator } => release_refusal(env, creator),
            Call::ProposeEarlyRelease { admin, creator, earning_id } => proposal_refusal(
                env,
                admin,
                creator,
                earning_id,
            ),
            Call::ApproveEarlyRelease { creator, earning_id } => approval_refusal(
                env,
                creator,
                earning_id,
            ),
            Call::GrantPermission { creator, tier_id, permissions, .. } => grant_refusal(
                env,
                creator,
                tier_id,
                permissions,
            ),
            Call::RevokePermissionGrant { creator, fan, tier_id } => revocation_refusal(
                env,
                creator,
                fan,
                tier_id,
            ),
        }
    }

    /// The ledger after the call, if it is not refused.
    pub open spec fn applied(self, env: EnvView) -> EnvView {
        match self {
            Call::Initialize { admin, token, fee_bps, lock_period_seconds } => initialized(
                env,
                admin,
                token,
                fee_bps,
                lock_period_seconds,
            ),
            Call::SetFee { fee_bps } => fee_set(env, fee_bps),
            Call::UpdateLockPeriod { admin, new_period_seconds } => lock_period_updated(
                env,
                admin,
                new_period_seconds,
            ),
            Call::SetOracle { admin, oracle } => oracle_set(env, admin, oracle),
            Call::WithdrawFees { recipient, amount } => fees_withdrawn(env, recipient, amount),
            Call::UpdateMinWithdrawal { admin, new_min } => min_withdrawal_updated(
                env,
                admin,
                new_min,
            ),
            Call::Upgrade { admin, code_hash } => upgraded(env, admin, code_hash),
            Call::Migrate { admin } => migrated(env, admin),
            Call::RegisterCreator { creator } => registered(env, creator),
            Call::CreateTier {
                creator,
                name,
                price,
                duration,
                max_supply,
                permissions,
            } => tier_created(env, creator, name, price, duration, max_supply, permissions),
            Call::DeactivateTier { creator, tier_id } => deactivated(env, creator, tier_id),
            Call::UpdateTierPrice { creator, tier_id, price } => repriced(
                env,
                creator,
                tier_id,
                price,
            ),
            Call::MintPass { fan, tier_id, permissions, quote } => minted(
                env,
                fan,
                tier_id,
                permissions,
                quote,
            ),
            Call::RenewPass { fan, pass_id, quote } => renewed(env, fan, pass_id, quote),
            Call::PausePass { fan, pass_id } => paused(env, fan, pass_id),
            Call::ResumePass { fan, pass_id } => resumed(env, fan, pass_id),
            Call::Withdraw { creator } => withdrawn(env, creator),
            Call::ProcessUnlockedEarnings { creator } => released(
                env,
                creator,
                due_now(env, creator),
            ),
            Call::ProposeEarlyRelease { admin, creator, earning_id } => proposed(
                env,
                admin,
                creator,
                earning_id,
            ),
            Call::ApproveEarlyRelease { creator, earning_id } => approved(
                env,
                creator,
                earning_id,
            ),
            Call::GrantPermission { creator, fan, tier_id, permissions, duration } => granted(
                env,
                creator,
                fan,
                tier_id,
                permissions,
                duration,
            ),
            Call::RevokePermissionGrant { creator, fan, tier_id } => revoked(
                env,
                creator,
                fan,
                tier_id,
            ),
        }
    }

    /// The ledger after the call, whether it is refused or not.
    pub open spec fn outcome(self, env: EnvView) -> EnvView {
        if self.refusal(env) is None {
            self.applied(env)
        } else {
            env
        }
    }

    /// Whose signature the call needs. Releasing what is due needs none.
    pub open spec fn signer(self, env: EnvView) -> Option<Address> {
        match self {
            Call::Initialize { admin, .. } => Some(admin),
            Call::SetFee { .. } => env.state.admin,
            Call::UpdateLockPeriod { admin, .. } => Some(admin),
            Call::SetOracle { admin, .. } => Some(admin),
            Call::WithdrawFees { .. } => env.state.admin,
            Call::UpdateMinWithdrawal { admin, .. } => Some(admin),
            Call::Upgrade { admin, .. } => Some(admin),
            Call::Migrate { admin } => Some(admin),
            Call::RegisterCreator { creator } => Some(creator),
            Call::CreateTier { creator, .. } => Some(creator),
            Call::DeactivateTier { creator, .. } => Some(creator),
            Call::UpdateTierPrice { creator, .. } => Some(creator),
            Call::MintPass { fan, .. } => Some(fan),
            Call::RenewPass { fan, .. } => Some(fan),
            Call::PausePass { fan, .. } => Some(fan),
            Call::ResumePass { fan, .. } => Some(fan),
            Call::Withdraw { creator } => Some(creator),
            Call::ProcessUnlockedEarnings { .. } => None,
            Call::ProposeEarlyRelease { admin, .. } => Some(admin),
            Call::ApproveEarlyRelease { creator, .. } => Some(creator),
            Call::GrantPermission { creator, .. } => Some(creator),
            Call::RevokePermissionGrant { creator, .. } => Some(creator),
        }
    }

    /// Whether only the contract's admin can make the call.
    pub open spec fn admin_only(self) -> bool {
        match self {
            Call::SetFee { .. } => true,
            Call::UpdateLockPeriod { .. } => true,
            Call::SetOracle { .. } => true,
            Call::WithdrawFees { .. } => true,
            Call::UpdateMinWithdrawal { .. } => true,
            Call::Upgrade { .. } => true,
            Call::Migrate { .. } => true,
            Call::ProposeEarlyRelease { .. } => true,
            _ => false,
        }
    }
}

} // verus!
