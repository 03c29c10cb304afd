//! The admin's calls, condition by condition and field by field.

use vstd::prelude::*;

use crate::address::{Address, Bytes32};
use crate::admin::{
    admin_refusal, fee_set, fees_refusal, fees_withdrawn, initialize_refusal, initialized,
    lock_period_refusal, lock_period_updated, migrated, migration_refusal, min_withdrawal_refusal,
    min_withdrawal_updated, oracle_set, set_fee_refusal, upgraded, version,
};
use crate::effect::{Effect, Event};
use crate::env::EnvView;
use crate::failure::{Abort, Error, Failure};
use crate::storage::StorageView;
use crate::types::DataKey;

verus! {

/// Setting up takes any fee of at most a tenth and any lock period but zero.
pub proof fn law_setup_takes_fees_up_to_a_tenth(fee_bps: u32, lock_period_seconds: u64)
    ensures
        ({
            let refusal = initialize_refusal(fee_bps, lock_period_seconds);
            &&& refusal is None <==> fee_bps <= 1000 && lock_period_seconds > 0
            &&& refusal == Some(Failure::Abort(Abort::FeeTooHigh)) <==> fee_bps > 1000
            &&& refusal == Some(Failure::Error(Error::InvalidLockPeriod)) <==> fee_bps <= 1000
                && lock_period_seconds == 0
        }),
{
}

/// Setting up records the admin, the token, the fee and the lock period as given,
/// starts the counts of tiers and passes and the least withdrawal at zero, and the
/// version at one. Nothing else changes. The admin signs, and it is published.
pub proof fn law_setup_is_recorded_as_given(
    env: EnvView,
    admin: Address,
    token: Address,
    fee_bps: u32,
    lock_period_seconds: u64,
)
    ensures
        ({
            let after = initialized(env, admin, token, fee_bps, lock_period_seconds);
            &&& after.now == env.now && after.contract == env.contract
            &&& after.state.admin == Some(admin)
            &&& after.state.token == Some(token)
            &&& after.state.protocol_fee_bps == Some(fee_bps)
            &&& after.state.lock_period_seconds == Some(lock_period_seconds)
            &&& after.state.tier_count == Some(0u32)
            &&& after.state.pass_count == Some(0u64)
            &&& after.state.contract_version == Some(1u32)
            &&& after.state.min_withdrawal == Some(0i128)
            &&& after.state == (StorageView {
                admin: after.state.admin,
                token: after.state.token,
                protocol_fee_bps: after.state.protocol_fee_bps,
                lock_period_seconds: after.state.lock_period_seconds,
                tier_count: after.state.tier_count,
                pass_count: after.state.pass_count,
                contract_version: after.state.contract_version,
                min_withdrawal: after.state.min_withdrawal,
                writes: after.state.writes,
                ..env.state
            })
            &&& after.state.writes == env.state.writes.push(DataKey::Admin).push(
                DataKey::Token,
            ).push(DataKey::ProtocolFeeBps).push(DataKey::LockPeriodSeconds).push(
                DataKey::TierCount,
            ).push(DataKey::PassCount).push(DataKey::ContractVersion).push(DataKey::MinWithdrawal)
            &&& after.effects == env.effects.push(Effect::RequireAuth(admin)).push(
                Effect::Publish(Event::Initialized { admin, token, fee_bps, lock_period_seconds }),
            )
        }),
{
}

/// The admin's calls are refused to nobody but to those who are not the admin.
pub proof fn law_admin_is_who_was_set(env: EnvView, caller: Address)
    ensures
        ({
            let refusal = admin_refusal(env, caller);
            &&& refusal is None <==> env.state.admin == Some(caller)
            &&& refusal == Some(Failure::Abort(Abort::NotInitialized)) <==> env.state.admin is None
            &&& refusal == Some(Failure::Abort(Abort::NotAuthorized)) <==> env.state.admin is Some
                && env.state.admin->0 != caller
        }),
{
}

/// The fee can be set to anything up to a tenth, and to nothing above. It becomes
/// exactly that, and nothing else changes. The admin on record signs.
pub proof fn law_fee_is_set_as_given(env: EnvView, fee_bps: u32)
    ensures
        ({
            let refusal = set_fee_refusal(env, fee_bps);
            let after = fee_set(env, fee_bps);
            &&& refusal is None <==> env.state.admin is Some && fee_bps <= 1000
            &&& refusal == Some(Failure::Abort(Abort::NotInitialized)) <==> env.state.admin is None
            &&& refusal == Some(Failure::Abort(Abort::FeeTooHigh)) <==> env.state.admin is Some
                && fee_bps > 1000
            &&& after.now == env.now && after.contract == env.contract
            &&& after.state.protocol_fee_bps == Some(fee_bps)
            &&& after.state == (StorageView {
                protocol_fee_bps: after.state.protocol_fee_bps,
                writes: after.state.writes,
                ..env.state
            })
            &&& after.state.writes == env.state.writes.push(DataKey::ProtocolFeeBps)
            &&& env.state.admin matches Some(admin) ==> after.effects == env.effects.push(
                Effect::RequireAuth(admin),
            )
        }),
{
}

/// The admin can set the lock period to anything but zero. It becomes exactly that,
/// and nothing else changes. The admin signs, and both periods are published.
pub proof fn law_lock_period_is_set_as_given(env: EnvView, admin: Address, new_period_seconds: u64)
    ensures
        ({
            let refusal = lock_period_refusal(env, admin, new_period_seconds);
            let after = lock_period_updated(env, admin, new_period_seconds);
            &&& refusal is None <==> env.state.admin == Some(admin) && new_period_seconds > 0
            &&& refusal == Some(Failure::Abort(Abort::NotInitialized)) <==> env.state.admin is None
            &&& refusal == Some(Failure::Abort(Abort::NotAuthorized)) <==> env.state.admin is Some
                && env.state.admin->0 != admin
            &&& refusal == Some(Failure::Error(Error::InvalidLockPeriod)) <==> env.state.admin
                == Some(admin) && new_period_seconds == 0
            &&& after.now == env.now && after.contract == env.contract
            &&& after.state.lock_period_seconds == Some(new_period_seconds)
            &&& after.state == (StorageView {
                lock_period_seconds: after.state.lock_period_seconds,
                writes: after.state.writes,
                ..env.state
            })
            &&& after.state.writes == env.state.writes.push(DataKey::LockPeriodSeconds)
            &&& env.state.lock_period_seconds matches Some(old_period_seconds) ==> after.effects
                == env.effects.push(Effect::RequireAuth(admin)).push(
                Effect::Publish(
                    Event::LockPeriodUpdated { old_period_seconds, new_period_seconds },
                ),
            )
            &&& env.state.lock_period_seconds is None ==> after.effects == env.effects.push(
                Effect::RequireAuth(admin),
            ).push(
                Effect::Publish(
                    Event::LockPeriodUpdated { old_period_seconds: 0, new_period_seconds },
                ),
            )
        }),
{
}

/// The admin's oracle is the oracle, and nothing else changes. The admin signs, and
/// it is published.
pub proof fn law_oracle_is_set_as_given(env: EnvView, admin: Address, oracle: Address)
    ensures
        ({
            let after = oracle_set(env, admin, oracle);
            &&& after.now == env.now && after.contract == env.contract
            &&& after.state.oracle == Some(oracle)
            &&& after.state == (StorageView {
                oracle: after.state.oracle,
                writes: after.state.writes,
                ..env.state
            })
            &&& after.state.writes == env.state.writes.push(DataKey::OracleContract)
            &&& after.effects == env.effects.push(Effect::RequireAuth(admin)).push(
                Effect::Publish(Event::OracleSet { admin, oracle }),
            )
        }),
{
}

/// Any positive amount of fees can be sent to anyone. Exactly that amount of the
/// payment token is sent from the contract; no entry changes. The admin on record
/// signs, and it is published.
pub proof fn law_fees_are_sent_as_given(env: EnvView, recipient: Address, amount: i128)
    ensures
        ({
            let refusal = fees_refusal(env, amount);
            let after = fees_withdrawn(env, recipient, amount);
            &&& refusal is None <==> env.state.admin is Some && amount > 0
                && env.state.token is Some
            &&& refusal == Some(Failure::Abort(Abort::NotInitialized)) <==> env.state.admin is None
            &&& refusal == Some(Failure::Abort(Abort::AmountNotPositive))
                <==> env.state.admin is Some && amount <= 0
            &&& refusal == Some(Failure::Abort(Abort::TokenNotSet)) <==> env.state.admin is Some
                && amount > 0 && env.state.token is None
            &&& after.now == env.now && after.contract == env.contract
            &&& after.state == env.state
            &&& refusal is None ==> after.effects == env.effects.push(
                Effect::RequireAuth(env.state.admin->0),
            ).push(
                Effect::Transfer {
                    token: env.state.token->0,
                    from: env.contract,
                    to: recipient,
                    amount,
                },
            ).push(Effect::Publish(Event::FeesWithdrawn { recipient, amount }))
        }),
{
}

/// The admin can set the least withdrawal to anything that is not negative. It
/// becomes exactly that, and nothing else changes. The admin signs.
pub proof fn law_min_withdrawal_is_set_as_given(env: EnvView, admin: Address, new_min: i128)
    ensures
        ({
            let refusal = min_withdrawal_refusal(env, admin, new_min);
            let after = min_withdrawal_updated(env, admin, new_min);
            &&& refusal is None <==> env.state.admin == Some(admin) && new_min >= 0
            &&& refusal == Some(Failure::Abort(Abort::AdminNotSet)) <==> env.state.admin is None
            &&& refusal == Some(Failure::Abort(Abort::Unauthorized)) <==> env.state.admin is Some
                && env.state.admin->0 != admin
            &&& refusal == Some(Failure::Abort(Abort::NegativeMinWithdrawal)) <==> env.state.admin
                == Some(admin) && new_min < 0
            &&& after.now == env.now && after.contract == env.contract
            &&& after.state.min_withdrawal == Some(new_min)
            &&& after.state == (StorageView {
                min_withdrawal: after.state.min_withdrawal,
                writes: after.state.writes,
                ..env.state
            })
            &&& after.state.writes == env.state.writes.push(DataKey::MinWithdrawal)
            &&& after.effects == env.effects.push(Effect::RequireAuth(admin))
        }),
{
}

/// An upgrade asks for the code with the given hash; no entry changes. The admin
/// signs.
pub proof fn law_upgrade_asks_for_the_given_code(env: EnvView, admin: Address, code_hash: Bytes32)
    ensures
        ({
            let after = upgraded(env, admin, code_hash);
            &&& after.now == env.now && after.contract == env.contract
            &&& after.state == env.state
            &&& after.effects == env.effects.push(Effect::RequireAuth(admin)).push(
                Effect::ReplaceCode(code_hash),
            )
        }),
{
}

/// The admin can migrate from any version before the second, to the second, and
/// nothing else changes. The admin signs, and both versions are published.
pub proof fn law_migration_leads_to_the_second_version(env: EnvView, admin: Address)
    ensures
        ({
            let refusal = migration_refusal(env, admin);
            let after = migrated(env, admin);
            let done = env.state.contract_version is Some && env.state.contract_version->0 >= 2;
            &&& refusal is None <==> env.state.admin == Some(admin) && !done
            &&& refusal == Some(Failure::Abort(Abort::NotInitialized)) <==> env.state.admin is None
            &&& refusal == Some(Failure::Abort(Abort::NotAuthorized)) <==> env.state.admin is Some
                && env.state.admin->0 != admin
            &&& refusal == Some(Failure::Abort(Abort::AlreadyMigrated)) <==> env.state.admin
                == Some(admin) && done
            &&& after.now == env.now && after.contract == env.contract
            &&& after.state.contract_version == Some(2u32)
            &&& version(after) == 2
            &&& after.state == (StorageView {
                contract_version: after.state.contract_version,
                writes: after.state.writes,
                ..env.state
            })
            &&& after.state.writes == env.state.writes.push(DataKey::ContractVersion)
            &&& after.effects == env.effects.push(Effect::RequireAuth(admin)).push(
                Effect::Publish(Event::Migrated { from_version: version(env), to_version: 2 }),
            )
        }),
{
}

} // verus!
