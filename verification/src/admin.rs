//! Setting the contract up, and what its admin decides.

use vstd::prelude::*;

use crate::address::{Address, Bytes32};
use crate::contract::StarPassContract;
use crate::effect::{Effect, Event};
use crate::env::{settles, Env, EnvView};
use crate::failure::{abort, error, Abort, Error, Failure};
use crate::pricing::{value_or, MAX_FEE_BPS};
use crate::storage::StorageView;
use crate::types::DataKey;

verus! {

/// The storage layout that a fresh contract has.
pub const INITIAL_VERSION: u32 = 1;

/// The storage layout that migration leads to.
pub const CURRENT_VERSION: u32 = 2;

/// The least withdrawal of a fresh contract: creators can withdraw any balance
/// until the admin says otherwise.
pub const INITIAL_MIN_WITHDRAWAL: i128 = 0;

/// Why `admin` cannot act as the contract's admin.
pub open spec fn admin_refusal(env: EnvView, admin: Address) -> Option<Failure> {
    if env.state.admin is None {
        abort(Abort::NotInitialized)
    } else if env.state.admin != Some(admin) {
        abort(Abort::NotAuthorized)
    } else {
        None
    }
}

/// Why the contract cannot be set up with a fee and a lock period.
pub open spec fn initialize_refusal(fee_bps: u32, lock_period_seconds: u64) -> Option<Failure> {
    if fee_bps > MAX_FEE_BPS {
        abort(Abort::FeeTooHigh)
    } else if lock_period_seconds == 0 {
        error(Error::InvalidLockPeriod)
    } else {
        None
    }
}

/// The ledger with the contract set up.
pub open spec fn initialized(
    env: EnvView,
    admin: Address,
    token: Address,
    fee_bps: u32,
    lock_period_seconds: u64,
) -> EnvView {
    EnvView {
        state: StorageView {
            admin: Some(admin),
            token: Some(token),
            protocol_fee_bps: Some(fee_bps),
            lock_period_seconds: Some(lock_period_seconds),
            tier_count: Some(0),
            pass_count: Some(0),
            contract_version: Some(INITIAL_VERSION),
            min_withdrawal: Some(INITIAL_MIN_WITHDRAWAL),
            writes: env.state.writes + seq![
                DataKey::Admin,
                DataKey::Token,
                DataKey::ProtocolFeeBps,
                DataKey::LockPeriodSeconds,
                DataKey::TierCount,
                DataKey::PassCount,
                DataKey::ContractVersion,
                DataKey::MinWithdrawal,
            ],
            ..env.state
        },
        effects: env.effects + seq![
            Effect::RequireAuth(admin),
            Effect::Publish(Event::Initialized { admin, token, fee_bps, lock_period_seconds }),
        ],
        ..env
    }
}

/// Why the fee cannot be set.
pub open spec fn set_fee_refusal(env: EnvView, fee_bps: u32) -> Option<Failure> {
    if env.state.admin is None {
        abort(Abort::NotInitialized)
    } else if fee_bps > MAX_FEE_BPS {
        abort(Abort::FeeTooHigh)
    } else {
        None
    }
}

/// The ledger with the fee set.
pub open spec fn fee_set(env: EnvView, fee_bps: u32) -> EnvView {
    EnvView {
        state: StorageView {
            protocol_fee_bps: Some(fee_bps),
            writes: env.state.writes.push(DataKey::ProtocolFeeBps),
            ..env.state
        },
        effects: env.effects.push(Effect::RequireAuth(env.state.admin->0)),
        ..env
    }
}

/// Why the lock period cannot be changed.
pub open spec fn lock_period_refusal(
    env: EnvView,
    admin: Address,
    new_period_seconds: u64,
) -> Option<Failure> {
    match admin_refusal(env, admin) {
        Some(reason) => Some(reason),
        None => if new_period_seconds == 0 {
            error(Error::InvalidLockPeriod)
        } else {
            None
        },
    }
}

/// The ledger with the lock period changed.
pub open spec fn lock_period_updated(
    env: EnvView,
    admin: Address,
    new_period_seconds: u64,
) -> EnvView {
    EnvView {
        state: StorageView {
            lock_period_seconds: Some(new_period_seconds),
            writes: env.state.writes.push(DataKey::LockPeriodSeconds),
            ..env.state
        },
        effects: env.effects + seq![
            Effect::RequireAuth(admin),
            Effect::Publish(
                Event::LockPeriodUpdated {
                    old_period_seconds: value_or(env.state.lock_period_seconds, 0),
                    new_period_seconds,
                },
            ),
        ],
        ..env
    }
}

/// The ledger with the price oracle set.
pub open spec fn oracle_set(env: EnvView, admin: Address, oracle: Address) -> EnvView {
    EnvView {
        state: StorageView {
            oracle: Some(oracle),
            writes: env.state.writes.push(DataKey::OracleContract),
            ..env.state
        },
        effects: env.effects + seq![
            Effect::RequireAuth(admin),
            Effect::Publish(Event::OracleSet { admin, oracle }),
        ],
        ..env
    }
}

/// Why fees cannot be withdrawn.
pub open spec fn fees_refusal(env: EnvView, amount: i128) -> Option<Failure> {
    if env.state.admin is None {
        abort(Abort::NotInitialized)
    } else if amount <= 0 {
        abort(Abort::AmountNotPositive)
    } else if env.state.token is None {
        abort(Abort::TokenNotSet)
    } else {
        None
    }
}

/// The ledger with fees withdrawn.
pub open spec fn fees_withdrawn(env: EnvView, recipient: Address, amount: i128) -> EnvView {
    EnvView {
        effects: env.effects + seq![
            Effect::RequireAuth(env.state.admin->0),
            Effect::Transfer {
                token: env.state.token->0,
                from: env.contract,
                to: recipient,
                amount,
            },
            Effect::Publish(Event::FeesWithdrawn { recipient, amount }),
        ],
        ..env
    }
}

/// Why the least withdrawal cannot be changed.
pub open spec fn min_withdrawal_refusal(env: EnvView, admin: Address, new_min: i128) -> Option<
    Failure,
> {
    if env.state.admin is None {
        abort(Abort::AdminNotSet)
    } else if env.state.admin != Some(admin) {
        abort(Abort::Unauthorized)
    } else if new_min < 0 {
        abort(Abort::NegativeMinWithdrawal)
    } else {
        None
    }
}

/// The ledger with the least withdrawal changed.
pub open spec fn min_withdrawal_updated(env: EnvView, admin: Address, new_min: i128) -> EnvView {
    EnvView {
        state: StorageView {
            min_withdrawal: Some(new_min),
            writes: env.state.writes.push(DataKey::MinWithdrawal),
            ..env.state
        },
        effects: env.effects.push(Effect::RequireAuth(admin)),
        ..env
    }
}

/// The ledger with new contract code asked for.
pub open spec fn upgraded(env: EnvView, admin: Address, code_hash: Bytes32) -> EnvView {
    EnvView {
        effects: env.effects + seq![Effect::RequireAuth(admin), Effect::ReplaceCode(code_hash)],
        ..env
    }
}

/// The storage layout on record.
pub open spec fn version(env: EnvView) -> u32 {
    value_or(env.state.contract_version, 0)
}

/// Why the storage cannot be migrated.
pub open spec fn migration_refusal(env: EnvView, admin: Address) -> Option<Failure> {
    match admin_refusal(env, admin) {
        Some(reason) => Some(reason),
        None => if version(env) >= CURRENT_VERSION {
            abort(Abort::AlreadyMigrated)
        } else {
            None
        },
    }
}

/// The ledger with the storage migrated.
pub open spec fn migrated(env: EnvView, admin: Address) -> EnvView {
    EnvView {
        state: StorageView {
            contract_version: Some(CURRENT_VERSION),
            writes: env.state.writes.push(DataKey::ContractVersion),
            ..env.state
        },
        effects: env.effects + seq![
            Effect::RequireAuth(admin),
            Effect::Publish(
                Event::Migrated { from_version: version(env), to_version: CURRENT_VERSION },
            ),
        ],
        ..env
    }
}

/// Checks that `admin` is the contract's admin.
pub fn check_admin(env: &Env, admin: Address) -> (found: Result<(), Failure>)
    ensures
        match found {
            Ok(_) => admin_refusal(env@, admin) is None,
            Err(reason) => admin_refusal(env@, admin) == Some(reason),
        },
{
    match env.storage.admin() {
        None => Err(Failure::Abort(Abort::NotInitialized)),
        Some(stored) => if stored == admin {
            Ok(())
        } else {
            Err(Failure::Abort(Abort::NotAuthorized))
        },
    }
}

impl StarPassContract {
    /// Sets the contract up: its admin, who signs, the payment token, the
    /// protocol fee and the lock period. The counts of tiers and passes start
    /// at zero.
    pub fn initialize(
        env: &mut Env,
        admin: Address,
        token: Address,
        fee_bps: u32,
        lock_period_seconds: u64,
    ) -> (result: Result<(), Failure>)
        ensures
            settles(
                initialize_refusal(fee_bps, lock_period_seconds),
                (),
                initialized(old(env)@, admin, token, fee_bps, lock_period_seconds),
                old(env)@,
                result,
                final(env)@,
            ),
    {
        if fee_bps > MAX_FEE_BPS {
            return Err(Failure::Abort(Abort::FeeTooHigh));
        }
        if lock_period_seconds == 0 {
            return Err(Failure::Error(Error::InvalidLockPeriod));
        }
        env.require_auth(admin);
        env.storage.set_admin(admin);
        env.storage.set_token(token);
        env.storage.set_protocol_fee_bps(fee_bps);
        env.storage.set_lock_period_seconds(lock_period_seconds);
        env.storage.set_tier_count(0);
        env.storage.set_pass_count(0);
        env.storage.set_contract_version(INITIAL_VERSION);
        env.storage.set_min_withdrawal(INITIAL_MIN_WITHDRAWAL);
        env.publish(Event::Initialized { admin, token, fee_bps, lock_period_seconds });
        assert(env@ =~= initialized(old(env)@, admin, token, fee_bps, lock_period_seconds));
        Ok(())
    }

    /// Sets the protocol fee on future payments. The admin signs.
    pub fn set_fee(env: &mut Env, fee_bps: u32) -> (result: Result<(), Failure>)
        ensures
            settles(
                set_fee_refusal(old(env)@, fee_bps),
                (),
                fee_set(old(env)@, fee_bps),
                old(env)@,
                result,
                final(env)@,
            ),
    {
        let admin = match env.storage.admin() {
            Some(admin) => admin,
            None => return Err(Failure::Abort(Abort::NotInitialized)),
        };
        if fee_bps > MAX_FEE_BPS {
            return Err(Failure::Abort(Abort::FeeTooHigh));
        }
        env.require_auth(admin);
        env.storage.set_protocol_fee_bps(fee_bps);
        assert(env@ =~= fee_set(old(env)@, fee_bps));
        Ok(())
    }

    /// Changes the lock period of future earnings. The admin signs.
    pub fn update_lock_period(env: &mut Env, admin: Address, new_period_seconds: u64) -> (result:
        Result<(), Failure>)
        ensures
            settles(
                lock_period_refusal(old(env)@, admin, new_period_seconds),
                (),
                lock_period_updated(old(env)@, admin, new_period_seconds),
                old(env)@,
                result,
                final(env)@,
            ),
    {
        if let Err(reason) = check_admin(env, admin) {
            return Err(reason);
        }
        if new_period_seconds == 0 {
            return Err(Failure::Error(Error::InvalidLockPeriod));
        }
        let old_period_seconds: u64 = match env.storage.lock_period_seconds() {
            Some(period) => period,
            None => 0,
        };
        env.require_auth(admin);
        env.storage.set_lock_period_seconds(new_period_seconds);
        env.publish(Event::LockPeriodUpdated { old_period_seconds, new_period_seconds });
        assert(env@ =~= lock_period_updated(old(env)@, admin, new_period_seconds));
        Ok(())
    }

    /// Sets the price oracle by which USD prices are converted. The admin signs.
    pub fn set_oracle(env: &mut Env, admin: Address, oracle_address: Address) -> (result: Result<
        (),
        Failure,
    >)
        ensures
            settles(
                admin_refusal(old(env)@, admin),
                (),
                oracle_set(old(env)@, admin, oracle_address),
                old(env)@,
                result,
                final(env)@,
            ),
    {
        if let Err(reason) = check_admin(env, admin) {
            return Err(reason);
        }
        env.require_auth(admin);
        env.storage.set_oracle(oracle_address);
        env.publish(Event::OracleSet { admin, oracle: oracle_address });
        assert(env@ =~= oracle_set(old(env)@, admin, oracle_address));
        Ok(())
    }

    /// The price oracle, if one is set.
    pub fn get_oracle(env: &Env) -> (oracle: Option<Address>)
        ensures
            oracle == env@.state.oracle,
    {
        env.storage.oracle()
    }

    /// Pays `amount` of the protocol's fees out to `recipient`. The admin signs.
    pub fn withdraw_fees(env: &mut Env, recipient: Address, amount: i128) -> (result: Result<
        (),
        Failure,
    >)
        ensures
            settles(
                fees_refusal(old(env)@, amount),
                (),
                fees_withdrawn(old(env)@, recipient, amount),
                old(env)@,
                result,
                final(env)@,
            ),
    {
        let admin = match env.storage.admin() {
            Some(admin) => admin,
            None => return Err(Failure::Abort(Abort::NotInitialized)),
        };
        if amount <= 0 {
            return Err(Failure::Abort(Abort::AmountNotPositive));
        }
        let token = match env.storage.token() {
            Some(token) => token,
            None => return Err(Failure::Abort(Abort::TokenNotSet)),
        };
        env.require_auth(admin);
        env.transfer(token, env.contract, recipient, amount);
        env.publish(Event::FeesWithdrawn { recipient, amount });
        assert(env@ =~= fees_withdrawn(old(env)@, recipient, amount));
        Ok(())
    }

    /// Changes the least balance that can be withdrawn. The admin signs.
    pub fn update_min_withdrawal(env: &mut Env, admin: Address, new_min: i128) -> (result: Result<
        (),
        Failure,
    >)
        ensures
            settles(
                min_withdrawal_refusal(old(env)@, admin, new_min),
                (),
                min_withdrawal_updated(old(env)@, admin, new_min),
                old(env)@,
                result,
                final(env)@,
            ),
    {
        match env.storage.admin() {
            None => return Err(Failure::Abort(Abort::AdminNotSet)),
            Some(stored) => if stored != admin {
                return Err(Failure::Abort(Abort::Unauthorized));
            },
        }
        if new_min < 0 {
            return Err(Failure::Abort(Abort::NegativeMinWithdrawal));
        }
        env.require_auth(admin);
        env.storage.set_min_withdrawal(new_min);
        assert(env@ =~= min_withdrawal_updated(old(env)@, admin, new_min));
        Ok(())
    }

    /// Replaces the contract's code by the code with the given hash. The admin
    /// signs. The next call should be [`StarPassContract::migrate`].
    pub fn upgrade(env: &mut Env, admin: Address, new_wasm_hash: Bytes32) -> (result: Result<
        (),
        Failure,
    >)
        ensures
            settles(
                admin_refusal(old(env)@, admin),
                (),
                upgraded(old(env)@, admin, new_wasm_hash),
                old(env)@,
                result,
                final(env)@,
            ),
    {
        if let Err(reason) = check_admin(env, admin) {
            return Err(reason);
        }
        env.require_auth(admin);
        env.replace_code(new_wasm_hash);
        assert(env@ =~= upgraded(old(env)@, admin, new_wasm_hash));
        Ok(())
    }

    /// Brings the storage to the current layout, once. The admin signs. No
    /// entry but the version changes.
    pub fn migrate(env: &mut Env, admin: Address) -> (result: Result<(), Failure>)
        ensures
            settles(
                migration_refusal(old(env)@, admin),
                (),
                migrated(old(env)@, admin),
                old(env)@,
                result,
                final(env)@,
            ),
    {
        if let Err(reason) = check_admin(env, admin) {
            return Err(reason);
        }
        let from_version: u32 = match env.storage.contract_version() {
            Some(version) => version,
            None => 0,
        };
        if from_version >= CURRENT_VERSION {
            return Err(Failure::Abort(Abort::AlreadyMigrated));
        }
        env.require_auth(admin);
        env.storage.set_contract_version(CURRENT_VERSION);
        env.publish(Event::Migrated { from_version, to_version: CURRENT_VERSION });
        assert(env@ =~= migrated(old(env)@, admin));
        Ok(())
    }
}

} // verus!
