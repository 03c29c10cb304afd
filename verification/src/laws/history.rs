//! What holds of every call, and of every sequence of calls.

use vstd::prelude::*;

use crate::address::Address;
use crate::admin::{migrated, migration_refusal, version, CURRENT_VERSION};
use crate::calls::Call;
use crate::earnings::{balance_of, due_now, marked_released, released};
use crate::effect::Effect;
use crate::env::EnvView;
use crate::failure::{abort, Abort};
use crate::laws::books::{
    books_in_order, law_calls_keep_books_in_order, law_fresh_books_are_in_order,
};
use crate::laws::escrow::{
    asked, earned, law_books_balance, law_only_withdrawal_pays_out, lemma_asks_no_transfer,
    paid_out, released_sum_of,
};
use crate::order::{
    earnings_of, in_order, law_calls_keep_entries_in_order, minted_up_to, sum_of, unused,
};
use crate::passes::{minted, renewed};
use crate::pricing::{Quote, MAX_FEE_BPS};
use crate::storage::StorageView;
use crate::table::lookup;
use crate::tiers::registration_refusal;
use crate::types::{DataKey, EarningKey, GrantKey};

verus! {

/// The ledger after some calls, each at its time.
pub open spec fn after_history(env: EnvView, history: Seq<(u64, Call)>) -> EnvView
    decreases history.len(),
{
    if history.len() == 0 {
        env
    } else {
        let before = after_history(env, history.drop_last());
        let (now, call) = history.last();
        call.outcome(EnvView { now, ..before })
    }
}

/// Whether the contract is set up only while it is unused.
pub open spec fn set_up_while_unused(env: EnvView, history: Seq<(u64, Call)>) -> bool {
    forall|k: int|
        0 <= k < history.len() && (#[trigger] history[k]).1 is Initialize ==> unused(
            after_history(env, history.take(k)).state,
        )
}

/// A contract without entries is in order.
pub proof fn law_fresh_contract_is_in_order()
    ensures
        in_order(StorageView::empty()),
        unused(StorageView::empty()),
{
    assert(minted_up_to(StorageView::empty().tiers, 0) == 0);
    assert(StorageView::empty().tiers =~= Map::empty());
    assert(StorageView::empty().passes =~= Map::empty());
}

/// What holds of setting up over a history holds of it before the last call, and
/// for the last call.
proof fn lemma_set_up_before(env: EnvView, history: Seq<(u64, Call)>)
    requires
        set_up_while_unused(env, history),
        history.len() > 0,
    ensures
        set_up_while_unused(env, history.drop_last()),
        history.last().1 is Initialize ==> unused(after_history(env, history.drop_last()).state),
{
    let rest = history.drop_last();
    assert forall|k: int|
        0 <= k < rest.len() && (#[trigger] rest[k]).1 is Initialize implies unused(
        after_history(env, rest.take(k)).state,
    ) by {
        assert(rest[k] == history[k]);
        assert(rest.take(k) == history.take(k));
    }
    assert(history[history.len() - 1] == history.last());
    assert(history.take(history.len() - 1) == rest);
}

/// Whatever calls are made, and whenever, the entries of a contract that is in
/// order stay in order, as long as it is set up only while it is unused.
pub proof fn law_every_history_keeps_entries_in_order(env: EnvView, history: Seq<(u64, Call)>)
    requires
        in_order(env.state),
        set_up_while_unused(env, history),
    ensures
        in_order(after_history(env, history).state),
    decreases history.len(),
{
    if history.len() > 0 {
        let rest = history.drop_last();
        lemma_set_up_before(env, history);
        law_every_history_keeps_entries_in_order(env, rest);
        let (now, call) = history.last();
        law_calls_keep_entries_in_order(
            EnvView { now, ..after_history(env, rest) },
            call,
        );
    }
}

/// What a creator has withdrawn over a history of calls.
pub open spec fn withdrawals(env: EnvView, history: Seq<(u64, Call)>, creator: Address) -> int
    decreases history.len(),
{
    if history.len() == 0 {
        0
    } else {
        let (now, call) = history.last();
        let before = EnvView { now, ..after_history(env, history.drop_last()) };
        withdrawals(env, history.drop_last(), creator) + (if call == (Call::Withdraw { creator })
            && call.refusal(before) is None {
            balance_of(before, creator) as int
        } else {
            0
        })
    }
}

/// Whatever calls are made, and whenever, setting the contract up again among them,
/// the books of a creator stay in order.
pub proof fn law_every_history_keeps_books_in_order(
    env: EnvView,
    history: Seq<(u64, Call)>,
    creator: Address,
)
    requires
        books_in_order(env.state, creator),
    ensures
        books_in_order(after_history(env, history).state, creator),
    decreases history.len(),
{
    if history.len() > 0 {
        let rest = history.drop_last();
        law_every_history_keeps_books_in_order(env, rest, creator);
        let (now, call) = history.last();
        law_calls_keep_books_in_order(
            EnvView { now, ..after_history(env, rest) },
            call,
            creator,
        );
    }
}

/// What a creator has been paid out over a history is the sum of the creator's
/// withdrawals, and never shrinks.
pub proof fn law_withdrawals_are_all_payments(
    env: EnvView,
    history: Seq<(u64, Call)>,
    creator: Address,
)
    requires
        books_in_order(env.state, creator),
    ensures
        paid_out(after_history(env, history), creator) == paid_out(env, creator) + withdrawals(
            env,
            history,
            creator,
        ),
        withdrawals(env, history, creator) >= 0,
    decreases history.len(),
{
    if history.len() > 0 {
        let rest = history.drop_last();
        law_withdrawals_are_all_payments(env, rest, creator);
        law_every_history_keeps_books_in_order(env, rest, creator);
        let (now, call) = history.last();
        let before = EnvView { now, ..after_history(env, rest) };
        assert(paid_out(before, creator) == paid_out(after_history(env, rest), creator));
        law_only_withdrawal_pays_out(before, call, creator);
    }
}

/// From the first call on, whatever calls are made: a creator's earnings on record
/// sum to what the creator has earned, and those that have been released sum to the
/// balance and all that the creator has withdrawn.
pub proof fn law_releases_are_balance_and_withdrawals(
    env: EnvView,
    history: Seq<(u64, Call)>,
    creator: Address,
)
    requires
        env.state == StorageView::empty(),
    ensures
        ({
            let after = after_history(env, history);
            &&& sum_of(earnings_of(after.state, creator)) == earned(after, creator)
            &&& released_sum_of(earnings_of(after.state, creator)) == balance_of(after, creator)
                + withdrawals(env, history, creator)
        }),
{
    law_fresh_books_are_in_order(creator);
    law_every_history_keeps_books_in_order(env, history, creator);
    law_withdrawals_are_all_payments(env, history, creator);
    law_books_balance(after_history(env, history), creator);
    assert(paid_out(env, creator) == 0);
}

/// A call that changes anything needs the signature of its signer; only
/// releasing what is due needs none.
pub proof fn law_calls_are_signed(env: EnvView, call: Call)
    requires
        call.refusal(env) is None,
        call !is ProcessUnlockedEarnings,
    ensures
        call.signer(env) is Some,
        call.applied(env).effects[env.effects.len() as int] == Effect::RequireAuth(
            call.signer(env)->0,
        ),
{
}

/// Only the contract's admin makes the calls that are for the admin.
pub proof fn law_admin_calls_are_the_admins(env: EnvView, call: Call)
    requires
        call.refusal(env) is None,
        call.admin_only(),
    ensures
        env.state.admin is Some,
        call.signer(env) == env.state.admin,
{
}

/// Only tokens of the signer or of the contract itself move.
pub proof fn law_tokens_move_with_consent(env: EnvView, call: Call, i: int)
    requires
        env.effects.len() <= i < call.outcome(env).effects.len(),
        call.outcome(env).effects[i] is Transfer,
    ensures
        ({
            let effect = call.outcome(env).effects[i];
            effect->from == env.contract || call.signer(env) == Some(effect->from)
        }),
{
    let effects = asked(env, call);
    let k = i - env.effects.len();
    assert(call.refusal(env) is None);
    assert(effects[k] == call.outcome(env).effects[i]);
    match call {
        Call::MintPass { .. } => {
            assert(effects.len() == 4 && k == 1);
        },
        Call::RenewPass { .. } => {
            assert(effects.len() == 4 && k == 1);
        },
        Call::Withdraw { .. } => {
            assert(effects.len() == 3 && k == 1);
        },
        Call::WithdrawFees { .. } => {
            assert(effects.len() == 3 && k == 1);
        },
        _ => {
            lemma_asks_no_transfer(env, call);
        },
    }
}

/// As long as the contract is not set up again, its admin and its payment token
/// stay, and the rest of its configuration changes only by the call that is for it.
pub proof fn law_setup_stays(env: EnvView, call: Call)
    requires
        call !is Initialize,
    ensures
        call.outcome(env).state.admin == env.state.admin,
        call.outcome(env).state.token == env.state.token,
        call.outcome(env).state.oracle != env.state.oracle ==> call is SetOracle,
        call.outcome(env).state.protocol_fee_bps != env.state.protocol_fee_bps ==> call is SetFee,
        call.outcome(env).state.lock_period_seconds != env.state.lock_period_seconds
            ==> call is UpdateLockPeriod,
        call.outcome(env).state.min_withdrawal != env.state.min_withdrawal
            ==> call is UpdateMinWithdrawal,
        call.outcome(env).state.contract_version != env.state.contract_version ==> call is Migrate,
{
}

/// The protocol fee is never set above a tenth.
pub proof fn law_fee_is_capped(env: EnvView, call: Call)
    requires
        call.outcome(env).state.protocol_fee_bps != env.state.protocol_fee_bps,
    ensures
        call.outcome(env).state.protocol_fee_bps is Some,
        call.outcome(env).state.protocol_fee_bps->0 <= MAX_FEE_BPS,
{
}

/// A creator registers once: the profile stays on record, and a second
/// registration is refused.
pub proof fn law_creators_register_once(env: EnvView, call: Call, creator: Address)
    requires
        env.state.creators.contains_key(creator),
    ensures
        call.outcome(env).state.creators.contains_key(creator),
        call.outcome(env).state.creators[creator].registered_at
            == env.state.creators[creator].registered_at,
        registration_refusal(env, creator) == abort(Abort::CreatorAlreadyRegistered),
{
}

/// Migration changes the version and no other entry, and is done once.
pub proof fn law_migration_is_done_once(env: EnvView, admin: Address)
    requires
        migration_refusal(env, admin) is None,
    ensures
        version(migrated(env, admin)) == CURRENT_VERSION,
        migrated(env, admin).state == (StorageView {
            contract_version: Some(CURRENT_VERSION),
            writes: migrated(env, admin).state.writes,
            ..env.state
        }),
        migration_refusal(migrated(env, admin), admin) == abort(Abort::AlreadyMigrated),
{
}

// ------------------------------------------------------------
// The journal
// ------------------------------------------------------------

/// Whether an entry differs between two states.
pub open spec fn entry_differs(a: StorageView, b: StorageView, key: DataKey) -> bool {
    match key {
        DataKey::Admin => a.admin != b.admin,
        DataKey::Token => a.token != b.token,
        DataKey::ProtocolFeeBps => a.protocol_fee_bps != b.protocol_fee_bps,
        DataKey::LockPeriodSeconds => a.lock_period_seconds != b.lock_period_seconds,
        DataKey::MinWithdrawal => a.min_withdrawal != b.min_withdrawal,
        DataKey::OracleContract => a.oracle != b.oracle,
        DataKey::Creator(creator) => lookup(a.creators, creator) != lookup(b.creators, creator),
        DataKey::Tier(tier_id) => lookup(a.tiers, tier_id) != lookup(b.tiers, tier_id),
        DataKey::TierCount => a.tier_count != b.tier_count,
        DataKey::Pass(pass_id) => lookup(a.passes, pass_id) != lookup(b.passes, pass_id),
        DataKey::PassCount => a.pass_count != b.pass_count,
        DataKey::CreatorBalance(creator) => lookup(a.creator_balances, creator) != lookup(
            b.creator_balances,
            creator,
        ),
        DataKey::PendingEarningCount(creator) => lookup(a.earning_counts, creator) != lookup(
            b.earning_counts,
            creator,
        ),
        DataKey::PendingEarning(creator, earning_id) => lookup(
            a.earnings,
            EarningKey { creator, earning_id },
        ) != lookup(b.earnings, EarningKey { creator, earning_id }),
        DataKey::EarlyReleaseProposal(earning_id) => lookup(a.proposals, earning_id) != lookup(
            b.proposals,
            earning_id,
        ),
        DataKey::FanPasses(fan) => lookup(a.fan_passes, fan) != lookup(b.fan_passes, fan),
        DataKey::CreatorTiers(creator) => lookup(a.creator_tiers, creator) != lookup(
            b.creator_tiers,
            creator,
        ),
        DataKey::ContractVersion => a.contract_version != b.contract_version,
        DataKey::PermissionGrant(fan, tier_id) => lookup(
            a.grants,
            GrantKey { fan, tier_id },
        ) != lookup(b.grants, GrantKey { fan, tier_id }),
    }
}

/// A release journals the earnings that it marks, and the balance.
proof fn lemma_release_is_journaled(env: EnvView, creator: Address, key: DataKey)
    requires
        entry_differs(
            env.state,
            released(env, creator, due_now(env, creator)).state,
            key,
        ),
    ensures
        released(env, creator, due_now(env, creator)).state.writes.skip(
            env.state.writes.len() as int,
        ).contains(key),
{
    let ids = due_now(env, creator);
    let after = released(env, creator, ids);
    let added = after.state.writes.skip(env.state.writes.len() as int);
    match key {
        DataKey::CreatorBalance(_) => {
            assert(ids.len() > 0);
            assert(added[1] == key);
        },
        DataKey::PendingEarning(owner, earning_id) => {
            let id = EarningKey { creator: owner, earning_id };
            assert(marked_released(env.state.earnings, creator, ids).contains_key(id)
                == env.state.earnings.contains_key(id));
            assert(owner == creator && ids.contains(earning_id));
            let i = choose|i: int| 0 <= i < ids.len() && ids[i] == earning_id;
            assert((2 * i) / 2 == i && (2 * i) % 2 == 0);
            assert(added[2 * i] == key);
        },
        _ => {},
    }
}

/// Looking for a key in the first places of a journal.
proof fn lemma_found_among_first(added: Seq<DataKey>, key: DataKey)
    requires
        ({
            ||| added.len() > 0 && added[0] == key
            ||| added.len() > 1 && added[1] == key
            ||| added.len() > 2 && added[2] == key
            ||| added.len() > 3 && added[3] == key
            ||| added.len() > 4 && added[4] == key
            ||| added.len() > 5 && added[5] == key
            ||| added.len() > 6 && added[6] == key
            ||| added.len() > 7 && added[7] == key
        }),
    ensures
        added.contains(key),
{
}

/// A sale journals what it changes.
proof fn lemma_sale_is_journaled(
    env: EnvView,
    fan: Address,
    tier_id: u32,
    permissions: Seq<Seq<char>>,
    quote: Option<Quote>,
    key: DataKey,
)
    requires
        entry_differs(env.state, minted(env, fan, tier_id, permissions, quote).state, key),
    ensures
        minted(env, fan, tier_id, permissions, quote).state.writes.skip(
            env.state.writes.len() as int,
        ).contains(key),
{
    let t = minted(env, fan, tier_id, permissions, quote).state;
    lemma_found_among_first(t.writes.skip(env.state.writes.len() as int), key);
}

/// A renewal journals what it changes.
proof fn lemma_renewal_is_journaled(
    env: EnvView,
    fan: Address,
    pass_id: u64,
    quote: Option<Quote>,
    key: DataKey,
)
    requires
        entry_differs(env.state, renewed(env, fan, pass_id, quote).state, key),
    ensures
        renewed(env, fan, pass_id, quote).state.writes.skip(
            env.state.writes.len() as int,
        ).contains(key),
{
    let t = renewed(env, fan, pass_id, quote).state;
    lemma_found_among_first(t.writes.skip(env.state.writes.len() as int), key);
}

/// What creators and the admin do, sales and releases aside, journals what it
/// changes.
proof fn lemma_management_is_journaled(env: EnvView, call: Call, key: DataKey)
    requires
        call.refusal(env) is None,
        call !is MintPass,
        call !is RenewPass,
        call !is ProcessUnlockedEarnings,
        entry_differs(env.state, call.applied(env).state, key),
    ensures
        call.applied(env).state.writes.skip(env.state.writes.len() as int).contains(key),
{
    let added = call.applied(env).state.writes.skip(env.state.writes.len() as int);
    match call {
        Call::Initialize { .. } => {
            lemma_found_among_first(added, key);
        },
        Call::RegisterCreator { .. } => {
            lemma_found_among_first(added, key);
        },
        Call::CreateTier { .. } => {
            lemma_found_among_first(added, key);
        },
        Call::ApproveEarlyRelease { .. } => {
            lemma_found_among_first(added, key);
        },
        Call::WithdrawFees { .. } => {},
        Call::Upgrade { .. } => {},
        _ => {
            assert(added.len() == 1);
            assert(added[0] == key);
        },
    }
}

/// Every entry that a call changes is in the journal of the call: to write the
/// journaled entries back is to write all that has changed.
pub proof fn law_changes_are_journaled(env: EnvView, call: Call, key: DataKey)
    requires
        entry_differs(env.state, call.outcome(env).state, key),
    ensures
        call.outcome(env).state.writes.skip(env.state.writes.len() as int).contains(key),
{
    match call {
        Call::ProcessUnlockedEarnings { creator } => {
            lemma_release_is_journaled(env, creator, key);
        },
        Call::MintPass { fan, tier_id, permissions, quote } => {
            lemma_sale_is_journaled(env, fan, tier_id, permissions, quote, key);
        },
        Call::RenewPass { fan, pass_id, quote } => {
            lemma_renewal_is_journaled(env, fan, pass_id, quote, key);
        },
        _ => {
            lemma_management_is_journaled(env, call, key);
        },
    }
}

} // verus!
