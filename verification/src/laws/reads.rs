//! What a call depends on: the entries that it reads.

use vstd::prelude::*;

use crate::address::Address;
use crate::calls::Call;
use crate::earnings::{
    amount_of, balance_of, due_ids, due_now, lemma_due_ids, release_refusal, released,
};
use crate::env::EnvView;
use crate::laws::escrow::asked;
use crate::laws::history::entry_differs;
use crate::passes::{mint_refusal, next_earning_id, payment_refusal, renew_refusal};
use crate::pricing::{fits_i128, price_amount, value_or, Quote};
use crate::storage::StorageView;
use crate::table::lookup;
use crate::types::{DataKey, EarningKey, PendingEarning};

verus! {

/// Whether an entry is part of the contract's configuration.
pub open spec fn is_configuration(key: DataKey) -> bool {
    match key {
        DataKey::Admin => true,
        DataKey::Token => true,
        DataKey::ProtocolFeeBps => true,
        DataKey::LockPeriodSeconds => true,
        DataKey::MinWithdrawal => true,
        DataKey::OracleContract => true,
        DataKey::TierCount => true,
        DataKey::PassCount => true,
        DataKey::ContractVersion => true,
        _ => false,
    }
}

/// Whether an entry is read when a payment is made for a tier.
pub open spec fn paid_for(s: StorageView, tier_id: u32, key: DataKey) -> bool {
    ||| key == DataKey::Tier(tier_id)
    ||| s.tiers.contains_key(tier_id) && {
        ||| key == DataKey::Creator(s.tiers[tier_id].creator)
        ||| key == DataKey::PendingEarningCount(s.tiers[tier_id].creator)
    }
}

/// Whether a call reads an entry. Every call may read the configuration; some
/// entries are found by what others hold.
pub open spec fn reads(call: Call, s: StorageView, key: DataKey) -> bool {
    is_configuration(key) || match call {
        Call::RegisterCreator { creator } => key == DataKey::Creator(creator),
        Call::CreateTier { creator, .. } => key == DataKey::Creator(creator) || key
            == DataKey::CreatorTiers(creator),
        Call::DeactivateTier { tier_id, .. } => key == DataKey::Tier(tier_id),
        Call::UpdateTierPrice { tier_id, .. } => key == DataKey::Tier(tier_id),
        Call::MintPass { fan, tier_id, .. } => key == DataKey::FanPasses(fan) || paid_for(
            s,
            tier_id,
            key,
        ),
        Call::RenewPass { pass_id, .. } => key == DataKey::Pass(pass_id) || (
        s.passes.contains_key(pass_id) && paid_for(s, s.passes[pass_id].tier_id, key)),
        Call::PausePass { pass_id, .. } => key == DataKey::Pass(pass_id),
        Call::ResumePass { pass_id, .. } => key == DataKey::Pass(pass_id),
        Call::Withdraw { creator } => key == DataKey::CreatorBalance(creator),
        Call::ProcessUnlockedEarnings { creator } => {
            ||| key == DataKey::CreatorBalance(creator)
            ||| key == DataKey::PendingEarningCount(creator)
            ||| key matches DataKey::PendingEarning(owner, earning_id) && owner == creator
                && earning_id < value_or(lookup(s.earning_counts, creator), 0)
        },
        Call::ProposeEarlyRelease { creator, earning_id, .. } => key == DataKey::PendingEarning(
            creator,
            earning_id,
        ) || key == DataKey::EarlyReleaseProposal(earning_id),
        Call::ApproveEarlyRelease { creator, earning_id } => {
            ||| key == DataKey::PendingEarning(creator, earning_id)
            ||| key == DataKey::EarlyReleaseProposal(earning_id)
            ||| key == DataKey::CreatorBalance(creator)
        },
        Call::GrantPermission { tier_id, .. } => key == DataKey::Tier(tier_id),
        Call::RevokePermissionGrant { fan, tier_id, .. } => key == DataKey::Tier(tier_id) || key
            == DataKey::PermissionGrant(fan, tier_id),
        _ => false,
    }
}

/// Whether two ledgers are the same to a call: at one time, for one contract, and
/// with the same entries as far as the call reads them.
pub open spec fn alike(call: Call, env: EnvView, other: EnvView) -> bool {
    &&& env.now == other.now
    &&& env.contract == other.contract
    &&& forall|key: DataKey| #[trigger]
        reads(call, env.state, key) ==> !entry_differs(env.state, other.state, key)
}

/// The keys that a call writes.
pub open spec fn written(env: EnvView, call: Call) -> Seq<DataKey> {
    call.outcome(env).state.writes.skip(env.state.writes.len() as int)
}

/// Ledgers that are alike to a call have one configuration.
proof fn lemma_one_configuration(call: Call, env: EnvView, other: EnvView)
    requires
        alike(call, env, other),
    ensures
        env.state.admin == other.state.admin,
        env.state.token == other.state.token,
        env.state.protocol_fee_bps == other.state.protocol_fee_bps,
        env.state.lock_period_seconds == other.state.lock_period_seconds,
        env.state.min_withdrawal == other.state.min_withdrawal,
        env.state.oracle == other.state.oracle,
        env.state.tier_count == other.state.tier_count,
        env.state.pass_count == other.state.pass_count,
        env.state.contract_version == other.state.contract_version,
{
    assert(reads(call, env.state, DataKey::Admin));
    assert(reads(call, env.state, DataKey::Token));
    assert(reads(call, env.state, DataKey::ProtocolFeeBps));
    assert(reads(call, env.state, DataKey::LockPeriodSeconds));
    assert(reads(call, env.state, DataKey::MinWithdrawal));
    assert(reads(call, env.state, DataKey::OracleContract));
    assert(reads(call, env.state, DataKey::TierCount));
    assert(reads(call, env.state, DataKey::PassCount));
    assert(reads(call, env.state, DataKey::ContractVersion));
}

/// What a call does on two ledgers: the same refusal, the same effects, the same
/// keys written and, under them, the same entries.
pub open spec fn acts_alike(call: Call, env: EnvView, other: EnvView) -> bool {
    &&& call.refusal(env) == call.refusal(other)
    &&& asked(env, call) == asked(other, call)
    &&& written(env, call) == written(other, call)
    &&& forall|i: int|
        0 <= i < written(env, call).len() ==> !entry_differs(
            call.outcome(env).state,
            call.outcome(other).state,
            #[trigger] written(env, call)[i],
        )
}

/// The same earnings are due where the earnings are the same.
proof fn lemma_due_alike(
    earnings: Map<EarningKey, PendingEarning>,
    others: Map<EarningKey, PendingEarning>,
    creator: Address,
    now: u64,
    count: nat,
)
    requires
        count <= u64::MAX,
        forall|key: EarningKey|
            key.creator == creator && key.earning_id < count ==> #[trigger] lookup(earnings, key)
                == lookup(others, key),
    ensures
        due_ids(earnings, creator, now, count) == due_ids(others, creator, now, count),
    decreases count,
{
    if count > 0 {
        lemma_due_alike(earnings, others, creator, now, (count - 1) as nat);
        let key = EarningKey { creator, earning_id: (count - 1) as u64 };
        assert(lookup(earnings, key) == lookup(others, key));
    }
}

/// The same amounts sum to the same.
proof fn lemma_amounts_alike(
    earnings: Map<EarningKey, PendingEarning>,
    others: Map<EarningKey, PendingEarning>,
    creator: Address,
    ids: Seq<u64>,
)
    requires
        forall|i: int|
            0 <= i < ids.len() ==> {
                let key = EarningKey { creator, earning_id: #[trigger] ids[i] };
                earnings[key] == others[key]
            },
    ensures
        amount_of(earnings, creator, ids) == amount_of(others, creator, ids),
    decreases ids.len(),
{
    if ids.len() > 0 {
        assert forall|i: int| 0 <= i < ids.drop_last().len() implies ({
            let key = EarningKey { creator, earning_id: #[trigger] ids.drop_last()[i] };
            earnings[key] == others[key]
        }) by {
            assert(ids.drop_last()[i] == ids[i]);
        }
        lemma_amounts_alike(earnings, others, creator, ids.drop_last());
        assert(ids.last() == ids[ids.len() - 1]);
    }
}

/// A release depends on the entries that it reads.
proof fn lemma_release_acts_alike(env: EnvView, other: EnvView, creator: Address)
    requires
        alike(Call::ProcessUnlockedEarnings { creator }, env, other),
    ensures
        acts_alike(Call::ProcessUnlockedEarnings { creator }, env, other),
{
    let call = Call::ProcessUnlockedEarnings { creator };
    let count = next_earning_id(env, creator) as nat;
    let (a, b) = (env.state.earnings, other.state.earnings);
    assert(reads(call, env.state, DataKey::PendingEarningCount(creator)));
    assert(reads(call, env.state, DataKey::CreatorBalance(creator)));
    assert forall|key: EarningKey|
        key.creator == creator && key.earning_id < count implies #[trigger] lookup(a, key)
        == lookup(b, key) by {
        assert(reads(call, env.state, DataKey::PendingEarning(creator, key.earning_id)));
    }
    lemma_due_alike(a, b, creator, env.now, count);
    lemma_due_ids(a, creator, env.now, count);
    let ids = due_now(env, creator);
    assert(ids == due_now(other, creator));
    assert forall|i: int| 0 <= i < ids.len() implies ({
        let key = EarningKey { creator, earning_id: #[trigger] ids[i] };
        a.contains_key(key) && b.contains_key(key) && a[key] == b[key]
    }) by {
        let key = EarningKey { creator, earning_id: ids[i] };
        assert(lookup(a, key) == lookup(b, key));
    }
    assert forall|k: int| 0 <= k <= ids.len() implies #[trigger] amount_of(a, creator, ids.take(k))
        == amount_of(b, creator, ids.take(k)) by {
        assert forall|i: int| 0 <= i < ids.take(k).len() implies ({
            let key = EarningKey { creator, earning_id: #[trigger] ids.take(k)[i] };
            a[key] == b[key]
        }) by {
            assert(ids.take(k)[i] == ids[i]);
        }
        lemma_amounts_alike(a, b, creator, ids.take(k));
    }
    assert(ids.take(ids.len() as int) == ids);
    let start = balance_of(env, creator);
    if release_refusal(env, creator) is Some && ids.len() <= u32::MAX {
        let k = choose|k: int|
            0 <= k <= ids.len() && !fits_i128(start + #[trigger] amount_of(a, creator, ids.take(k)));
        assert(amount_of(b, creator, ids.take(k)) == amount_of(a, creator, ids.take(k)));
    }
    if release_refusal(other, creator) is Some && ids.len() <= u32::MAX {
        let k = choose|k: int|
            0 <= k <= ids.len() && !fits_i128(start + #[trigger] amount_of(b, creator, ids.take(k)));
        assert(amount_of(a, creator, ids.take(k)) == amount_of(b, creator, ids.take(k)));
    }
    assert(release_refusal(env, creator) == release_refusal(other, creator));
    if release_refusal(env, creator) is None {
        let one = released(env, creator, ids);
        let two = released(other, creator, ids);
        assert(amount_of(a, creator, ids) == amount_of(b, creator, ids));
        assert(asked(env, call) =~= asked(other, call));
        assert(written(env, call) =~= written(other, call));
        assert forall|i: int| 0 <= i < written(env, call).len() implies !entry_differs(
            one.state,
            two.state,
            #[trigger] written(env, call)[i],
        ) by {
            if i % 2 == 0 {
                let key = EarningKey { creator, earning_id: ids[i / 2] };
                assert(a.contains_key(key) && b.contains_key(key) && a[key] == b[key]);
            }
        }
    } else {
        assert(asked(env, call) =~= asked(other, call));
        assert(written(env, call) =~= written(other, call));
    }
}

/// A sale depends on the entries that it reads.
proof fn lemma_sale_acts_alike(
    env: EnvView,
    other: EnvView,
    fan: Address,
    tier_id: u32,
    permissions: Seq<Seq<char>>,
    quote: Option<Quote>,
)
    requires
        alike(Call::MintPass { fan, tier_id, permissions, quote }, env, other),
    ensures
        acts_alike(Call::MintPass { fan, tier_id, permissions, quote }, env, other),
{
    let call = Call::MintPass { fan, tier_id, permissions, quote };
    lemma_one_configuration(call, env, other);
    assert(reads(call, env.state, DataKey::FanPasses(fan)));
    assert(reads(call, env.state, DataKey::Tier(tier_id)));
    if env.state.tiers.contains_key(tier_id) {
        let tier = env.state.tiers[tier_id];
        assert(reads(call, env.state, DataKey::Creator(tier.creator)));
        assert(reads(call, env.state, DataKey::PendingEarningCount(tier.creator)));
        assert(price_amount(env, tier.price, quote) == price_amount(other, tier.price, quote));
        if let Ok(amount) = price_amount(env, tier.price, quote) {
            assert(payment_refusal(env, tier.creator, amount) == payment_refusal(
                other,
                tier.creator,
                amount,
            ));
        }
    }
    assert(mint_refusal(env, tier_id, permissions, quote) == mint_refusal(
        other,
        tier_id,
        permissions,
        quote,
    ));
    if mint_refusal(env, tier_id, permissions, quote) is None {
        assert(asked(env, call) =~= asked(other, call));
        assert(written(env, call) =~= written(other, call));
        assert(written(env, call).len() == 7);
    } else {
        assert(asked(env, call) =~= asked(other, call));
        assert(written(env, call) =~= written(other, call));
    }
}

/// A renewal depends on the entries that it reads.
proof fn lemma_renewal_acts_alike(
    env: EnvView,
    other: EnvView,
    fan: Address,
    pass_id: u64,
    quote: Option<Quote>,
)
    requires
        alike(Call::RenewPass { fan, pass_id, quote }, env, other),
    ensures
        acts_alike(Call::RenewPass { fan, pass_id, quote }, env, other),
{
    let call = Call::RenewPass { fan, pass_id, quote };
    lemma_one_configuration(call, env, other);
    assert(reads(call, env.state, DataKey::Pass(pass_id)));
    if env.state.passes.contains_key(pass_id) {
        let tier_id = env.state.passes[pass_id].tier_id;
        assert(reads(call, env.state, DataKey::Tier(tier_id)));
        if env.state.tiers.contains_key(tier_id) {
            let tier = env.state.tiers[tier_id];
            assert(reads(call, env.state, DataKey::Creator(tier.creator)));
            assert(reads(call, env.state, DataKey::PendingEarningCount(tier.creator)));
            assert(price_amount(env, tier.price, quote) == price_amount(other, tier.price, quote));
            if let Ok(amount) = price_amount(env, tier.price, quote) {
                assert(payment_refusal(env, tier.creator, amount) == payment_refusal(
                    other,
                    tier.creator,
                    amount,
                ));
            }
        }
    }
    assert(renew_refusal(env, fan, pass_id, quote) == renew_refusal(other, fan, pass_id, quote));
    if renew_refusal(env, fan, pass_id, quote) is None {
        assert(asked(env, call) =~= asked(other, call));
        assert(written(env, call) =~= written(other, call));
        assert(written(env, call).len() == 4);
    } else {
        assert(asked(env, call) =~= asked(other, call));
        assert(written(env, call) =~= written(other, call));
    }
}

/// What the admin does depends on the configuration.
proof fn lemma_administration_acts_alike(env: EnvView, other: EnvView, call: Call)
    requires
        alike(call, env, other),
        call is Initialize || call is SetFee || call is UpdateLockPeriod || call is SetOracle
            || call is WithdrawFees || call is UpdateMinWithdrawal || call is Upgrade
            || call is Migrate,
    ensures
        acts_alike(call, env, other),
{
    lemma_one_configuration(call, env, other);
    assert(asked(env, call) =~= asked(other, call));
    assert(written(env, call) =~= written(other, call));
}

/// What creators do with their tiers depends on the entries that it reads.
proof fn lemma_tier_call_acts_alike(env: EnvView, other: EnvView, call: Call)
    requires
        alike(call, env, other),
        call is RegisterCreator || call is CreateTier || call is DeactivateTier
            || call is UpdateTierPrice,
    ensures
        acts_alike(call, env, other),
{
    lemma_one_configuration(call, env, other);
    match call {
        Call::RegisterCreator { creator } => {
            assert(reads(call, env.state, DataKey::Creator(creator)));
        },
        Call::CreateTier { creator, .. } => {
            assert(reads(call, env.state, DataKey::Creator(creator)));
            assert(reads(call, env.state, DataKey::CreatorTiers(creator)));
        },
        Call::DeactivateTier { tier_id, .. } => {
            assert(reads(call, env.state, DataKey::Tier(tier_id)));
        },
        Call::UpdateTierPrice { tier_id, .. } => {
            assert(reads(call, env.state, DataKey::Tier(tier_id)));
        },
        _ => {},
    }
    assert(asked(env, call) =~= asked(other, call));
    assert(written(env, call) =~= written(other, call));
}

/// What fans do with the times of their passes depends on the entries that it
/// reads.
proof fn lemma_pass_call_acts_alike(env: EnvView, other: EnvView, call: Call)
    requires
        alike(call, env, other),
        call is PausePass || call is ResumePass,
    ensures
        acts_alike(call, env, other),
{
    match call {
        Call::PausePass { pass_id, .. } => {
            assert(reads(call, env.state, DataKey::Pass(pass_id)));
        },
        Call::ResumePass { pass_id, .. } => {
            assert(reads(call, env.state, DataKey::Pass(pass_id)));
        },
        _ => {},
    }
    assert(asked(env, call) =~= asked(other, call));
    assert(written(env, call) =~= written(other, call));
}

/// What creators do with loans depends on the entries that it reads.
proof fn lemma_loan_call_acts_alike(env: EnvView, other: EnvView, call: Call)
    requires
        alike(call, env, other),
        call is GrantPermission || call is RevokePermissionGrant,
    ensures
        acts_alike(call, env, other),
{
    match call {
        Call::GrantPermission { tier_id, .. } => {
            assert(reads(call, env.state, DataKey::Tier(tier_id)));
        },
        Call::RevokePermissionGrant { fan, tier_id, .. } => {
            assert(reads(call, env.state, DataKey::Tier(tier_id)));
            assert(reads(call, env.state, DataKey::PermissionGrant(fan, tier_id)));
        },
        _ => {},
    }
    assert(asked(env, call) =~= asked(other, call));
    assert(written(env, call) =~= written(other, call));
}

/// Withdrawals and early releases depend on the entries that they read.
proof fn lemma_payout_acts_alike(env: EnvView, other: EnvView, call: Call)
    requires
        alike(call, env, other),
        call is Withdraw || call is ProposeEarlyRelease || call is ApproveEarlyRelease,
    ensures
        acts_alike(call, env, other),
{
    lemma_one_configuration(call, env, other);
    match call {
        Call::Withdraw { creator } => {
            assert(reads(call, env.state, DataKey::CreatorBalance(creator)));
        },
        Call::ProposeEarlyRelease { creator, earning_id, .. } => {
            assert(reads(call, env.state, DataKey::PendingEarning(creator, earning_id)));
            assert(reads(call, env.state, DataKey::EarlyReleaseProposal(earning_id)));
        },
        Call::ApproveEarlyRelease { creator, earning_id } => {
            assert(reads(call, env.state, DataKey::PendingEarning(creator, earning_id)));
            assert(reads(call, env.state, DataKey::EarlyReleaseProposal(earning_id)));
            assert(reads(call, env.state, DataKey::CreatorBalance(creator)));
        },
        _ => {},
    }
    assert(asked(env, call) =~= asked(other, call));
    assert(written(env, call) =~= written(other, call));
}

/// A call depends on nothing but the entries that it reads: on two ledgers on which
/// these are the same it is refused alike, asks for the same and writes the same.
/// So it is enough to load these entries before the call.
pub proof fn law_calls_depend_on_what_they_read(env: EnvView, other: EnvView, call: Call)
    requires
        alike(call, env, other),
    ensures
        acts_alike(call, env, other),
{
    match call {
        Call::MintPass { fan, tier_id, permissions, quote } => {
            lemma_sale_acts_alike(env, other, fan, tier_id, permissions, quote);
        },
        Call::RenewPass { fan, pass_id, quote } => {
            lemma_renewal_acts_alike(env, other, fan, pass_id, quote);
        },
        Call::ProcessUnlockedEarnings { creator } => {
            lemma_release_acts_alike(env, other, creator);
        },
        Call::Withdraw { .. } => {
            lemma_payout_acts_alike(env, other, call);
        },
        Call::ProposeEarlyRelease { .. } => {
            lemma_payout_acts_alike(env, other, call);
        },
        Call::ApproveEarlyRelease { .. } => {
            lemma_payout_acts_alike(env, other, call);
        },
        Call::RegisterCreator { .. } => {
            lemma_tier_call_acts_alike(env, other, call);
        },
        Call::CreateTier { .. } => {
            lemma_tier_call_acts_alike(env, other, call);
        },
        Call::DeactivateTier { .. } => {
            lemma_tier_call_acts_alike(env, other, call);
        },
        Call::UpdateTierPrice { .. } => {
            lemma_tier_call_acts_alike(env, other, call);
        },
        Call::PausePass { .. } => {
            lemma_pass_call_acts_alike(env, other, call);
        },
        Call::ResumePass { .. } => {
            lemma_pass_call_acts_alike(env, other, call);
        },
        Call::GrantPermission { .. } => {
            lemma_loan_call_acts_alike(env, other, call);
        },
        Call::RevokePermissionGrant { .. } => {
            lemma_loan_call_acts_alike(env, other, call);
        },
        _ => {
            lemma_administration_acts_alike(env, other, call);
        },
    }
}

} // verus!
