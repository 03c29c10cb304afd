//! What holds of the contract's entries at all times.

use vstd::prelude::*;

use crate::address::Address;
use crate::admin::initialized;
use crate::calls::Call;
use crate::earnings::{
    amount_of, due_now, lemma_due_ids, recorded_earnings, release_refusal, released,
};
use crate::effect::Event;
use crate::env::EnvView;
use crate::failure::Failure;
use crate::passes::{
    fee_in_force, mint_refusal, minted, new_earning, next_earning_id, next_pass_id, pass_changed,
    passes_of, renew_refusal, renewed,
};
use crate::permissions::covered;
use crate::pricing::{
    creator_amount, law_parts_make_up_the_price, lemma_payment_not_negative, price_amount,
    value_or, Quote, MAX_FEE_BPS,
};
use crate::queries::minted_total;
use crate::storage::StorageView;
use crate::table::lookup;
use crate::tiers::{next_tier_id, registered, tier_changed, tier_created, tier_refusal};
use crate::types::{EarningKey, GrantKey, PassView, PendingEarning, TierPriceMode, TierView};

verus! {

/// The configuration is within its bounds.
pub open spec fn config_in_order(s: StorageView) -> bool {
    &&& s.protocol_fee_bps matches Some(fee_bps) ==> fee_bps <= MAX_FEE_BPS
    &&& s.lock_period_seconds matches Some(period) ==> period > 0
    &&& s.min_withdrawal matches Some(least) ==> least >= 0
}

/// The profile of a creator under the right key, with a balance and a list of
/// tiers beside it.
pub open spec fn creator_in_order(s: StorageView, creator: Address) -> bool {
    &&& s.creators[creator].address == creator
    &&& s.creators[creator].total_earned >= 0
    &&& s.creator_balances.contains_key(creator)
    &&& s.creator_tiers.contains_key(creator)
}

/// Creators have profiles, and only creators have balances, tiers and earnings.
pub open spec fn creators_in_order(s: StorageView) -> bool {
    &&& forall|creator: Address| #[trigger]
        s.creators.contains_key(creator) ==> creator_in_order(s, creator)
    &&& forall|creator: Address| #[trigger]
        s.creator_balances.contains_key(creator) ==> s.creators.contains_key(creator)
            && s.creator_balances[creator] >= 0
    &&& forall|creator: Address| #[trigger]
        s.creator_tiers.contains_key(creator) ==> s.creators.contains_key(creator)
    &&& forall|creator: Address| #[trigger]
        s.earning_counts.contains_key(creator) ==> s.creators.contains_key(creator)
}

/// A tier of a creator, on sale at a price, within its supply.
pub open spec fn tier_in_order(s: StorageView, tier_id: u32) -> bool {
    let tier = s.tiers[tier_id];
    &&& tier.tier_id == tier_id
    &&& tier.price.stored_amount() > 0
    &&& tier.duration > 0
    &&& tier.name.len() > 0
    &&& tier.max_supply != 0 ==> tier.minted <= tier.max_supply
    &&& s.creators.contains_key(tier.creator)
    &&& s.creator_tiers[tier.creator].contains(tier_id)
}

/// Tiers are numbered from one without gaps, and each creator's list holds the
/// creator's tiers, each once.
pub open spec fn tiers_in_order(s: StorageView) -> bool {
    &&& forall|tier_id: u32| #[trigger]
        s.tiers.contains_key(tier_id) <==> 1 <= tier_id <= value_or(s.tier_count, 0)
    &&& forall|tier_id: u32| #[trigger]
        s.tiers.contains_key(tier_id) ==> tier_in_order(s, tier_id)
    &&& forall|creator: Address, tier_id: u32|
        s.creator_tiers.contains_key(creator) && #[trigger] s.creator_tiers[creator].contains(
            tier_id,
        ) ==> s.tiers.contains_key(tier_id) && s.tiers[tier_id].creator == creator
    &&& forall|creator: Address| #[trigger]
        s.creator_tiers.contains_key(creator) ==> s.creator_tiers[creator].no_duplicates()
}

/// A pass of a tier, with permissions of the tier, on its owner's list.
pub open spec fn pass_in_order(s: StorageView, pass_id: u64) -> bool {
    let pass = s.passes[pass_id];
    &&& pass.pass_id == pass_id
    &&& s.tiers.contains_key(pass.tier_id)
    &&& pass.creator == s.tiers[pass.tier_id].creator
    &&& covered(pass.pass_permissions, s.tiers[pass.tier_id].permissions)
    &&& if pass.paused {
        pass.paused_at < pass.expires_at
    } else {
        pass.paused_at == 0
    }
    &&& s.fan_passes.contains_key(pass.owner)
    &&& s.fan_passes[pass.owner].contains(pass_id)
}

/// Passes are numbered from one without gaps, and each fan's list holds the
/// fan's passes, each once.
pub open spec fn passes_in_order(s: StorageView) -> bool {
    &&& forall|pass_id: u64| #[trigger]
        s.passes.contains_key(pass_id) <==> 1 <= pass_id <= value_or(s.pass_count, 0)
    &&& forall|pass_id: u64| #[trigger]
        s.passes.contains_key(pass_id) ==> pass_in_order(s, pass_id)
    &&& forall|fan: Address, pass_id: u64|
        s.fan_passes.contains_key(fan) && #[trigger] s.fan_passes[fan].contains(pass_id)
            ==> s.passes.contains_key(pass_id) && s.passes[pass_id].owner == fan
    &&& forall|fan: Address| #[trigger]
        s.fan_passes.contains_key(fan) ==> s.fan_passes[fan].no_duplicates()
}

/// Earnings are numbered from zero without gaps for each creator, under the
/// right keys, and none is negative. Proposals are for earnings on record.
pub open spec fn earnings_in_order(s: StorageView) -> bool {
    &&& forall|key: EarningKey| #[trigger]
        s.earnings.contains_key(key) <==> s.earning_counts.contains_key(key.creator)
            && key.earning_id < s.earning_counts[key.creator]
    &&& forall|key: EarningKey| #[trigger]
        s.earnings.contains_key(key) ==> s.earnings[key].creator == key.creator
            && s.earnings[key].earning_id == key.earning_id && s.earnings[key].amount >= 0
    &&& forall|earning_id: u64| #[trigger]
        s.proposals.contains_key(earning_id) ==> s.proposals[earning_id].earning_id == earning_id
            && s.earnings.contains_key(
            EarningKey { creator: s.proposals[earning_id].creator, earning_id },
        )
}

/// Lent permissions are permissions of the tier.
pub open spec fn grants_in_order(s: StorageView) -> bool {
    forall|key: GrantKey| #[trigger]
        s.grants.contains_key(key) ==> {
            &&& s.grants[key].fan == key.fan
            &&& s.grants[key].tier_id == key.tier_id
            &&& s.tiers.contains_key(key.tier_id)
            &&& covered(s.grants[key].permissions, s.tiers[key.tier_id].permissions)
        }
}

/// How many passes were minted of the first `count` tiers.
pub open spec fn minted_up_to(tiers: Map<u32, TierView>, count: nat) -> nat
    decreases count,
{
    if count == 0 {
        0
    } else {
        minted_up_to(tiers, (count - 1) as nat) + tiers[count as u32].minted as nat
    }
}

/// How many of the passes numbered up to `count` are passes of a tier.
pub open spec fn sold(passes: Map<u64, PassView>, tier_id: u32, count: nat) -> nat
    decreases count,
{
    if count == 0 {
        0
    } else {
        let pass_id = count as u64;
        let before = sold(passes, tier_id, (count - 1) as nat);
        if passes.contains_key(pass_id) && passes[pass_id].tier_id == tier_id {
            before + 1
        } else {
            before
        }
    }
}

/// The counts of passes agree: each tier's with the passes on record, each
/// creator's with the creator's tiers, the whole with all tiers.
pub open spec fn counts_in_order(s: StorageView) -> bool {
    &&& forall|tier_id: u32| #[trigger]
        s.tiers.contains_key(tier_id) ==> s.tiers[tier_id].minted == sold(
            s.passes,
            tier_id,
            value_or(s.pass_count, 0) as nat,
        )
    &&& forall|creator: Address| #[trigger]
        s.creators.contains_key(creator) ==> s.creators[creator].pass_count == minted_total(
            s.tiers,
            s.creator_tiers[creator],
        )
    &&& value_or(s.pass_count, 0) == minted_up_to(s.tiers, value_or(s.tier_count, 0) as nat)
}

/// The earnings of a creator on record, released or not, by number.
pub open spec fn earnings_of(s: StorageView, creator: Address) -> Seq<PendingEarning> {
    recorded_earnings(
        s.earnings,
        creator,
        value_or(lookup(s.earning_counts, creator), 0) as nat,
    )
}

/// The sum of some earnings.
pub open spec fn sum_of(list: Seq<PendingEarning>) -> int
    decreases list.len(),
{
    if list.len() == 0 {
        0
    } else {
        sum_of(list.drop_last()) + list.last().amount
    }
}

/// What each creator has earned is the sum of the creator's earnings on record.
pub open spec fn sums_in_order(s: StorageView) -> bool {
    forall|creator: Address| #[trigger]
        s.creators.contains_key(creator) ==> s.creators[creator].total_earned == sum_of(
            earnings_of(s, creator),
        )
}

/// The contract's entries are in order.
pub open spec fn in_order(s: StorageView) -> bool {
    &&& config_in_order(s)
    &&& creators_in_order(s)
    &&& tiers_in_order(s)
    &&& passes_in_order(s)
    &&& earnings_in_order(s)
    &&& grants_in_order(s)
    &&& counts_in_order(s)
    &&& sums_in_order(s)
}

/// No tier has been defined and no pass minted.
pub open spec fn unused(s: StorageView) -> bool {
    s.tiers.is_empty() && s.passes.is_empty()
}

/// Totals over tiers that two tables have in common agree.
proof fn lemma_minted_total_same(
    tiers: Map<u32, TierView>,
    others: Map<u32, TierView>,
    tier_ids: Seq<u32>,
)
    requires
        forall|i: int|
            0 <= i < tier_ids.len() ==> {
                let tier_id = #[trigger] tier_ids[i];
                &&& tiers.contains_key(tier_id) == others.contains_key(tier_id)
                &&& tiers.contains_key(tier_id) ==> tiers[tier_id].minted == others[tier_id].minted
            },
    ensures
        minted_total(tiers, tier_ids) == minted_total(others, tier_ids),
    decreases tier_ids.len(),
{
    if tier_ids.len() > 0 {
        assert forall|i: int| 0 <= i < tier_ids.drop_last().len() implies {
            let tier_id = #[trigger] tier_ids.drop_last()[i];
            &&& tiers.contains_key(tier_id) == others.contains_key(tier_id)
            &&& tiers.contains_key(tier_id) ==> tiers[tier_id].minted == others[tier_id].minted
        } by {
            assert(tier_ids.drop_last()[i] == tier_ids[i]);
        }
        lemma_minted_total_same(tiers, others, tier_ids.drop_last());
        assert(tier_ids.last() == tier_ids[tier_ids.len() - 1]);
    }
}

/// One more pass of a listed tier makes the total one more.
proof fn lemma_minted_total_one_more(
    tiers: Map<u32, TierView>,
    others: Map<u32, TierView>,
    tier_ids: Seq<u32>,
    tier_id: u32,
)
    requires
        tier_ids.no_duplicates(),
        tier_ids.contains(tier_id),
        tiers.contains_key(tier_id),
        others.contains_key(tier_id),
        others[tier_id].minted == tiers[tier_id].minted + 1,
        forall|other: u32|
            other != tier_id ==> #[trigger] tiers.contains_key(other) == others.contains_key(other)
                && tiers[other] == others[other],
    ensures
        minted_total(others, tier_ids) == minted_total(tiers, tier_ids) + 1,
    decreases tier_ids.len(),
{
    let rest = tier_ids.drop_last();
    if tier_ids.last() == tier_id {
        assert forall|i: int| 0 <= i < rest.len() implies {
            let other = #[trigger] rest[i];
            &&& tiers.contains_key(other) == others.contains_key(other)
            &&& tiers.contains_key(other) ==> tiers[other].minted == others[other].minted
        } by {
            assert(rest[i] == tier_ids[i]);
            assert(tier_ids[i] != tier_ids[tier_ids.len() - 1]);
        }
        lemma_minted_total_same(tiers, others, rest);
    } else {
        let i = choose|i: int| 0 <= i < tier_ids.len() && tier_ids[i] == tier_id;
        assert(rest[i] == tier_id);
        lemma_minted_total_one_more(tiers, others, rest, tier_id);
        assert(tiers.contains_key(tier_ids.last()) == others.contains_key(tier_ids.last()));
    }
}

/// Totals over the first tiers agree where these tiers do.
proof fn lemma_minted_up_to_same(
    tiers: Map<u32, TierView>,
    others: Map<u32, TierView>,
    count: nat,
)
    requires
        count <= u32::MAX,
        forall|tier_id: u32|
            1 <= tier_id <= count ==> #[trigger] tiers[tier_id].minted == others[tier_id].minted,
    ensures
        minted_up_to(tiers, count) == minted_up_to(others, count),
    decreases count,
{
    if count > 0 {
        lemma_minted_up_to_same(tiers, others, (count - 1) as nat);
        assert(tiers[count as u32].minted == others[count as u32].minted);
    }
}

/// One more pass of one of the first tiers makes the total one more.
proof fn lemma_minted_up_to_one_more(
    tiers: Map<u32, TierView>,
    others: Map<u32, TierView>,
    count: nat,
    tier_id: u32,
)
    requires
        count <= u32::MAX,
        1 <= tier_id <= count,
        others[tier_id].minted == tiers[tier_id].minted + 1,
        forall|other: u32| other != tier_id ==> #[trigger] tiers[other].minted == others[other].minted,
    ensures
        minted_up_to(others, count) == minted_up_to(tiers, count) + 1,
    decreases count,
{
    if tier_id == count {
        lemma_minted_up_to_same(tiers, others, (count - 1) as nat);
    } else {
        lemma_minted_up_to_one_more(tiers, others, (count - 1) as nat, tier_id);
        assert(tiers[count as u32].minted == others[count as u32].minted);
    }
}

/// Counts over the first passes agree where the tiers of these passes do.
proof fn lemma_sold_same(
    passes: Map<u64, PassView>,
    others: Map<u64, PassView>,
    tier_id: u32,
    count: nat,
)
    requires
        count <= u64::MAX,
        forall|pass_id: u64|
            1 <= pass_id <= count ==> #[trigger] passes.contains_key(pass_id)
                == others.contains_key(pass_id) && (passes.contains_key(pass_id)
                ==> passes[pass_id].tier_id == others[pass_id].tier_id),
    ensures
        sold(passes, tier_id, count) == sold(others, tier_id, count),
    decreases count,
{
    if count > 0 {
        lemma_sold_same(passes, others, tier_id, (count - 1) as nat);
        assert(passes.contains_key(count as u64) == others.contains_key(count as u64));
    }
}

/// Of a tier that no pass is for, none is sold.
proof fn lemma_none_sold(passes: Map<u64, PassView>, tier_id: u32, count: nat)
    requires
        forall|pass_id: u64| #[trigger]
            passes.contains_key(pass_id) ==> passes[pass_id].tier_id != tier_id,
    ensures
        sold(passes, tier_id, count) == 0,
    decreases count,
{
    if count > 0 {
        lemma_none_sold(passes, tier_id, (count - 1) as nat);
    }
}

/// Sums over earnings agree where their amounts do.
pub proof fn lemma_sum_same(
    earnings: Map<EarningKey, PendingEarning>,
    others: Map<EarningKey, PendingEarning>,
    creator: Address,
    count: nat,
)
    requires
        count <= u64::MAX,
        forall|key: EarningKey|
            key.creator == creator && key.earning_id < count ==> #[trigger] earnings.contains_key(key)
                == others.contains_key(key) && (earnings.contains_key(key) ==> earnings[key].amount
                == others[key].amount),
    ensures
        sum_of(recorded_earnings(earnings, creator, count)) == sum_of(
            recorded_earnings(others, creator, count),
        ),
    decreases count,
{
    if count > 0 {
        lemma_sum_same(earnings, others, creator, (count - 1) as nat);
        let key = EarningKey { creator, earning_id: (count - 1) as u64 };
        let before = recorded_earnings(earnings, creator, (count - 1) as nat);
        let other = recorded_earnings(others, creator, (count - 1) as nat);
        assert(earnings.contains_key(key) == others.contains_key(key));
        assert(before.push(earnings[key]).drop_last() == before);
        assert(other.push(others[key]).drop_last() == other);
    }
}

/// Where no amount and no total changes, the sums stay in order.
proof fn lemma_sums_stay(s: StorageView, t: StorageView)
    requires
        sums_in_order(s),
        t.earning_counts == s.earning_counts,
        forall|key: EarningKey| #[trigger]
            s.earnings.contains_key(key) == t.earnings.contains_key(key) && (
            s.earnings.contains_key(key) ==> s.earnings[key].amount == t.earnings[key].amount),
        forall|creator: Address| #[trigger]
            t.creators.contains_key(creator) ==> s.creators.contains_key(creator)
                && t.creators[creator].total_earned == s.creators[creator].total_earned,
    ensures
        sums_in_order(t),
{
    assert forall|creator: Address| #[trigger]
        t.creators.contains_key(creator) implies t.creators[creator].total_earned == sum_of(
        earnings_of(t, creator),
    ) by {
        lemma_sum_same(
            s.earnings,
            t.earnings,
            creator,
            value_or(lookup(s.earning_counts, creator), 0) as nat,
        );
    }
}

/// A payment that is recorded as one more earning and added to the creator's
/// total keeps the sums in order.
proof fn lemma_sums_after_payment(
    s: StorageView,
    t: StorageView,
    creator: Address,
    earning: PendingEarning,
)
    requires
        earnings_in_order(s),
        sums_in_order(s),
        s.creators.contains_key(creator),
        ({
            let count = value_or(lookup(s.earning_counts, creator), 0);
            &&& count < u64::MAX
            &&& t.earning_counts == s.earning_counts.insert(creator, (count + 1) as u64)
            &&& t.earnings == s.earnings.insert(
                EarningKey { creator, earning_id: count },
                earning,
            )
        }),
        forall|other: Address| #[trigger]
            t.creators.contains_key(other) ==> s.creators.contains_key(other),
        forall|other: Address|
            t.creators.contains_key(other) ==> #[trigger] t.creators[other].total_earned
                == s.creators[other].total_earned + (if other == creator {
                earning.amount as int
            } else {
                0
            }),
    ensures
        sums_in_order(t),
{
    assert forall|other: Address| #[trigger]
        t.creators.contains_key(other) implies t.creators[other].total_earned == sum_of(
        earnings_of(t, other),
    ) by {
        let count = value_or(lookup(s.earning_counts, other), 0);
        lemma_sum_same(s.earnings, t.earnings, other, count as nat);
        if other == creator {
            let before = recorded_earnings(t.earnings, creator, count as nat);
            assert(earnings_of(t, creator) == before.push(earning));
            assert(before.push(earning).drop_last() == before);
        }
    }
}

/// A tier with nothing changed but what may change after it was defined.
spec fn tier_kept(before: TierView, after: TierView) -> bool {
    &&& after == (TierView {
        price: after.price,
        active: after.active,
        minted: after.minted,
        ..before
    })
    &&& after.price.stored_amount() > 0
    &&& after.max_supply != 0 ==> after.minted <= after.max_supply
}

/// Tiers that are kept stay in order.
proof fn lemma_tiers_stay(s: StorageView, t: StorageView)
    requires
        tiers_in_order(s),
        forall|tier_id: u32| #[trigger]
            t.tiers.contains_key(tier_id) ==> s.tiers.contains_key(tier_id) && (t.tiers[tier_id]
                == s.tiers[tier_id] || tier_kept(s.tiers[tier_id], t.tiers[tier_id])),
        forall|creator: Address| #[trigger]
            s.creators.contains_key(creator) ==> t.creators.contains_key(creator)
                && t.creator_tiers[creator] == s.creator_tiers[creator],
    ensures
        forall|tier_id: u32| #[trigger]
            t.tiers.contains_key(tier_id) ==> tier_in_order(t, tier_id),
{
    assert forall|tier_id: u32| #[trigger] t.tiers.contains_key(tier_id) implies tier_in_order(
        t,
        tier_id,
    ) by {
        assert(tier_in_order(s, tier_id));
    }
}

/// A pass with nothing changed but its times.
spec fn pass_kept(before: PassView, after: PassView) -> bool {
    &&& after == (PassView {
        expires_at: after.expires_at,
        paused: after.paused,
        paused_at: after.paused_at,
        total_paused_seconds: after.total_paused_seconds,
        ..before
    })
    &&& if after.paused {
        after.paused_at < after.expires_at
    } else {
        after.paused_at == 0
    }
}

/// Passes that are kept stay in order, as long as their tiers keep their creators
/// and permissions.
proof fn lemma_passes_stay(s: StorageView, t: StorageView)
    requires
        passes_in_order(s),
        t.fan_passes == s.fan_passes,
        forall|pass_id: u64| #[trigger]
            t.passes.contains_key(pass_id) ==> s.passes.contains_key(pass_id) && (
            t.passes[pass_id] == s.passes[pass_id] || pass_kept(
                s.passes[pass_id],
                t.passes[pass_id],
            )),
        forall|tier_id: u32| #[trigger]
            s.tiers.contains_key(tier_id) ==> t.tiers.contains_key(tier_id)
                && t.tiers[tier_id].creator == s.tiers[tier_id].creator
                && t.tiers[tier_id].permissions == s.tiers[tier_id].permissions,
    ensures
        forall|pass_id: u64| #[trigger]
            t.passes.contains_key(pass_id) ==> pass_in_order(t, pass_id),
{
    assert forall|pass_id: u64| #[trigger] t.passes.contains_key(pass_id) implies pass_in_order(
        t,
        pass_id,
    ) by {
        assert(pass_in_order(s, pass_id));
    }
}

/// Passes of the same tiers leave the counts of tiers as they are.
proof fn lemma_counts_of_tiers_stay(s: StorageView, t: StorageView)
    requires
        counts_in_order(s),
        t.pass_count == s.pass_count,
        forall|pass_id: u64| #[trigger]
            s.passes.contains_key(pass_id) == t.passes.contains_key(pass_id) && (
            s.passes.contains_key(pass_id) ==> s.passes[pass_id].tier_id
                == t.passes[pass_id].tier_id),
        forall|tier_id: u32| #[trigger]
            t.tiers.contains_key(tier_id) ==> s.tiers.contains_key(tier_id)
                && t.tiers[tier_id].minted == s.tiers[tier_id].minted,
    ensures
        forall|tier_id: u32| #[trigger]
            t.tiers.contains_key(tier_id) ==> t.tiers[tier_id].minted == sold(
                t.passes,
                tier_id,
                value_or(t.pass_count, 0) as nat,
            ),
{
    assert forall|tier_id: u32| #[trigger]
        t.tiers.contains_key(tier_id) implies t.tiers[tier_id].minted == sold(
        t.passes,
        tier_id,
        value_or(t.pass_count, 0) as nat,
    ) by {
        lemma_sold_same(s.passes, t.passes, tier_id, value_or(s.pass_count, 0) as nat);
    }
}

/// Setting up an unused contract keeps its entries in order.
proof fn lemma_initialized_in_order(
    env: EnvView,
    admin: Address,
    token: Address,
    fee_bps: u32,
    lock_period_seconds: u64,
)
    requires
        in_order(env.state),
        unused(env.state),
        fee_bps <= MAX_FEE_BPS,
        lock_period_seconds > 0,
    ensures
        in_order(initialized(env, admin, token, fee_bps, lock_period_seconds).state),
{
    let s = env.state;
    let t = initialized(env, admin, token, fee_bps, lock_period_seconds).state;
    assert(forall|tier_id: u32| !s.tiers.contains_key(tier_id));
    assert(forall|pass_id: u64| !s.passes.contains_key(pass_id));
    assert(minted_up_to(t.tiers, 0) == 0);
    lemma_sums_stay(s, t);
    assert forall|creator: Address| #[trigger]
        t.creators.contains_key(creator) implies t.creators[creator].pass_count == minted_total(
        t.tiers,
        t.creator_tiers[creator],
    ) by {
        assert(s.creators.contains_key(creator));
    }
}

/// Registering a creator keeps the entries in order.
proof fn lemma_registered_in_order(env: EnvView, creator: Address)
    requires
        in_order(env.state),
        !env.state.creators.contains_key(creator),
    ensures
        in_order(registered(env, creator).state),
{
    let s = env.state;
    let t = registered(env, creator).state;
    assert(!s.creator_tiers.contains_key(creator));
    assert(!s.earning_counts.contains_key(creator));
    assert(minted_total(t.tiers, Seq::<u32>::empty()) == 0);
    assert(earnings_of(t, creator) == Seq::<PendingEarning>::empty());
    assert forall|other: Address| #[trigger]
        t.creators.contains_key(other) implies t.creators[other].total_earned == sum_of(
        earnings_of(t, other),
    ) by {
        assert(other == creator || s.creators.contains_key(other));
        assert(earnings_of(t, other) == earnings_of(s, other));
    }
    lemma_tiers_stay(s, t);
    lemma_passes_stay(s, t);
}

/// Defining a tier keeps the entries in order.
proof fn lemma_tier_created_in_order(
    env: EnvView,
    creator: Address,
    name: Seq<u8>,
    price: TierPriceMode,
    duration: u64,
    max_supply: u32,
    permissions: Seq<Seq<char>>,
)
    requires
        in_order(env.state),
        tier_refusal(env, creator, name, price, duration) is None,
    ensures
        in_order(
            tier_created(env, creator, name, price, duration, max_supply, permissions).state,
        ),
{
    let s = env.state;
    let t = tier_created(env, creator, name, price, duration, max_supply, permissions).state;
    let tier_id = next_tier_id(env);
    let before = s.creator_tiers[creator];
    let after = t.creator_tiers[creator];
    assert(creator_in_order(s, creator));
    assert(after == before.push(tier_id));
    assert(!s.tiers.contains_key(tier_id));
    assert(!before.contains(tier_id));
    assert(after[before.len() as int] == tier_id);
    assert forall|other: u32| #[trigger] after.contains(other) implies other == tier_id
        || before.contains(other) by {
        let i = choose|i: int| 0 <= i < after.len() && after[i] == other;
        if i < before.len() {
            assert(before[i] == other);
        }
    }
    assert forall|other: u32| #[trigger] t.tiers.contains_key(other) implies tier_in_order(
        t,
        other,
    ) by {
        if other != tier_id {
            assert(tier_in_order(s, other));
            if s.tiers[other].creator == creator {
                let i = choose|i: int| 0 <= i < before.len() && before[i] == other;
                assert(after[i] == other);
            }
        }
    }
    lemma_passes_stay(s, t);
    assert forall|other: Address| #[trigger]
        t.creators.contains_key(other) implies t.creators[other].pass_count == minted_total(
        t.tiers,
        t.creator_tiers[other],
    ) by {
        let ids = s.creator_tiers[other];
        assert(creator_in_order(s, other));
        assert forall|i: int| 0 <= i < ids.len() implies {
            let id = #[trigger] ids[i];
            &&& s.tiers.contains_key(id) == t.tiers.contains_key(id)
            &&& s.tiers.contains_key(id) ==> s.tiers[id].minted == t.tiers[id].minted
        } by {
            assert(s.creator_tiers[other].contains(ids[i]));
        }
        lemma_minted_total_same(s.tiers, t.tiers, ids);
        if other == creator {
            assert(after.drop_last() == before);
        }
    }
    lemma_minted_up_to_same(s.tiers, t.tiers, (tier_id - 1) as nat);
    assert forall|pass_id: u64| #[trigger]
        s.passes.contains_key(pass_id) implies s.passes[pass_id].tier_id != tier_id by {
        assert(pass_in_order(s, pass_id));
    }
    lemma_none_sold(s.passes, tier_id, value_or(s.pass_count, 0) as nat);
    lemma_sums_stay(s, t);
}

/// Changing whether a tier is active, or its price, keeps the entries in order.
proof fn lemma_tier_changed_in_order(
    env: EnvView,
    creator: Address,
    tier_id: u32,
    tier: TierView,
    event: Event,
)
    requires
        in_order(env.state),
        env.state.tiers.contains_key(tier_id),
        tier == (TierView {
            active: tier.active,
            price: tier.price,
            ..env.state.tiers[tier_id]
        }),
        tier.price.stored_amount() > 0,
    ensures
        in_order(tier_changed(env, creator, tier_id, tier, event).state),
{
    let s = env.state;
    let t = tier_changed(env, creator, tier_id, tier, event).state;
    assert(tier_in_order(s, tier_id));
    lemma_tiers_stay(s, t);
    lemma_passes_stay(s, t);
    assert forall|other: Address| #[trigger]
        t.creators.contains_key(other) implies t.creators[other].pass_count == minted_total(
        t.tiers,
        t.creator_tiers[other],
    ) by {
        lemma_minted_total_same(s.tiers, t.tiers, s.creator_tiers[other]);
    }
    lemma_minted_up_to_same(s.tiers, t.tiers, value_or(s.tier_count, 0) as nat);
    lemma_counts_of_tiers_stay(s, t);
    lemma_sums_stay(s, t);
}

/// What a creator gets of a payment is not negative.
proof fn lemma_earned_not_negative(
    env: EnvView,
    price: TierPriceMode,
    quote: Option<Quote>,
    amount: i128,
)
    requires
        config_in_order(env.state),
        price.stored_amount() > 0,
        price_amount(env, price, quote) == Ok::<i128, Failure>(amount),
    ensures
        0 <= creator_amount(amount as int, fee_in_force(env)) <= amount,
{
    lemma_payment_not_negative(env, price, quote, amount);
    law_parts_make_up_the_price(amount, value_or(env.state.protocol_fee_bps, 0));
}

/// Selling a pass keeps the entries in order.
proof fn lemma_minted_in_order(
    env: EnvView,
    fan: Address,
    tier_id: u32,
    permissions: Seq<Seq<char>>,
    quote: Option<Quote>,
)
    requires
        in_order(env.state),
        mint_refusal(env, tier_id, permissions, quote) is None,
    ensures
        in_order(minted(env, fan, tier_id, permissions, quote).state),
{
    let s = env.state;
    let t = minted(env, fan, tier_id, permissions, quote).state;
    let tier = s.tiers[tier_id];
    let pass_id = next_pass_id(env);
    let amount = price_amount(env, tier.price, quote)->Ok_0;
    assert(tier_in_order(s, tier_id));
    lemma_earned_not_negative(env, tier.price, quote, amount);
    assert(creator_in_order(s, tier.creator));

    assert(!s.passes.contains_key(pass_id));
    let before = passes_of(env, fan);
    let after = t.fan_passes[fan];
    assert(after == before.push(pass_id));
    assert(after[before.len() as int] == pass_id);
    assert(!before.contains(pass_id));
    assert(before.no_duplicates());
    assert forall|other: u64| #[trigger] after.contains(other) implies other == pass_id
        || before.contains(other) by {
        let i = choose|i: int| 0 <= i < after.len() && after[i] == other;
        if i < before.len() {
            assert(before[i] == other);
        }
    }
    assert forall|other: u64| #[trigger] t.passes.contains_key(other) implies pass_in_order(
        t,
        other,
    ) by {
        if other != pass_id {
            assert(pass_in_order(s, other));
            if s.passes[other].owner == fan {
                let i = choose|i: int| 0 <= i < before.len() && before[i] == other;
                assert(after[i] == other);
            }
        }
    }
    assert forall|owner: Address, other: u64|
        t.fan_passes.contains_key(owner) && #[trigger] t.fan_passes[owner].contains(
            other,
        ) implies t.passes.contains_key(other) && t.passes[other].owner == owner by {
        if owner == fan {
            assert(after.contains(other));
        } else {
            assert(s.fan_passes[owner].contains(other));
        }
    }
    lemma_tiers_stay(s, t);
    assert forall|creator: Address| #[trigger]
        t.creators.contains_key(creator) implies t.creators[creator].pass_count == minted_total(
        t.tiers,
        t.creator_tiers[creator],
    ) by {
        let ids = s.creator_tiers[creator];
        assert(creator_in_order(s, creator));
        if creator == tier.creator {
            lemma_minted_total_one_more(s.tiers, t.tiers, ids, tier_id);
        } else {
            assert forall|i: int| 0 <= i < ids.len() implies {
                let id = #[trigger] ids[i];
                &&& s.tiers.contains_key(id) == t.tiers.contains_key(id)
                &&& s.tiers.contains_key(id) ==> s.tiers[id].minted == t.tiers[id].minted
            } by {
                assert(s.creator_tiers[creator].contains(ids[i]));
            }
            lemma_minted_total_same(s.tiers, t.tiers, ids);
        }
    }
    lemma_minted_up_to_one_more(s.tiers, t.tiers, value_or(s.tier_count, 0) as nat, tier_id);
    assert forall|other: u32| #[trigger]
        t.tiers.contains_key(other) implies t.tiers[other].minted == sold(
        t.passes,
        other,
        pass_id as nat,
    ) by {
        lemma_sold_same(s.passes, t.passes, other, (pass_id - 1) as nat);
    }
    lemma_sums_after_payment(
        s,
        t,
        tier.creator,
        new_earning(
            env,
            tier.creator,
            s.token->0,
            creator_amount(amount as int, fee_in_force(env)) as i128,
        ),
    );
}

/// Renewing a pass keeps the entries in order.
proof fn lemma_renewed_in_order(env: EnvView, fan: Address, pass_id: u64, quote: Option<Quote>)
    requires
        in_order(env.state),
        renew_refusal(env, fan, pass_id, quote) is None,
    ensures
        in_order(renewed(env, fan, pass_id, quote).state),
{
    let s = env.state;
    let t = renewed(env, fan, pass_id, quote).state;
    let tier = s.tiers[s.passes[pass_id].tier_id];
    let amount = price_amount(env, tier.price, quote)->Ok_0;
    assert(pass_in_order(s, pass_id));
    assert(tier_in_order(s, s.passes[pass_id].tier_id));
    lemma_earned_not_negative(env, tier.price, quote, amount);
    assert(creator_in_order(s, tier.creator));
    lemma_passes_stay(s, t);
    lemma_tiers_stay(s, t);
    lemma_counts_of_tiers_stay(s, t);
    lemma_sums_after_payment(
        s,
        t,
        tier.creator,
        new_earning(
            env,
            tier.creator,
            s.token->0,
            creator_amount(amount as int, fee_in_force(env)) as i128,
        ),
    );
}

/// Changing the times of a pass keeps the entries in order.
proof fn lemma_pass_changed_in_order(
    env: EnvView,
    fan: Address,
    pass_id: u64,
    pass: PassView,
    event: Event,
)
    requires
        in_order(env.state),
        env.state.passes.contains_key(pass_id),
        pass == (PassView {
            expires_at: pass.expires_at,
            paused: pass.paused,
            paused_at: pass.paused_at,
            total_paused_seconds: pass.total_paused_seconds,
            ..env.state.passes[pass_id]
        }),
        pass.paused ==> pass.paused_at < pass.expires_at,
        !pass.paused ==> pass.paused_at == 0,
    ensures
        in_order(pass_changed(env, fan, pass_id, pass, event).state),
{
    let s = env.state;
    let t = pass_changed(env, fan, pass_id, pass, event).state;
    assert(pass_in_order(s, pass_id));
    lemma_passes_stay(s, t);
    lemma_tiers_stay(s, t);
    lemma_counts_of_tiers_stay(s, t);
    lemma_sums_stay(s, t);
}

/// Sums of earnings that are not negative are not negative.
pub proof fn lemma_amount_not_negative(s: StorageView, creator: Address, ids: Seq<u64>)
    requires
        earnings_in_order(s),
        forall|i: int|
            0 <= i < ids.len() ==> s.earnings.contains_key(
                EarningKey { creator, earning_id: #[trigger] ids[i] },
            ),
    ensures
        amount_of(s.earnings, creator, ids) >= 0,
    decreases ids.len(),
{
    if ids.len() > 0 {
        assert forall|i: int| 0 <= i < ids.drop_last().len() implies s.earnings.contains_key(
            EarningKey { creator, earning_id: #[trigger] ids.drop_last()[i] },
        ) by {
            assert(ids.drop_last()[i] == ids[i]);
        }
        lemma_amount_not_negative(s, creator, ids.drop_last());
        assert(ids.last() == ids[ids.len() - 1]);
    }
}

/// Releasing what is due keeps the entries in order.
proof fn lemma_released_in_order(env: EnvView, creator: Address)
    requires
        in_order(env.state),
        release_refusal(env, creator) is None,
    ensures
        in_order(released(env, creator, due_now(env, creator)).state),
{
    let s = env.state;
    let ids = due_now(env, creator);
    let t = released(env, creator, ids).state;
    lemma_due_ids(s.earnings, creator, env.now, next_earning_id(env, creator) as nat);
    lemma_amount_not_negative(s, creator, ids);
    assert(ids.take(ids.len() as int) == ids);
    if ids.len() > 0 {
        assert(s.earnings.contains_key(EarningKey { creator, earning_id: ids[0] }));
        assert(s.creators.contains_key(creator));
    }
    assert forall|other: Address| #[trigger]
        t.creators.contains_key(other) implies creator_in_order(t, other) by {
        assert(creator_in_order(s, other));
    }
    lemma_passes_stay(s, t);
    lemma_tiers_stay(s, t);
    lemma_sums_stay(s, t);
}

/// Calls that leave tiers and passes alone keep the entries in order.
proof fn lemma_others_keep_order(env: EnvView, call: Call)
    requires
        in_order(env.state),
        call.refusal(env) is None,
        call is SetFee || call is UpdateLockPeriod || call is SetOracle || call is WithdrawFees
            || call is UpdateMinWithdrawal || call is Upgrade || call is Migrate
            || call is Withdraw || call is ProposeEarlyRelease || call is ApproveEarlyRelease
            || call is GrantPermission || call is RevokePermissionGrant,
    ensures
        in_order(call.applied(env).state),
{
    let s = env.state;
    let t = call.applied(env).state;
    assert forall|creator: Address| #[trigger]
        t.creators.contains_key(creator) implies creator_in_order(t, creator) by {
        assert(creator_in_order(s, creator));
    }
    lemma_passes_stay(s, t);
    lemma_tiers_stay(s, t);
    lemma_sums_stay(s, t);
}

/// What every call keeps: entries that are in order stay in order. The one call
/// left out is setting up a contract again that has been used: it restarts the
/// numbering of tiers and passes.
pub proof fn law_calls_keep_entries_in_order(env: EnvView, call: Call)
    requires
        in_order(env.state),
        call is Initialize ==> unused(env.state),
    ensures
        in_order(call.outcome(env).state),
{
    let s = env.state;
    let t = call.outcome(env).state;
    if call.refusal(env) is None {
        match call {
            Call::Initialize { admin, token, fee_bps, lock_period_seconds } => {
                lemma_initialized_in_order(env, admin, token, fee_bps, lock_period_seconds);
            },
            Call::RegisterCreator { creator } => {
                lemma_registered_in_order(env, creator);
            },
            Call::CreateTier { creator, name, price, duration, max_supply, permissions } => {
                lemma_tier_created_in_order(
                    env,
                    creator,
                    name,
                    price,
                    duration,
                    max_supply,
                    permissions,
                );
            },
            Call::DeactivateTier { creator, tier_id } => {
                assert(tier_in_order(s, tier_id));
                lemma_tier_changed_in_order(
                    env,
                    creator,
                    tier_id,
                    TierView { active: false, ..s.tiers[tier_id] },
                    Event::TierDeactivated { tier_id, creator },
                );
            },
            Call::UpdateTierPrice { creator, tier_id, price } => {
                lemma_tier_changed_in_order(
                    env,
                    creator,
                    tier_id,
                    TierView { price, ..s.tiers[tier_id] },
                    Event::TierPriceUpdated {
                        tier_id,
                        old_price: s.tiers[tier_id].price,
                        new_price: price.stored_amount(),
                    },
                );
            },
            Call::MintPass { fan, tier_id, permissions, quote } => {
                lemma_minted_in_order(env, fan, tier_id, permissions, quote);
            },
            Call::RenewPass { fan, pass_id, quote } => {
                lemma_renewed_in_order(env, fan, pass_id, quote);
            },
            Call::PausePass { fan, pass_id } => {
                lemma_pass_changed_in_order(
                    env,
                    fan,
                    pass_id,
                    t.passes[pass_id],
                    Event::PassPaused { pass_id, fan, timestamp: env.now },
                );
            },
            Call::ResumePass { fan, pass_id } => {
                lemma_pass_changed_in_order(
                    env,
                    fan,
                    pass_id,
                    t.passes[pass_id],
                    Event::PassResumed {
                        pass_id,
                        fan,
                        timestamp: env.now,
                        paused_duration: (env.now - s.passes[pass_id].paused_at) as u64,
                    },
                );
            },
            Call::ProcessUnlockedEarnings { creator } => {
                lemma_released_in_order(env, creator);
            },
            _ => {
                lemma_others_keep_order(env, call);
            },
        }
    }
}

} // verus!
