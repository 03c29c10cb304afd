//! What passes and lent permissions give access to, and for how long.

use vstd::prelude::*;

use crate::address::Address;
use crate::calls::Call;
use crate::env::EnvView;
use crate::failure::{abort, Abort};
use crate::order::{in_order, pass_in_order, tier_in_order};
use crate::passes::{
    mint_refusal, minted, next_pass_id, passes_of, pause_refusal, paused, renew_refusal, renewed,
    resume_refusal, resumed, saturating_sum,
};
use crate::permissions::{
    grant_permits, grant_refusal, granted, pass_permits, revocation_refusal, revoked,
};
use crate::pricing::Quote;
use crate::queries::{holds_creator, holds_tier, page, pass_usable, records_of};
use crate::types::{GrantKey, PassView};

verus! {

/// A fan has access to a tier exactly while the fan owns a pass for it that is
/// active, not paused and not expired.
pub proof fn law_access_is_by_own_valid_pass(env: EnvView, fan: Address, tier_id: u32)
    requires
        in_order(env.state),
    ensures
        holds_tier(env, fan, tier_id) <==> exists|pass_id: u64| #[trigger]
            env.state.passes.contains_key(pass_id) && env.state.passes[pass_id].owner == fan
                && env.state.passes[pass_id].tier_id == tier_id
                && env.state.passes[pass_id].usable(env.now),
{
    if exists|pass_id: u64| #[trigger]
        env.state.passes.contains_key(pass_id) && env.state.passes[pass_id].owner == fan
            && env.state.passes[pass_id].tier_id == tier_id
            && env.state.passes[pass_id].usable(env.now) {
        let pass_id = choose|pass_id: u64| #[trigger]
            env.state.passes.contains_key(pass_id) && env.state.passes[pass_id].owner == fan
                && env.state.passes[pass_id].tier_id == tier_id
                && env.state.passes[pass_id].usable(env.now);
        assert(pass_in_order(env.state, pass_id));
        assert(passes_of(env, fan).contains(pass_id));
    }
    if holds_tier(env, fan, tier_id) {
        let pass_id = choose|pass_id: u64| #[trigger]
            passes_of(env, fan).contains(pass_id) && pass_usable(env, pass_id)
                && env.state.passes[pass_id].tier_id == tier_id;
        lemma_listed_pass_is_owned(env, fan, pass_id);
    }
}

/// A pass on a fan's list is the fan's.
proof fn lemma_listed_pass_is_owned(env: EnvView, fan: Address, pass_id: u64)
    requires
        in_order(env.state),
        passes_of(env, fan).contains(pass_id),
    ensures
        env.state.passes.contains_key(pass_id),
        env.state.passes[pass_id].owner == fan,
{
    assert(env.state.fan_passes.contains_key(fan));
    assert(env.state.fan_passes[fan].contains(pass_id));
}

/// A fan's list holds the passes that the fan owns, each once, and no others; the
/// details are those of the passes on the list, in its order.
pub proof fn law_list_holds_what_the_fan_owns(env: EnvView, fan: Address, pass_id: u64)
    requires
        in_order(env.state),
    ensures
        passes_of(env, fan).contains(pass_id) <==> env.state.passes.contains_key(pass_id)
            && env.state.passes[pass_id].owner == fan,
        passes_of(env, fan).no_duplicates(),
        records_of(env, passes_of(env, fan)) == passes_of(env, fan).map_values(
            |id: u64| env.state.passes[id],
        ),
{
    let ids = passes_of(env, fan);
    if ids.contains(pass_id) {
        lemma_listed_pass_is_owned(env, fan, pass_id);
    }
    if env.state.passes.contains_key(pass_id) && env.state.passes[pass_id].owner == fan {
        assert(pass_in_order(env.state, pass_id));
    }
    assert forall|i: int| 0 <= i < ids.len() implies env.state.passes.contains_key(
        #[trigger] ids[i],
    ) by {
        assert(ids.contains(ids[i]));
        lemma_listed_pass_is_owned(env, fan, ids[i]);
    }
    lemma_filter_keeps_all(ids, |id: u64| env.state.passes.contains_key(id));
}

/// Keeping what all items have keeps all items.
proof fn lemma_filter_keeps_all<T>(items: Seq<T>, keep: spec_fn(T) -> bool)
    requires
        forall|i: int| 0 <= i < items.len() ==> keep(#[trigger] items[i]),
    ensures
        items.filter(keep) == items,
    decreases items.len(),
{
    reveal(Seq::filter);
    if items.len() > 0 {
        let rest = items.drop_last();
        assert forall|i: int| 0 <= i < rest.len() implies keep(#[trigger] rest[i]) by {
            assert(rest[i] == items[i]);
        }
        lemma_filter_keeps_all(rest, keep);
        assert(keep(items[items.len() - 1]));
        assert(rest.push(items.last()) == items);
    }
}

/// A fan has access to a creator exactly while the fan owns a pass of the creator
/// that is active, not paused and not expired, for whichever tier.
pub proof fn law_access_to_a_creator_is_by_any_tier(env: EnvView, fan: Address, creator: Address)
    requires
        in_order(env.state),
    ensures
        holds_creator(env, fan, creator) <==> exists|tier_id: u32| #[trigger]
            env.state.tiers.contains_key(tier_id) && env.state.tiers[tier_id].creator == creator
                && holds_tier(env, fan, tier_id),
{
    if holds_creator(env, fan, creator) {
        let pass_id = choose|pass_id: u64| #[trigger]
            passes_of(env, fan).contains(pass_id) && pass_usable(env, pass_id)
                && env.state.passes[pass_id].creator == creator;
        assert(pass_in_order(env.state, pass_id));
        let tier_id = env.state.passes[pass_id].tier_id;
        assert(env.state.tiers.contains_key(tier_id));
        assert(holds_tier(env, fan, tier_id));
    }
    if exists|tier_id: u32| #[trigger]
        env.state.tiers.contains_key(tier_id) && env.state.tiers[tier_id].creator == creator
            && holds_tier(env, fan, tier_id) {
        let tier_id = choose|tier_id: u32| #[trigger]
            env.state.tiers.contains_key(tier_id) && env.state.tiers[tier_id].creator == creator
                && holds_tier(env, fan, tier_id);
        let pass_id = choose|pass_id: u64| #[trigger]
            passes_of(env, fan).contains(pass_id) && pass_usable(env, pass_id)
                && env.state.passes[pass_id].tier_id == tier_id;
        assert(pass_in_order(env.state, pass_id));
        assert(passes_of(env, fan).contains(pass_id));
    }
}

/// A bought pass is on the fan's list and gives access to the tier and to the
/// creator, and by the permissions it was bought with, if any, from the purchase
/// until the tier's duration has passed, and no longer.
pub proof fn law_bought_pass_gives_access(
    env: EnvView,
    fan: Address,
    tier_id: u32,
    permissions: Seq<Seq<char>>,
    quote: Option<Quote>,
    permission: Seq<char>,
    later: u64,
)
    requires
        mint_refusal(env, tier_id, permissions, quote) is None,
    ensures
        ({
            let pass_id = next_pass_id(env);
            let tier = env.state.tiers[tier_id];
            let after = EnvView { now: later, ..minted(env, fan, tier_id, permissions, quote) };
            &&& passes_of(after, fan) == passes_of(env, fan).push(pass_id)
            &&& pass_usable(after, pass_id) == (later < env.now + tier.duration)
            &&& later < env.now + tier.duration ==> holds_tier(after, fan, tier_id)
                && holds_creator(after, fan, tier.creator)
            &&& later < env.now + tier.duration && permissions.contains(permission)
                ==> pass_permits(after, fan, tier_id, permission)
        }),
{
    let pass_id = next_pass_id(env);
    let after = EnvView { now: later, ..minted(env, fan, tier_id, permissions, quote) };
    let list = passes_of(after, fan);
    assert(list[list.len() - 1] == pass_id);
    assert(list.contains(pass_id));
}

/// A renewed pass lasts one tier duration longer than it did, or than now if it
/// had expired, and gives access at once unless it is paused. No pass is minted
/// and no other pass changes.
pub proof fn law_renewal_extends_the_pass(
    env: EnvView,
    fan: Address,
    pass_id: u64,
    quote: Option<Quote>,
    other: u64,
)
    requires
        in_order(env.state),
        renew_refusal(env, fan, pass_id, quote) is None,
        other != pass_id,
    ensures
        ({
            let before = env.state.passes[pass_id];
            let after = renewed(env, fan, pass_id, quote).state.passes[pass_id];
            let duration = env.state.tiers[before.tier_id].duration;
            &&& before.expires_at > env.now ==> after.expires_at == before.expires_at + duration
            &&& before.expires_at <= env.now ==> after.expires_at == env.now + duration
            &&& after.usable(env.now) == !before.paused
            &&& after == (PassView { expires_at: after.expires_at, ..before })
            &&& renewed(env, fan, pass_id, quote).state.pass_count == env.state.pass_count
            &&& renewed(env, fan, pass_id, quote).state.creators[before.creator].pass_count
                == env.state.creators[before.creator].pass_count
            &&& renewed(env, fan, pass_id, quote).state.passes.contains_key(other)
                == env.state.passes.contains_key(other)
            &&& renewed(env, fan, pass_id, quote).state.passes[other] == env.state.passes[other]
        }),
{
    assert(pass_in_order(env.state, pass_id));
    assert(tier_in_order(env.state, env.state.passes[pass_id].tier_id));
}

/// A pass stays its owner's: no call changes whose it is, what it is for or what
/// it permits, and only its owner's signature changes how long it lasts.
pub proof fn law_passes_are_their_owners(env: EnvView, call: Call, pass_id: u64)
    requires
        in_order(env.state),
        env.state.passes.contains_key(pass_id),
    ensures
        ({
            let before = env.state.passes[pass_id];
            let after = call.outcome(env).state.passes[pass_id];
            &&& call.outcome(env).state.passes.contains_key(pass_id)
            &&& after == (PassView {
                expires_at: after.expires_at,
                paused: after.paused,
                paused_at: after.paused_at,
                total_paused_seconds: after.total_paused_seconds,
                ..before
            })
            &&& after.expires_at >= before.expires_at
            &&& after != before ==> call.signer(env) == Some(before.owner)
        }),
{
    let before = env.state.passes;
    let after = call.outcome(env).state.passes;
    if call.refusal(env) is None {
        match call {
            Call::MintPass { .. } => {
                assert(!before.contains_key(next_pass_id(env)));
                assert(after[pass_id] == before[pass_id]);
            },
            Call::RenewPass { pass_id: renewed_id, .. } => {
                assert(renewed_id != pass_id ==> after[pass_id] == before[pass_id]);
            },
            Call::PausePass { pass_id: paused_id, .. } => {
                assert(paused_id != pass_id ==> after[pass_id] == before[pass_id]);
            },
            Call::ResumePass { pass_id: resumed_id, .. } => {
                assert(resumed_id != pass_id ==> after[pass_id] == before[pass_id]);
            },
            _ => {
                assert(after == before);
            },
        }
    }
}

/// A paused pass gives no access, however long it would have lasted, and is not
/// paused again.
pub proof fn law_paused_pass_gives_no_access(
    env: EnvView,
    fan: Address,
    pass_id: u64,
    later: u64,
)
    requires
        pause_refusal(env, fan, pass_id) is None,
    ensures
        !pass_usable(EnvView { now: later, ..paused(env, fan, pass_id) }, pass_id),
        pause_refusal(paused(env, fan, pass_id), fan, pass_id) == abort(Abort::PassAlreadyPaused),
{
}

/// The time of a pass stands still while it is paused: whenever its owner resumes
/// it, as much time is left as when it was paused, and it gives access again. The
/// expiry has to be a time that the ledger can tell.
pub proof fn law_pausing_stops_the_clock(
    env: EnvView,
    fan: Address,
    pass_id: u64,
    resumed_at: u64,
)
    requires
        pause_refusal(env, fan, pass_id) is None,
        resumed_at >= env.now,
        env.state.passes[pass_id].expires_at + (resumed_at - env.now) <= u64::MAX,
    ensures
        ({
            let before = env.state.passes[pass_id];
            let at_pause = EnvView { now: resumed_at, ..paused(env, fan, pass_id) };
            let after = resumed(at_pause, fan, pass_id);
            let pass = after.state.passes[pass_id];
            &&& resume_refusal(at_pause, fan, pass_id) is None
            &&& pass.expires_at - resumed_at == before.expires_at - env.now
            &&& pass_usable(after, pass_id)
            &&& pass.total_paused_seconds == saturating_sum(
                before.total_paused_seconds,
                (resumed_at - env.now) as u64,
            )
        }),
{
}

/// A fan has no permission for a tier that the tier does not define.
pub proof fn law_permissions_are_the_tiers(
    env: EnvView,
    fan: Address,
    tier_id: u32,
    permission: Seq<char>,
)
    requires
        in_order(env.state),
        pass_permits(env, fan, tier_id, permission) || grant_permits(
            env,
            fan,
            tier_id,
            permission,
        ),
    ensures
        env.state.tiers.contains_key(tier_id),
        env.state.tiers[tier_id].permissions.contains(permission),
{
    if pass_permits(env, fan, tier_id, permission) {
        let pass_id = choose|pass_id: u64| #[trigger]
            passes_of(env, fan).contains(pass_id) && pass_usable(env, pass_id)
                && env.state.passes[pass_id].tier_id == tier_id
                && env.state.passes[pass_id].pass_permissions.contains(permission);
        assert(pass_in_order(env.state, pass_id));
        let carried = env.state.passes[pass_id].pass_permissions;
        let i = choose|i: int| 0 <= i < carried.len() && carried[i] == permission;
        assert(env.state.tiers[tier_id].permissions.contains(carried[i]));
    } else {
        let lent = env.state.grants[GrantKey { fan, tier_id }].permissions;
        let i = choose|i: int| 0 <= i < lent.len() && lent[i] == permission;
        assert(env.state.tiers[tier_id].permissions.contains(lent[i]));
    }
}

/// Lent permissions hold until they expire, and those that were not lent do not
/// hold by the loan.
pub proof fn law_loan_lasts_until_it_expires(
    env: EnvView,
    creator: Address,
    fan: Address,
    tier_id: u32,
    permissions: Seq<Seq<char>>,
    duration: u64,
    permission: Seq<char>,
    later: u64,
)
    requires
        grant_refusal(env, creator, tier_id, permissions) is None,
    ensures
        grant_permits(
            EnvView {
                now: later,
                ..granted(env, creator, fan, tier_id, permissions, duration)
            },
            fan,
            tier_id,
            permission,
        ) == (permissions.contains(permission) && later < saturating_sum(env.now, duration)),
{
}

/// Permissions that were taken back do not hold by a loan any more.
pub proof fn law_revoked_loan_gives_nothing(
    env: EnvView,
    creator: Address,
    fan: Address,
    tier_id: u32,
    permission: Seq<char>,
    later: u64,
)
    requires
        revocation_refusal(env, creator, fan, tier_id) is None,
    ensures
        !grant_permits(
            EnvView { now: later, ..revoked(env, creator, fan, tier_id) },
            fan,
            tier_id,
            permission,
        ),
{
}

/// A loan is given and taken back by the tier's creator alone.
pub proof fn law_loans_are_the_creators(env: EnvView, call: Call, fan: Address, tier_id: u32)
    requires
        ({
            let key = GrantKey { fan, tier_id };
            let after = call.outcome(env).state.grants;
            ||| after.contains_key(key) != env.state.grants.contains_key(key)
            ||| after.contains_key(key) && after[key] != env.state.grants[key]
        }),
    ensures
        call is GrantPermission || call is RevokePermissionGrant,
        env.state.tiers.contains_key(tier_id),
        call.signer(env) == Some(env.state.tiers[tier_id].creator),
{
}

/// Pages follow each other without a gap: what comes before a page, and the page,
/// make up the list as far as the page reaches.
pub proof fn law_pages_make_up_the_list<T>(all: Seq<T>, offset: int, limit: int)
    requires
        0 <= offset <= all.len(),
        0 <= limit,
    ensures
        all.take(offset) + page(all, offset, limit) == all.take(
            if offset + limit <= all.len() {
                offset + limit
            } else {
                all.len() as int
            },
        ),
        page(all, offset, limit).len() <= limit,
{
}

} // verus!
