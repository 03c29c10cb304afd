//! Permissions, by pass and by loan, condition by condition and field by field.

use vstd::prelude::*;

use crate::address::Address;
use crate::effect::{Effect, Event};
use crate::env::EnvView;
use crate::failure::{Abort, Failure};
use crate::order::in_order;
use crate::passes::passes_of;
use crate::permissions::{
    grant_permits, grant_refusal, granted, pass_permits, revocation_refusal, revoked,
};
use crate::queries::pass_usable;
use crate::storage::StorageView;
use crate::types::{DataKey, GrantKey};

verus! {

/// A fan has a permission for a tier only by a loan that has not expired and lists
/// it, or by a pass of the fan's own of that tier that lists it and is active, not
/// paused, and expires later than now.
pub proof fn law_permission_has_a_living_source(
    env: EnvView,
    fan: Address,
    tier_id: u32,
    permission: Seq<char>,
)
    requires
        in_order(env.state),
        pass_permits(env, fan, tier_id, permission) || grant_permits(
            env,
            fan,
            tier_id,
            permission,
        ),
    ensures
        ({
            let key = GrantKey { fan, tier_id };
            ||| {
                &&& env.state.grants.contains_key(key)
                &&& env.now < env.state.grants[key].expires_at
                &&& env.state.grants[key].permissions.contains(permission)
            }
            ||| exists|pass_id: u64| #[trigger]
                env.state.passes.contains_key(pass_id) && {
                    let pass = env.state.passes[pass_id];
                    &&& pass.owner == fan
                    &&& pass.tier_id == tier_id
                    &&& pass.active
                    &&& !pass.paused
                    &&& env.now < pass.expires_at
                    &&& pass.pass_permissions.contains(permission)
                }
        }),
{
    if pass_permits(env, fan, tier_id, permission) {
        let pass_id = choose|pass_id: u64| #[trigger]
            passes_of(env, fan).contains(pass_id) && pass_usable(env, pass_id)
                && env.state.passes[pass_id].tier_id == tier_id
                && env.state.passes[pass_id].pass_permissions.contains(permission);
        assert(env.state.fan_passes.contains_key(fan));
        assert(env.state.fan_passes[fan].contains(pass_id));
        assert(env.state.passes.contains_key(pass_id));
    }
}

/// A pass on the fan's list that is of the tier, lists the permission, and is
/// active, not paused and not expired gives the permission.
pub proof fn law_valid_pass_permits(
    env: EnvView,
    fan: Address,
    tier_id: u32,
    permission: Seq<char>,
    i: int,
)
    requires
        env.state.fan_passes.contains_key(fan),
        0 <= i < env.state.fan_passes[fan].len(),
        env.state.passes.contains_key(env.state.fan_passes[fan][i]),
        ({
            let pass = env.state.passes[env.state.fan_passes[fan][i]];
            &&& pass.tier_id == tier_id
            &&& pass.active
            &&& !pass.paused
            &&& env.now < pass.expires_at
            &&& pass.pass_permissions.contains(permission)
        }),
    ensures
        pass_permits(env, fan, tier_id, permission),
{
    let pass_id = env.state.fan_passes[fan][i];
    assert(passes_of(env, fan).contains(pass_id));
    assert(pass_usable(env, pass_id));
}

/// A pass permits only if it is on the fan's list, is of the tier, lists the
/// permission, and is active, not paused and not expired, whatever state the ledger
/// is in.
pub proof fn law_pass_permits_only_while_valid(
    env: EnvView,
    fan: Address,
    tier_id: u32,
    permission: Seq<char>,
)
    requires
        pass_permits(env, fan, tier_id, permission),
    ensures
        env.state.fan_passes.contains_key(fan),
        exists|i: int|
            0 <= i < env.state.fan_passes[fan].len() && env.state.passes.contains_key(
                #[trigger] env.state.fan_passes[fan][i],
            ) && {
                let pass = env.state.passes[env.state.fan_passes[fan][i]];
                &&& pass.tier_id == tier_id
                &&& pass.active
                &&& !pass.paused
                &&& env.now < pass.expires_at
                &&& pass.pass_permissions.contains(permission)
            },
{
    let pass_id = choose|pass_id: u64| #[trigger]
        passes_of(env, fan).contains(pass_id) && pass_usable(env, pass_id)
            && env.state.passes[pass_id].tier_id == tier_id
            && env.state.passes[pass_id].pass_permissions.contains(permission);
    let i = choose|i: int| 0 <= i < passes_of(env, fan).len() && passes_of(env, fan)[i] == pass_id;
    assert(env.state.fan_passes[fan][i] == pass_id);
}

/// A fan whose passes of a tier have all expired and who has no loan for it has no
/// permission for it.
pub proof fn law_expired_passes_permit_nothing(
    env: EnvView,
    fan: Address,
    tier_id: u32,
    permission: Seq<char>,
)
    requires
        !env.state.grants.contains_key(GrantKey { fan, tier_id }),
        forall|pass_id: u64| #[trigger]
            env.state.passes.contains_key(pass_id) && env.state.passes[pass_id].tier_id == tier_id
                ==> env.state.passes[pass_id].expires_at <= env.now,
    ensures
        !pass_permits(env, fan, tier_id, permission),
        !grant_permits(env, fan, tier_id, permission),
{
    if pass_permits(env, fan, tier_id, permission) {
        law_pass_permits_only_while_valid(env, fan, tier_id, permission);
    }
}

/// A loan permits exactly what it lists, for its tier, and until it expires.
pub proof fn law_loan_permits_what_it_lists(
    env: EnvView,
    fan: Address,
    tier_id: u32,
    permission: Seq<char>,
)
    ensures
        ({
            let key = GrantKey { fan, tier_id };
            grant_permits(env, fan, tier_id, permission) <==> {
                &&& env.state.grants.contains_key(key)
                &&& env.state.grants[key].permissions.contains(permission)
                &&& env.now < env.state.grants[key].expires_at
            }
        }),
{
}

/// A tier's creator can lend any of its permissions to anyone; each reason for a
/// refusal comes exactly if its condition is the first that fails.
pub proof fn law_tier_creator_can_lend(
    env: EnvView,
    creator: Address,
    tier_id: u32,
    permissions: Seq<Seq<char>>,
)
    ensures
        ({
            let refusal = grant_refusal(env, creator, tier_id, permissions);
            let tier = env.state.tiers[tier_id];
            let found = env.state.tiers.contains_key(tier_id);
            let owned = found && tier.creator == creator;
            let listed = forall|i: int|
                0 <= i < permissions.len() ==> tier.permissions.contains(#[trigger] permissions[i]);
            &&& refusal is None <==> owned && listed
            &&& refusal == Some(Failure::Abort(Abort::TierNotFound)) <==> !found
            &&& refusal == Some(Failure::Abort(Abort::NotTierCreator)) <==> found && !owned
            &&& refusal == Some(Failure::Abort(Abort::PermissionNotInTier)) <==> owned && !listed
        }),
{
}

/// A loan is on record with the fan, the tier and the permissions that the creator
/// gave, and expires after the duration given, or at the last time there is if that
/// is beyond it. Nothing else changes. The creator signs, and the loan is published.
pub proof fn law_loan_is_recorded_as_given(
    env: EnvView,
    creator: Address,
    fan: Address,
    tier_id: u32,
    permissions: Seq<Seq<char>>,
    duration: u64,
)
    ensures
        ({
            let key = GrantKey { fan, tier_id };
            let after = granted(env, creator, fan, tier_id, permissions, duration);
            let loan = after.state.grants[key];
            &&& after.now == env.now && after.contract == env.contract
            &&& after.state == (StorageView {
                grants: after.state.grants,
                writes: after.state.writes,
                ..env.state
            })
            &&& after.state.grants == env.state.grants.insert(key, loan)
            &&& loan.fan == fan
            &&& loan.tier_id == tier_id
            &&& loan.permissions == permissions
            &&& env.now + duration <= 0xffff_ffff_ffff_ffff ==> loan.expires_at == env.now
                + duration
            &&& env.now + duration > 0xffff_ffff_ffff_ffff ==> loan.expires_at
                == 0xffff_ffff_ffff_ffff
            &&& after.state.writes == env.state.writes.push(DataKey::PermissionGrant(fan, tier_id))
            &&& after.effects == env.effects.push(Effect::RequireAuth(creator)).push(
                Effect::Publish(
                    Event::PermissionGranted { creator, fan, tier_id, expires_at: loan.expires_at },
                ),
            )
        }),
{
}

/// A tier's creator can take back any loan of it, expired or not; each reason for a
/// refusal comes exactly if its condition is the first that fails.
pub proof fn law_tier_creator_can_take_back(
    env: EnvView,
    creator: Address,
    fan: Address,
    tier_id: u32,
)
    ensures
        ({
            let refusal = revocation_refusal(env, creator, fan, tier_id);
            let found = env.state.tiers.contains_key(tier_id);
            let owned = found && env.state.tiers[tier_id].creator == creator;
            let lent = env.state.grants.contains_key(GrantKey { fan, tier_id });
            &&& refusal is None <==> owned && lent
            &&& refusal == Some(Failure::Abort(Abort::TierNotFound)) <==> !found
            &&& refusal == Some(Failure::Abort(Abort::NotTierCreator)) <==> found && !owned
            &&& refusal == Some(Failure::Abort(Abort::GrantNotFound)) <==> owned && !lent
        }),
{
}

/// A loan that is taken back is no longer on record, and nothing else changes. The
/// creator signs, and it is published.
pub proof fn law_loan_taken_back_is_gone(
    env: EnvView,
    creator: Address,
    fan: Address,
    tier_id: u32,
    other: GrantKey,
)
    requires
        other != (GrantKey { fan, tier_id }),
    ensures
        ({
            let after = revoked(env, creator, fan, tier_id);
            &&& after.now == env.now && after.contract == env.contract
            &&& after.state == (StorageView {
                grants: after.state.grants,
                writes: after.state.writes,
                ..env.state
            })
            &&& !after.state.grants.contains_key(GrantKey { fan, tier_id })
            &&& after.state.grants.contains_key(other) == env.state.grants.contains_key(other)
            &&& after.state.grants[other] == env.state.grants[other]
            &&& after.state.writes == env.state.writes.push(DataKey::PermissionGrant(fan, tier_id))
            &&& after.effects == env.effects.push(Effect::RequireAuth(creator)).push(
                Effect::Publish(Event::PermissionRevoked { creator, fan, tier_id }),
            )
        }),
{
}

} // verus!
