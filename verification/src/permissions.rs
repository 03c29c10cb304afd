//! Permissions: what passes carry, and what creators lend.

use vstd::prelude::*;

use crate::address::Address;
use crate::contract::StarPassContract;
use crate::effect::{Effect, Event};
use crate::env::{settles, Env, EnvView};
use crate::failure::{abort, Abort, Failure};
use crate::passes::{passes_of, saturating_sum};
use crate::queries::pass_usable;
use crate::storage::StorageView;
use crate::types::{texts, DataKey, GrantKey, GrantView, PermissionGrant, Symbol};

verus! {

/// Whether every one of the wanted permissions is among those listed.
pub open spec fn covered(wanted: Seq<Seq<char>>, listed: Seq<Seq<char>>) -> bool {
    forall|i: int| 0 <= i < wanted.len() ==> listed.contains(#[trigger] wanted[i])
}

/// Whether a permission is among those listed.
pub fn is_listed(wanted: &Symbol, listed: &Vec<Symbol>) -> (found: bool)
    ensures
        found == texts(listed@).contains(wanted@),
{
    let mut i: usize = 0;
    while i < listed.len()
        invariant
            i <= listed@.len(),
            forall|j: int| 0 <= j < i ==> texts(listed@)[j] != wanted@,
        decreases listed@.len() - i,
    {
        if listed[i].same(wanted) {
            assert(texts(listed@)[i as int] == wanted@);
            return true;
        }
        i = i + 1;
    }
    false
}

/// Whether every one of the wanted permissions is among those listed.
pub fn all_listed(wanted: &Vec<Symbol>, listed: &Vec<Symbol>) -> (found: bool)
    ensures
        found == covered(texts(wanted@), texts(listed@)),
{
    let mut i: usize = 0;
    while i < wanted.len()
        invariant
            i <= wanted@.len(),
            forall|j: int| 0 <= j < i ==> texts(listed@).contains(#[trigger] texts(wanted@)[j]),
        decreases wanted@.len() - i,
    {
        if !is_listed(&wanted[i], listed) {
            assert(!texts(listed@).contains(texts(wanted@)[i as int]));
            return false;
        }
        assert(texts(listed@).contains(texts(wanted@)[i as int]));
        i = i + 1;
    }
    true
}

/// Whether one of the fan's usable passes for the tier carries a permission.
pub open spec fn pass_permits(
    env: EnvView,
    fan: Address,
    tier_id: u32,
    permission: Seq<char>,
) -> bool {
    exists|pass_id: u64| #[trigger]
        passes_of(env, fan).contains(pass_id) && pass_usable(env, pass_id)
            && env.state.passes[pass_id].tier_id == tier_id
            && env.state.passes[pass_id].pass_permissions.contains(permission)
}

/// Whether the fan has been lent a permission for the tier that has not expired.
pub open spec fn grant_permits(
    env: EnvView,
    fan: Address,
    tier_id: u32,
    permission: Seq<char>,
) -> bool {
    let key = GrantKey { fan, tier_id };
    env.state.grants.contains_key(key) && env.state.grants[key].expires_at > env.now
        && env.state.grants[key].permissions.contains(permission)
}

/// Why a creator cannot lend permissions.
pub open spec fn grant_refusal(
    env: EnvView,
    creator: Address,
    tier_id: u32,
    permissions: Seq<Seq<char>>,
) -> Option<Failure> {
    if !env.state.tiers.contains_key(tier_id) {
        abort(Abort::TierNotFound)
    } else if env.state.tiers[tier_id].creator != creator {
        abort(Abort::NotTierCreator)
    } else if !covered(permissions, env.state.tiers[tier_id].permissions) {
        abort(Abort::PermissionNotInTier)
    } else {
        None
    }
}

/// The ledger with permissions lent to a fan.
pub open spec fn granted(
    env: EnvView,
    creator: Address,
    fan: Address,
    tier_id: u32,
    permissions: Seq<Seq<char>>,
    duration: u64,
) -> EnvView {
    let expires_at = saturating_sum(env.now, duration);
    EnvView {
        state: StorageView {
            grants: env.state.grants.insert(
                GrantKey { fan, tier_id },
                GrantView { fan, tier_id, permissions, expires_at },
            ),
            writes: env.state.writes.push(DataKey::PermissionGrant(fan, tier_id)),
            ..env.state
        },
        effects: env.effects + seq![
            Effect::RequireAuth(creator),
            Effect::Publish(Event::PermissionGranted { creator, fan, tier_id, expires_at }),
        ],
        ..env
    }
}

/// Why a creator cannot take lent permissions back.
pub open spec fn revocation_refusal(
    env: EnvView,
    creator: Address,
    fan: Address,
    tier_id: u32,
) -> Option<Failure> {
    if !env.state.tiers.contains_key(tier_id) {
        abort(Abort::TierNotFound)
    } else if env.state.tiers[tier_id].creator != creator {
        abort(Abort::NotTierCreator)
    } else if !env.state.grants.contains_key(GrantKey { fan, tier_id }) {
        abort(Abort::GrantNotFound)
    } else {
        None
    }
}

/// The ledger with lent permissions taken back.
pub open spec fn revoked(env: EnvView, creator: Address, fan: Address, tier_id: u32) -> EnvView {
    EnvView {
        state: StorageView {
            grants: env.state.grants.remove(GrantKey { fan, tier_id }),
            writes: env.state.writes.push(DataKey::PermissionGrant(fan, tier_id)),
            ..env.state
        },
        effects: env.effects + seq![
            Effect::RequireAuth(creator),
            Effect::Publish(Event::PermissionRevoked { creator, fan, tier_id }),
        ],
        ..env
    }
}

impl StarPassContract {
    /// Whether the fan has a permission for the tier, by a usable pass or by a
    /// loan that has not expired.
    pub fn has_permission(env: &Env, fan: Address, tier_id: u32, permission: Symbol) -> (has: bool)
        ensures
            has == (pass_permits(env@, fan, tier_id, permission@) || grant_permits(
                env@,
                fan,
                tier_id,
                permission@,
            )),
    {
        let ids: Vec<u64> = Self::get_fan_passes(env, fan);
        let now: u64 = env.timestamp;
        let mut i: usize = 0;
        while i < ids.len()
            invariant
                i <= ids@.len(),
                ids@ == passes_of(env@, fan),
                now == env@.now,
                forall|j: int|
                    0 <= j < i ==> !(pass_usable(env@, #[trigger] ids@[j])
                        && env@.state.passes[ids@[j]].tier_id == tier_id
                        && env@.state.passes[ids@[j]].pass_permissions.contains(permission@)),
            decreases ids@.len() - i,
        {
            if let Some(pass) = env.storage.pass(ids[i]) {
                if pass.tier_id == tier_id && pass.is_usable(now) && is_listed(
                    &permission,
                    &pass.pass_permissions,
                ) {
                    assert(passes_of(env@, fan).contains(ids@[i as int]));
                    return true;
                }
            }
            i = i + 1;
        }
        match env.storage.grant(fan, tier_id) {
            Some(grant) => grant.expires_at > now && is_listed(&permission, &grant.permissions),
            None => false,
        }
    }

    /// Lends some of a tier's permissions to a fan for a time, in place of what
    /// was lent before. The tier's creator signs.
    pub fn grant_permission(
        env: &mut Env,
        creator: Address,
        fan: Address,
        tier_id: u32,
        permissions: Vec<Symbol>,
        duration: u64,
    ) -> (result: Result<(), Failure>)
        ensures
            settles(
                grant_refusal(old(env)@, creator, tier_id, texts(permissions@)),
                (),
                granted(old(env)@, creator, fan, tier_id, texts(permissions@), duration),
                old(env)@,
                result,
                final(env)@,
            ),
    {
        let tier = match env.storage.tier(tier_id) {
            Some(tier) => tier,
            None => return Err(Failure::Abort(Abort::TierNotFound)),
        };
        if tier.creator != creator {
            return Err(Failure::Abort(Abort::NotTierCreator));
        }
        if !all_listed(&permissions, &tier.permissions) {
            return Err(Failure::Abort(Abort::PermissionNotInTier));
        }
        let ghost lent = texts(permissions@);
        let expires_at: u64 = env.timestamp.saturating_add(duration);

        env.require_auth(creator);
        env.storage.set_grant(
            fan,
            tier_id,
            PermissionGrant { fan, tier_id, permissions, expires_at },
        );
        env.publish(Event::PermissionGranted { creator, fan, tier_id, expires_at });
        assert(env@ =~= granted(old(env)@, creator, fan, tier_id, lent, duration));
        Ok(())
    }

    /// Takes lent permissions back from a fan. The tier's creator signs.
    pub fn revoke_permission_grant(env: &mut Env, creator: Address, fan: Address, tier_id: u32) -> (
    result: Result<(), Failure>)
        ensures
            settles(
                revocation_refusal(old(env)@, creator, fan, tier_id),
                (),
                revoked(old(env)@, creator, fan, tier_id),
                old(env)@,
                result,
                final(env)@,
            ),
    {
        let tier = match env.storage.tier(tier_id) {
            Some(tier) => tier,
            None => return Err(Failure::Abort(Abort::TierNotFound)),
        };
        if tier.creator != creator {
            return Err(Failure::Abort(Abort::NotTierCreator));
        }
        if env.storage.grant(fan, tier_id).is_none() {
            return Err(Failure::Abort(Abort::GrantNotFound));
        }
        env.require_auth(creator);
        env.storage.remove_grant(fan, tier_id);
        env.publish(Event::PermissionRevoked { creator, fan, tier_id });
        assert(env@ =~= revoked(old(env)@, creator, fan, tier_id));
        Ok(())
    }
}

} // verus!
