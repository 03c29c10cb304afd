//! What the contract promises to those who call it, said of its functions: of their
//! arguments, of what they return, and of the ledger before and after.

use vstd::prelude::*;

use crate::address::Address;
use crate::contract::StarPassContract;
use crate::earnings::due_now;
use crate::env::{Env, EnvView};
use crate::failure::{Abort, Failure};
use crate::laws::loans::{law_pass_permits_only_while_valid, law_valid_pass_permits};
use crate::laws::purchases::{
    law_earning_of_a_renewal_is_locked_for_the_period,
    law_earning_of_a_sale_is_locked_for_the_period, law_escrow_gets_all_but_the_fee,
};
use crate::laws::terms::law_fee_is_its_share_rounded_down;
use crate::permissions::pass_permits;
use crate::pricing::{protocol_fee, split_price, Quote};
use crate::storage::StorageView;
use crate::types::{texts, EarningKey, GrantKey, PassView, Symbol, TierPriceMode};

verus! {

// ------------------------------------------------------------
// The fee
// ------------------------------------------------------------

/// Every payment can be split at every fee, as long as their product fits. The
/// protocol's part is the fee's share in basis points, rounded down, and the
/// creator's part is exactly the rest.
pub proof fn law_payment_is_split_by_the_fee(
    price: i128,
    fee_bps: u32,
    parts: Result<(i128, i128), Failure>,
)
    requires
        price >= 0,
        fee_bps <= 1000,
        call_ensures(split_price, (price, fee_bps), parts),
    ensures
        parts is Ok <==> price * fee_bps <= i128::MAX,
        parts matches Ok((fee, rest)) ==> fee * 10_000 <= price * fee_bps < (fee + 1) * 10_000
            && rest == price - fee,
        parts matches Err(reason) ==> reason == Failure::Abort(Abort::ArithmeticOverflow),
{
    law_fee_is_its_share_rounded_down(price as int, fee_bps);
    let fee = protocol_fee(price as int, fee_bps as int);
    assert(0 <= fee <= price) by (nonlinear_arith)
        requires
            price >= 0,
            fee_bps <= 1000,
            fee * 10_000 <= price * fee_bps < (fee + 1) * 10_000,
    ;
}

/// What a fan pays for a pass is one transfer from the fan to the contract. The
/// protocol's part of it is the fee's share, rounded down, and exactly the rest goes
/// into escrow for the creator.
pub proof fn law_sale_puts_all_but_the_fee_into_escrow(
    env: &mut Env,
    fan: Address,
    tier_id: u32,
    permissions: Vec<Symbol>,
    quote: Option<Quote>,
    result: Result<u64, Failure>,
)
    requires
        call_ensures(
            StarPassContract::mint_pass_quoted,
            (env, fan, tier_id, permissions, quote),
            result,
        ),
        result is Ok,
    ensures
        ({
            let creator = old(env)@.state.tiers[tier_id].creator;
            let fee_bps = match old(env)@.state.protocol_fee_bps {
                Some(fee_bps) => fee_bps,
                None => 0,
            };
            let number = if old(env)@.state.earning_counts.contains_key(creator) {
                old(env)@.state.earning_counts[creator]
            } else {
                0
            };
            let sent = final(env)@.effects[old(env)@.effects.len() as int + 1];
            let earning = final(env)@.state.earnings[EarningKey { creator, earning_id: number }];
            let fee = sent->amount - earning.amount;
            &&& sent is Transfer
            &&& Some(sent->token) == old(env)@.state.token
            &&& sent->from == fan
            &&& sent->to == old(env)@.contract
            &&& sent->amount >= 0 ==> fee * 10_000 <= sent->amount * fee_bps < (fee + 1) * 10_000
        }),
{
    law_escrow_gets_all_but_the_fee(old(env)@, fan, tier_id, texts(permissions@), 0, quote);
}

/// What a fan pays for a renewal is split in the same way.
pub proof fn law_renewal_puts_all_but_the_fee_into_escrow(
    env: &mut Env,
    fan: Address,
    pass_id: u64,
    quote: Option<Quote>,
    result: Result<u64, Failure>,
)
    requires
        call_ensures(
            StarPassContract::renew_pass_quoted,
            (env, fan, pass_id, quote),
            result,
        ),
        result is Ok,
    ensures
        ({
            let creator = old(env)@.state.tiers[old(env)@.state.passes[pass_id].tier_id].creator;
            let fee_bps = match old(env)@.state.protocol_fee_bps {
                Some(fee_bps) => fee_bps,
                None => 0,
            };
            let number = if old(env)@.state.earning_counts.contains_key(creator) {
                old(env)@.state.earning_counts[creator]
            } else {
                0
            };
            let sent = final(env)@.effects[old(env)@.effects.len() as int + 1];
            let earning = final(env)@.state.earnings[EarningKey { creator, earning_id: number }];
            let fee = sent->amount - earning.amount;
            &&& sent is Transfer
            &&& Some(sent->token) == old(env)@.state.token
            &&& sent->from == fan
            &&& sent->to == old(env)@.contract
            &&& sent->amount >= 0 ==> fee * 10_000 <= sent->amount * fee_bps < (fee + 1) * 10_000
        }),
{
    law_escrow_gets_all_but_the_fee(old(env)@, fan, 0, Seq::empty(), pass_id, quote);
}

// ------------------------------------------------------------
// The lock period
// ------------------------------------------------------------

/// After a sale the new earning is due at every time later than the sale plus the
/// lock period, and at no earlier time: it is locked for the lock period and no
/// longer.
pub proof fn law_sale_locks_its_earning_for_the_period(
    env: &mut Env,
    fan: Address,
    tier_id: u32,
    permissions: Vec<Symbol>,
    quote: Option<Quote>,
    result: Result<u64, Failure>,
    at: u64,
)
    requires
        call_ensures(
            StarPassContract::mint_pass_quoted,
            (env, fan, tier_id, permissions, quote),
            result,
        ),
        result is Ok,
    ensures
        ({
            let creator = old(env)@.state.tiers[tier_id].creator;
            let period = match old(env)@.state.lock_period_seconds {
                Some(period) => period,
                None => 0,
            };
            let number = if old(env)@.state.earning_counts.contains_key(creator) {
                old(env)@.state.earning_counts[creator]
            } else {
                0
            };
            let earning = final(env)@.state.earnings[EarningKey { creator, earning_id: number }];
            let at_that_time = EnvView { now: at, ..final(env)@ };
            &&& earning.creator == creator
            &&& !earning.released
            &&& old(env)@.now + period <= u64::MAX ==> earning.unlocks_at == old(env)@.now + period
            &&& due_now(at_that_time, creator).contains(number) <==> at > old(env)@.now + period
        }),
{
    law_earning_of_a_sale_is_locked_for_the_period(
        old(env)@,
        fan,
        tier_id,
        texts(permissions@),
        quote,
        at,
    );
}

/// After a renewal the new earning is due at every time later than the renewal plus
/// the lock period, and at no earlier time.
pub proof fn law_renewal_locks_its_earning_for_the_period(
    env: &mut Env,
    fan: Address,
    pass_id: u64,
    quote: Option<Quote>,
    result: Result<u64, Failure>,
    at: u64,
)
    requires
        call_ensures(
            StarPassContract::renew_pass_quoted,
            (env, fan, pass_id, quote),
            result,
        ),
        result is Ok,
    ensures
        ({
            let creator = old(env)@.state.tiers[old(env)@.state.passes[pass_id].tier_id].creator;
            let period = match old(env)@.state.lock_period_seconds {
                Some(period) => period,
                None => 0,
            };
            let number = if old(env)@.state.earning_counts.contains_key(creator) {
                old(env)@.state.earning_counts[creator]
            } else {
                0
            };
            let earning = final(env)@.state.earnings[EarningKey { creator, earning_id: number }];
            let at_that_time = EnvView { now: at, ..final(env)@ };
            &&& earning.creator == creator
            &&& !earning.released
            &&& old(env)@.now + period <= u64::MAX ==> earning.unlocks_at == old(env)@.now + period
            &&& due_now(at_that_time, creator).contains(number) <==> at > old(env)@.now + period
        }),
{
    law_earning_of_a_renewal_is_locked_for_the_period(old(env)@, fan, pass_id, quote, at);
}

// ------------------------------------------------------------
// Permissions
// ------------------------------------------------------------

/// A fan has a permission for a tier exactly if a loan that has not expired lists
/// it, or a pass on the fan's list does that is of the tier, active, not paused, and
/// expires later than now.
pub proof fn law_permission_is_by_loan_or_valid_pass(
    env: &Env,
    fan: Address,
    tier_id: u32,
    permission: Symbol,
    permitted: bool,
)
    requires
        call_ensures(StarPassContract::has_permission, (env, fan, tier_id, permission), permitted),
    ensures
        ({
            let key = GrantKey { fan, tier_id };
            let lent = {
                &&& env@.state.grants.contains_key(key)
                &&& env@.now < env@.state.grants[key].expires_at
                &&& env@.state.grants[key].permissions.contains(permission@)
            };
            let bought = env@.state.fan_passes.contains_key(fan) && exists|i: int|
                0 <= i < env@.state.fan_passes[fan].len() && env@.state.passes.contains_key(
                    #[trigger] env@.state.fan_passes[fan][i],
                ) && {
                    let pass = env@.state.passes[env@.state.fan_passes[fan][i]];
                    &&& pass.tier_id == tier_id
                    &&& pass.active
                    &&& !pass.paused
                    &&& env@.now < pass.expires_at
                    &&& pass.pass_permissions.contains(permission@)
                };
            permitted <==> lent || bought
        }),
{
    if pass_permits(env@, fan, tier_id, permission@) {
        law_pass_permits_only_while_valid(env@, fan, tier_id, permission@);
    }
    let list = env@.state.fan_passes[fan];
    if env@.state.fan_passes.contains_key(fan) {
        assert forall|i: int|
            0 <= i < list.len() && env@.state.passes.contains_key(#[trigger] list[i]) && {
                let pass = env@.state.passes[list[i]];
                &&& pass.tier_id == tier_id
                &&& pass.active
                &&& !pass.paused
                &&& env@.now < pass.expires_at
                &&& pass.pass_permissions.contains(permission@)
            } implies pass_permits(env@, fan, tier_id, permission@) by {
            law_valid_pass_permits(env@, fan, tier_id, permission@, i);
        }
    }
}

/// A fan without a loan for a tier whose passes of it have all expired has no
/// permission for it.
pub proof fn law_expired_passes_give_no_permission(
    env: &Env,
    fan: Address,
    tier_id: u32,
    permission: Symbol,
    permitted: bool,
)
    requires
        call_ensures(StarPassContract::has_permission, (env, fan, tier_id, permission), permitted),
        !env@.state.grants.contains_key(GrantKey { fan, tier_id }),
        forall|pass_id: u64| #[trigger]
            env@.state.passes.contains_key(pass_id) && env@.state.passes[pass_id].tier_id == tier_id
                ==> env@.state.passes[pass_id].expires_at <= env@.now,
    ensures
        !permitted,
{
    law_permission_is_by_loan_or_valid_pass(env, fan, tier_id, permission, permitted);
}

// ------------------------------------------------------------
// Tiers
// ------------------------------------------------------------

/// A newly created tier is on record, under the number returned, with exactly the
/// name, the price, the duration, the supply and the permissions that its creator
/// gave, active and with nothing minted.
pub proof fn law_created_tier_is_what_was_asked_for(
    env: &mut Env,
    creator: Address,
    name: Vec<u8>,
    price: i128,
    duration: u64,
    max_supply: u32,
    permissions: Vec<Symbol>,
    result: Result<u32, Failure>,
)
    requires
        call_ensures(
            StarPassContract::create_tier,
            (env, creator, name, price, duration, max_supply, permissions),
            result,
        ),
    ensures
        result is Ok <==> price > 0 && old(env)@.state.creators.contains_key(creator) && duration
            > 0 && name@.len() > 0 && old(env)@.state.tier_count != Some(0xffff_ffffu32),
        result is Err ==> final(env)@ == old(env)@,
        result matches Ok(tier_id) ==> {
            let tier = final(env)@.state.tiers[tier_id];
            &&& final(env)@.state.tiers == old(env)@.state.tiers.insert(tier_id, tier)
            &&& final(env)@.state.tier_count == Some(tier_id)
            &&& final(env)@.state.creator_tiers[creator].last() == tier_id
            &&& tier.tier_id == tier_id
            &&& tier.creator == creator
            &&& tier.name == name@
            &&& tier.price == TierPriceMode::Fixed(price)
            &&& tier.duration == duration
            &&& tier.max_supply == max_supply
            &&& tier.permissions.len() == permissions@.len()
            &&& forall|i: int|
                0 <= i < permissions@.len() ==> #[trigger] tier.permissions[i] == permissions@[i]@
            &&& tier.active
            &&& tier.minted == 0
        },
{
}

/// So is a newly created tier with a price in USD.
pub proof fn law_created_usd_tier_is_what_was_asked_for(
    env: &mut Env,
    creator: Address,
    name: Vec<u8>,
    cents: i128,
    duration: u64,
    max_supply: u32,
    permissions: Vec<Symbol>,
    result: Result<u32, Failure>,
)
    requires
        call_ensures(
            StarPassContract::create_tier_usd,
            (env, creator, name, cents, duration, max_supply, permissions),
            result,
        ),
    ensures
        result is Ok <==> cents > 0 && old(env)@.state.creators.contains_key(creator) && duration
            > 0 && name@.len() > 0 && old(env)@.state.tier_count != Some(0xffff_ffffu32),
        result is Err ==> final(env)@ == old(env)@,
        result matches Ok(tier_id) ==> {
            let tier = final(env)@.state.tiers[tier_id];
            &&& final(env)@.state.tiers == old(env)@.state.tiers.insert(tier_id, tier)
            &&& final(env)@.state.tier_count == Some(tier_id)
            &&& final(env)@.state.creator_tiers[creator].last() == tier_id
            &&& tier.tier_id == tier_id
            &&& tier.creator == creator
            &&& tier.name == name@
            &&& tier.price == TierPriceMode::USDDenominated(cents)
            &&& tier.duration == duration
            &&& tier.max_supply == max_supply
            &&& tier.permissions.len() == permissions@.len()
            &&& forall|i: int|
                0 <= i < permissions@.len() ==> #[trigger] tier.permissions[i] == permissions@[i]@
            &&& tier.active
            &&& tier.minted == 0
        },
{
}

// ------------------------------------------------------------
// Pausing
// ------------------------------------------------------------

/// The owner of a pass that is on record, active, not paused and not expired can
/// always pause it, however often it was paused before, and nobody else can. The
/// pass is then paused since now, and nothing else about it or any other entry
/// changes.
pub proof fn law_pausing_is_refused_only_for_cause(
    env: &mut Env,
    fan: Address,
    pass_id: u64,
    result: Result<(), Failure>,
)
    requires
        call_ensures(StarPassContract::pause_pass, (env, fan, pass_id), result),
    ensures
        ({
            let before = old(env)@.state.passes[pass_id];
            let after = final(env)@.state.passes[pass_id];
            &&& result is Ok <==> {
                &&& old(env)@.state.passes.contains_key(pass_id)
                &&& before.owner == fan
                &&& before.active
                &&& !before.paused
                &&& before.expires_at > old(env)@.now
            }
            &&& result is Err ==> final(env)@ == old(env)@
            &&& result is Ok ==> after == (PassView {
                paused: true,
                paused_at: old(env)@.now,
                ..before
            })
            &&& result is Ok ==> final(env)@.state == (StorageView {
                passes: old(env)@.state.passes.insert(pass_id, after),
                writes: final(env)@.state.writes,
                ..old(env)@.state
            })
        }),
{
}

/// The owner of a paused pass that is active can always resume it once the clock has
/// reached the pause. The time since the pause is added to its expiry, as far as
/// that fits, and the pass is paused no longer.
pub proof fn law_resuming_is_refused_only_for_cause(
    env: &mut Env,
    fan: Address,
    pass_id: u64,
    result: Result<(), Failure>,
)
    requires
        call_ensures(StarPassContract::resume_pass, (env, fan, pass_id), result),
    ensures
        ({
            let before = old(env)@.state.passes[pass_id];
            let after = final(env)@.state.passes[pass_id];
            let expiry = before.expires_at + (old(env)@.now - before.paused_at);
            &&& result is Ok <==> {
                &&& old(env)@.state.passes.contains_key(pass_id)
                &&& before.owner == fan
                &&& before.active
                &&& before.paused
                &&& before.paused_at <= old(env)@.now
            }
            &&& result is Err ==> final(env)@ == old(env)@
            &&& result is Ok ==> !after.paused && after.paused_at == 0
            &&& result is Ok && expiry <= u64::MAX ==> after.expires_at == expiry
            &&& result is Ok && expiry > u64::MAX ==> after.expires_at == u64::MAX
        }),
{
}

} // verus!
