//! What is answered to queries, condition by condition.

use vstd::prelude::*;

use crate::address::Address;
use crate::contract::StarPassContract;
use crate::earnings::recorded_earnings;
use crate::env::{Env, EnvView};
use crate::failure::{Abort, Failure};
use crate::metadata::{pass_json, pass_metadata_refusal, tier_json, tier_metadata_refusal};
use crate::passes::passes_of;
use crate::queries::{
    holds_creator, holds_tier, minted_total, page_refusal, pass_count_refusal, pass_usable,
    records_of, views,
};
use crate::table::viewed;
use crate::tiers::tiers_of;
use crate::types::{Creator, EarlyReleaseProposal, Pass, PendingEarning, PermissionGrant, Tier};

verus! {

// ------------------------------------------------------------
// Access
// ------------------------------------------------------------

/// A pass on the fan's list that is active, not paused and not expired gives access
/// to its tier and to its creator.
pub proof fn law_valid_pass_gives_access(env: EnvView, fan: Address, i: int)
    requires
        env.state.fan_passes.contains_key(fan),
        0 <= i < env.state.fan_passes[fan].len(),
        env.state.passes.contains_key(env.state.fan_passes[fan][i]),
        env.state.passes[env.state.fan_passes[fan][i]].active,
        !env.state.passes[env.state.fan_passes[fan][i]].paused,
        env.now < env.state.passes[env.state.fan_passes[fan][i]].expires_at,
    ensures
        holds_tier(env, fan, env.state.passes[env.state.fan_passes[fan][i]].tier_id),
        holds_creator(env, fan, env.state.passes[env.state.fan_passes[fan][i]].creator),
{
    let pass_id = env.state.fan_passes[fan][i];
    assert(passes_of(env, fan).contains(pass_id));
    assert(pass_usable(env, pass_id));
}

/// Access to a tier comes by nothing but a pass of it on the fan's list that is
/// active, not paused and not expired.
pub proof fn law_access_to_a_tier_needs_a_valid_pass(env: EnvView, fan: Address, tier_id: u32)
    requires
        holds_tier(env, fan, tier_id),
    ensures
        env.state.fan_passes.contains_key(fan),
        exists|i: int|
            0 <= i < env.state.fan_passes[fan].len() && env.state.passes.contains_key(
                #[trigger] env.state.fan_passes[fan][i],
            ) && {
                let pass = env.state.passes[env.state.fan_passes[fan][i]];
                &&& pass.tier_id == tier_id
                &&& pass.active
                &&& !pass.paused
                &&& env.now < pass.expires_at
            },
{
    let pass_id = choose|pass_id: u64| #[trigger]
        passes_of(env, fan).contains(pass_id) && pass_usable(env, pass_id)
            && env.state.passes[pass_id].tier_id == tier_id;
    let i = choose|i: int| 0 <= i < passes_of(env, fan).len() && passes_of(env, fan)[i] == pass_id;
    assert(env.state.fan_passes[fan][i] == pass_id);
}

/// Access to a creator comes by nothing but a pass of the creator on the fan's list
/// that is active, not paused and not expired.
pub proof fn law_access_to_a_creator_needs_a_valid_pass(
    env: EnvView,
    fan: Address,
    creator: Address,
)
    requires
        holds_creator(env, fan, creator),
    ensures
        env.state.fan_passes.contains_key(fan),
        exists|i: int|
            0 <= i < env.state.fan_passes[fan].len() && env.state.passes.contains_key(
                #[trigger] env.state.fan_passes[fan][i],
            ) && {
                let pass = env.state.passes[env.state.fan_passes[fan][i]];
                &&& pass.creator == creator
                &&& pass.active
                &&& !pass.paused
                &&& env.now < pass.expires_at
            },
{
    let pass_id = choose|pass_id: u64| #[trigger]
        passes_of(env, fan).contains(pass_id) && pass_usable(env, pass_id)
            && env.state.passes[pass_id].creator == creator;
    let i = choose|i: int| 0 <= i < passes_of(env, fan).len() && passes_of(env, fan)[i] == pass_id;
    assert(env.state.fan_passes[fan][i] == pass_id);
}

// ------------------------------------------------------------
// Counts, pages and metadata
// ------------------------------------------------------------

/// A creator's passes can be counted exactly if their number fits.
pub proof fn law_passes_can_be_counted_if_they_fit(env: EnvView, creator: Address)
    ensures
        ({
            let refusal = pass_count_refusal(env, creator);
            let count = minted_total(env.state.tiers, tiers_of(env, creator));
            &&& refusal is None <==> count <= 0xffff_ffff_ffff_ffff
            &&& refusal is Some ==> refusal == Some(Failure::Abort(Abort::ArithmeticOverflow))
        }),
{
}

/// A page can hold up to twenty tiers, from any offset on; only the end of a page
/// that holds any has to fit.
pub proof fn law_pages_hold_up_to_twenty(
    env: EnvView,
    creator: Address,
    offset: u32,
    limit: u32,
)
    ensures
        ({
            let refusal = page_refusal(env, creator, offset, limit);
            let listed = env.state.creator_tiers.contains_key(creator) && offset
                < env.state.creator_tiers[creator].len();
            let fits = offset + limit <= 0xffff_ffff;
            &&& refusal is None <==> limit <= 20 && (listed ==> fits)
            &&& refusal == Some(Failure::Abort(Abort::LimitTooLarge)) <==> limit > 20
            &&& refusal == Some(Failure::Abort(Abort::ArithmeticOverflow)) <==> limit <= 20
                && listed && !fits
        }),
{
}

/// There is metadata of every pass on record whose tier is on record with a name of
/// at most sixty-four bytes. Each reason for a refusal comes exactly if its
/// condition is the first that fails.
pub proof fn law_pass_with_a_short_name_has_metadata(env: EnvView, pass_id: u64)
    ensures
        ({
            let refusal = pass_metadata_refusal(env, pass_id);
            let tier_id = env.state.passes[pass_id].tier_id;
            let found = env.state.passes.contains_key(pass_id);
            let offered = found && env.state.tiers.contains_key(tier_id);
            let short = env.state.tiers[tier_id].name.len() <= 64;
            &&& refusal is None <==> offered && short
            &&& refusal == Some(Failure::Abort(Abort::PassNotFound)) <==> !found
            &&& refusal == Some(Failure::Abort(Abort::TierNotFound)) <==> found && !offered
            &&& refusal == Some(Failure::Abort(Abort::NameTooLong)) <==> offered && !short
        }),
{
}

/// There is metadata of every tier on record with a name of at most sixty-four
/// bytes.
pub proof fn law_tier_with_a_short_name_has_metadata(env: EnvView, tier_id: u32)
    ensures
        ({
            let refusal = tier_metadata_refusal(env, tier_id);
            let found = env.state.tiers.contains_key(tier_id);
            let short = env.state.tiers[tier_id].name.len() <= 64;
            &&& refusal is None <==> found && short
            &&& refusal == Some(Failure::Abort(Abort::TierNotFound)) <==> !found
            &&& refusal == Some(Failure::Abort(Abort::NameTooLong)) <==> found && !short
        }),
{
}

// ------------------------------------------------------------
// Records
// ------------------------------------------------------------

/// What is said of a tier is said of its fields, one by one.
pub proof fn law_tier_is_its_fields(tier: Tier, i: int)
    ensures
        tier@.tier_id == tier.tier_id,
        tier@.creator == tier.creator,
        tier@.name == tier.name@,
        tier@.price == tier.price,
        tier@.duration == tier.duration,
        tier@.max_supply == tier.max_supply,
        tier@.minted == tier.minted,
        tier@.active == tier.active,
        tier@.permissions.len() == tier.permissions@.len(),
        0 <= i < tier.permissions@.len() ==> tier@.permissions[i] == tier.permissions@[i]@,
{
}

/// What is said of a pass is said of its fields, one by one.
pub proof fn law_pass_is_its_fields(pass: Pass, i: int)
    ensures
        pass@.pass_id == pass.pass_id,
        pass@.tier_id == pass.tier_id,
        pass@.creator == pass.creator,
        pass@.owner == pass.owner,
        pass@.token == pass.token,
        pass@.purchased_at == pass.purchased_at,
        pass@.expires_at == pass.expires_at,
        pass@.active == pass.active,
        pass@.paused == pass.paused,
        pass@.paused_at == pass.paused_at,
        pass@.total_paused_seconds == pass.total_paused_seconds,
        pass@.pass_permissions.len() == pass.pass_permissions@.len(),
        0 <= i < pass.pass_permissions@.len() ==> pass@.pass_permissions[i]
            == pass.pass_permissions@[i]@,
{
}

/// What is said of a loan is said of its fields, one by one.
pub proof fn law_loan_is_its_fields(loan: PermissionGrant, i: int)
    ensures
        loan@.fan == loan.fan,
        loan@.tier_id == loan.tier_id,
        loan@.expires_at == loan.expires_at,
        loan@.permissions.len() == loan.permissions@.len(),
        0 <= i < loan.permissions@.len() ==> loan@.permissions[i] == loan.permissions@[i]@,
{
}

/// What is said of profiles, earnings and proposals is said of themselves.
pub proof fn law_other_records_are_themselves(
    profile: Creator,
    earning: PendingEarning,
    proposal: EarlyReleaseProposal,
)
    ensures
        profile@ == profile,
        earning@ == earning,
        proposal@ == proposal,
{
}

/// A list of passes is said to hold what each pass on it holds, and an optional
/// record what the record holds, if there is one.
pub proof fn law_lists_are_viewed_item_by_item(passes: Seq<Pass>, i: int, tier: Tier)
    ensures
        views(passes).len() == passes.len(),
        0 <= i < passes.len() ==> views(passes)[i] == passes[i]@,
        viewed(Some(tier)) == Some(tier@),
        viewed(None::<Tier>) is None,
{
}

// ------------------------------------------------------------
// The functions that answer
// ------------------------------------------------------------

/// A fan is told to have a valid pass of a tier exactly if the fan's list holds a
/// pass of it that is active, not paused, and expires later than now.
pub proof fn law_valid_pass_is_told_of_a_tier(env: &Env, fan: Address, tier_id: u32, held: bool)
    requires
        call_ensures(StarPassContract::has_valid_pass, (env, fan, tier_id), held),
    ensures
        held <==> env@.state.fan_passes.contains_key(fan) && exists|i: int|
            0 <= i < env@.state.fan_passes[fan].len() && env@.state.passes.contains_key(
                #[trigger] env@.state.fan_passes[fan][i],
            ) && {
                let pass = env@.state.passes[env@.state.fan_passes[fan][i]];
                &&& pass.tier_id == tier_id
                &&& pass.active
                &&& !pass.paused
                &&& env@.now < pass.expires_at
            },
{
    if held {
        law_access_to_a_tier_needs_a_valid_pass(env@, fan, tier_id);
    }
    let list = env@.state.fan_passes[fan];
    if env@.state.fan_passes.contains_key(fan) {
        assert forall|i: int|
            0 <= i < list.len() && env@.state.passes.contains_key(#[trigger] list[i]) && {
                let pass = env@.state.passes[list[i]];
                &&& pass.tier_id == tier_id
                &&& pass.active
                &&& !pass.paused
                &&& env@.now < pass.expires_at
            } implies held by {
            law_valid_pass_gives_access(env@, fan, i);
        }
    }
}

/// A fan is told to have a valid pass of a creator exactly if the fan's list holds a
/// pass of the creator that is active, not paused, and expires later than now.
pub proof fn law_valid_pass_is_told_of_a_creator(
    env: &Env,
    fan: Address,
    creator: Address,
    held: bool,
)
    requires
        call_ensures(StarPassContract::has_any_valid_pass, (env, fan, creator), held),
    ensures
        held <==> env@.state.fan_passes.contains_key(fan) && exists|i: int|
            0 <= i < env@.state.fan_passes[fan].len() && env@.state.passes.contains_key(
                #[trigger] env@.state.fan_passes[fan][i],
            ) && {
                let pass = env@.state.passes[env@.state.fan_passes[fan][i]];
                &&& pass.creator == creator
                &&& pass.active
                &&& !pass.paused
                &&& env@.now < pass.expires_at
            },
{
    if held {
        law_access_to_a_creator_needs_a_valid_pass(env@, fan, creator);
    }
    let list = env@.state.fan_passes[fan];
    if env@.state.fan_passes.contains_key(fan) {
        assert forall|i: int|
            0 <= i < list.len() && env@.state.passes.contains_key(#[trigger] list[i]) && {
                let pass = env@.state.passes[list[i]];
                &&& pass.creator == creator
                &&& pass.active
                &&& !pass.paused
                &&& env@.now < pass.expires_at
            } implies held by {
            law_valid_pass_gives_access(env@, fan, i);
        }
    }
}

/// A pass, a tier or a profile is returned exactly if it is on record, and as it is
/// on record.
pub proof fn law_records_are_returned_as_they_are(
    env: &Env,
    pass_id: u64,
    pass: Result<Pass, Failure>,
    tier_id: u32,
    tier: Result<Tier, Failure>,
    creator: Address,
    profile: Result<Creator, Failure>,
)
    requires
        call_ensures(StarPassContract::get_pass, (env, pass_id), pass),
        call_ensures(StarPassContract::get_tier, (env, tier_id), tier),
        call_ensures(StarPassContract::get_creator, (env, creator), profile),
    ensures
        pass is Ok <==> env@.state.passes.contains_key(pass_id),
        pass matches Ok(found) ==> found@ == env@.state.passes[pass_id],
        pass matches Err(reason) ==> reason == Failure::Abort(Abort::PassNotFound),
        tier is Ok <==> env@.state.tiers.contains_key(tier_id),
        tier matches Ok(found) ==> found@ == env@.state.tiers[tier_id],
        tier matches Err(reason) ==> reason == Failure::Abort(Abort::TierNotFound),
        profile is Ok <==> env@.state.creators.contains_key(creator),
        profile matches Ok(found) ==> found == env@.state.creators[creator],
        profile matches Err(reason) ==> reason == Failure::Abort(Abort::CreatorNotFound),
{
}

/// The balance, the counts, the least withdrawal and the oracle are returned as they
/// are on record; without a record the balance and the counts are zero, and the least
/// withdrawal is a million.
pub proof fn law_numbers_are_returned_as_they_are(
    env: &Env,
    creator: Address,
    balance: i128,
    passes: u64,
    tiers: u32,
    least: i128,
    oracle: Option<Address>,
)
    requires
        call_ensures(StarPassContract::get_creator_balance, (env, creator), balance),
        call_ensures(StarPassContract::get_pass_count, (env,), passes),
        call_ensures(StarPassContract::get_tier_count, (env,), tiers),
        call_ensures(StarPassContract::get_min_withdrawal, (env,), least),
        call_ensures(StarPassContract::get_oracle, (env,), oracle),
    ensures
        env@.state.creator_balances.contains_key(creator) ==> balance
            == env@.state.creator_balances[creator],
        !env@.state.creator_balances.contains_key(creator) ==> balance == 0,
        env@.state.pass_count matches Some(count) ==> passes == count,
        env@.state.pass_count is None ==> passes == 0,
        env@.state.tier_count matches Some(count) ==> tiers == count,
        env@.state.tier_count is None ==> tiers == 0,
        env@.state.min_withdrawal matches Some(amount) ==> least == amount,
        env@.state.min_withdrawal is None ==> least == 1_000_000,
        oracle == env@.state.oracle,
{
}

/// The lists of a fan's passes and of a creator's tiers are returned as they are on
/// record, or empty; the details of a fan's passes are those of each pass on the
/// list that is on record, in its order; and the earnings are those on record, in
/// the order of their numbers.
pub proof fn law_lists_are_returned_as_they_are(
    env: &Env,
    fan: Address,
    passes: Vec<u64>,
    details: Vec<Pass>,
    creator: Address,
    tiers: Vec<u32>,
    earnings: Vec<PendingEarning>,
)
    requires
        call_ensures(StarPassContract::get_fan_passes, (env, fan), passes),
        call_ensures(StarPassContract::get_fan_pass_details, (env, fan), details),
        call_ensures(StarPassContract::get_creator_tiers, (env, creator), tiers),
        call_ensures(StarPassContract::get_pending_earnings, (env, creator), earnings),
    ensures
        env@.state.fan_passes.contains_key(fan) ==> passes@ == env@.state.fan_passes[fan],
        !env@.state.fan_passes.contains_key(fan) ==> passes@.len() == 0,
        views(details@) == records_of(env@, passes@),
        env@.state.creator_tiers.contains_key(creator) ==> tiers@
            == env@.state.creator_tiers[creator],
        !env@.state.creator_tiers.contains_key(creator) ==> tiers@.len() == 0,
        env@.state.earning_counts.contains_key(creator) ==> earnings@ == recorded_earnings(
            env@.state.earnings,
            creator,
            env@.state.earning_counts[creator] as nat,
        ),
        !env@.state.earning_counts.contains_key(creator) ==> earnings@.len() == 0,
{
}

/// The active passes of a fan are those on the fan's list that are on record,
/// active, not paused, and expire later than now, in the order of the list.
pub proof fn law_active_passes_are_the_valid_ones(env: &Env, fan: Address, active: Vec<u64>)
    requires
        call_ensures(StarPassContract::get_fan_active_passes, (env, fan), active),
    ensures
        ({
            let valid = |id: u64|
                {
                    &&& env@.state.passes.contains_key(id)
                    &&& env@.state.passes[id].active
                    &&& !env@.state.passes[id].paused
                    &&& env@.now < env@.state.passes[id].expires_at
                };
            &&& env@.state.fan_passes.contains_key(fan) ==> active@
                == env@.state.fan_passes[fan].filter(valid)
            &&& !env@.state.fan_passes.contains_key(fan) ==> active@.len() == 0
        }),
{
    let valid = |id: u64|
        {
            &&& env@.state.passes.contains_key(id)
            &&& env@.state.passes[id].active
            &&& !env@.state.passes[id].paused
            &&& env@.now < env@.state.passes[id].expires_at
        };
    let usable = |pass_id: u64| pass_usable(env@, pass_id);
    assert(usable =~= valid);
    reveal(Seq::filter);
}

/// A creator's passes are counted over the tiers on the creator's list, and the count
/// is returned if it fits.
pub proof fn law_passes_are_counted_over_the_list(
    env: &Env,
    creator: Address,
    count: Result<u64, Failure>,
)
    requires
        call_ensures(StarPassContract::get_creator_pass_count, (env, creator), count),
    ensures
        ({
            let sum = if env@.state.creator_tiers.contains_key(creator) {
                minted_total(env@.state.tiers, env@.state.creator_tiers[creator])
            } else {
                0
            };
            &&& count is Ok <==> sum <= u64::MAX
            &&& count matches Ok(n) ==> n == sum
            &&& count matches Err(reason) ==> reason == Failure::Abort(Abort::ArithmeticOverflow)
        }),
{
}

/// A page of up to twenty tiers is the part of the creator's list from the offset
/// on, as long as was asked for or as there is.
pub proof fn law_pages_are_parts_of_the_list(
    env: &Env,
    creator: Address,
    offset: u32,
    limit: u32,
    result: Result<Vec<u32>, Failure>,
    i: int,
)
    requires
        call_ensures(
            StarPassContract::get_creator_tiers_page,
            (env, creator, offset, limit),
            result,
        ),
    ensures
        ({
            let all = if env@.state.creator_tiers.contains_key(creator) {
                env@.state.creator_tiers[creator]
            } else {
                seq![]
            };
            &&& limit > 20 <==> result == Err::<Vec<u32>, Failure>(
                Failure::Abort(Abort::LimitTooLarge),
            )
            &&& limit <= 20 && (offset + limit <= u32::MAX || offset >= all.len()) <==> result is Ok
            &&& result matches Ok(list) ==> (offset >= all.len() ==> list@.len() == 0)
            &&& result matches Ok(list) ==> (offset + limit <= all.len() ==> list@.len() == limit)
            &&& result matches Ok(list) ==> (offset <= all.len() < offset + limit ==> list@.len()
                == all.len() - offset)
            &&& result matches Ok(list) ==> (0 <= i < list@.len() ==> list@[i] == all[offset + i])
        }),
{
}

/// The metadata of a pass and of a tier is made of what is on record of them and of
/// their creators' strkeys, at the time of the ledger.
pub proof fn law_metadata_is_of_what_is_on_record(
    env: &Env,
    pass_id: u64,
    of_pass: Result<Vec<u8>, Failure>,
    tier_id: u32,
    of_tier: Result<Vec<u8>, Failure>,
)
    requires
        call_ensures(StarPassContract::get_pass_metadata, (env, pass_id), of_pass),
        call_ensures(StarPassContract::get_tier_collection_metadata, (env, tier_id), of_tier),
    ensures
        ({
            let pass = env@.state.passes[pass_id];
            let tier = env@.state.tiers[tier_id];
            &&& of_pass is Ok <==> pass_metadata_refusal(env@, pass_id) is None
            &&& of_pass matches Err(reason) ==> pass_metadata_refusal(env@, pass_id) == Some(reason)
            &&& of_pass matches Ok(text) ==> text@ == pass_json(
                pass,
                env@.state.tiers[pass.tier_id].name,
                pass.creator.strkey(),
                env@.now,
            )
            &&& of_tier is Ok <==> tier_metadata_refusal(env@, tier_id) is None
            &&& of_tier matches Err(reason) ==> tier_metadata_refusal(env@, tier_id) == Some(reason)
            &&& of_tier matches Ok(text) ==> text@ == tier_json(tier, tier.creator.strkey())
        }),
{
}

} // verus!
