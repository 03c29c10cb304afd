//! Reading the ledger. None of these calls needs a signature.

use vstd::prelude::*;

use crate::address::Address;
use crate::contract::StarPassContract;
use crate::earnings::balance_of;
use crate::env::{Env, EnvView};
use crate::failure::{abort, Abort, Failure};
use crate::passes::passes_of;
use crate::pricing::value_or;
use crate::tiers::tiers_of;
use crate::types::{Creator, Pass, PassView, Tier, TierView};

verus! {

/// The greatest number of tiers on a page.
pub const MAX_PAGE_LIMIT: u32 = 20;

/// How a query ends: refused, or with `value` as its result.
pub open spec fn replies<T>(refusal: Option<Failure>, value: T, result: Result<T, Failure>) -> bool {
    match refusal {
        Some(reason) => result == Err::<T, Failure>(reason),
        None => result == Ok::<T, Failure>(value),
    }
}

/// Whether the pass with this number gives access now.
pub open spec fn pass_usable(env: EnvView, pass_id: u64) -> bool {
    env.state.passes.contains_key(pass_id) && env.state.passes[pass_id].usable(env.now)
}

/// Whether a fan has access to a tier now: one of the fan's passes is for it
/// and usable.
pub open spec fn holds_tier(env: EnvView, fan: Address, tier_id: u32) -> bool {
    exists|pass_id: u64| #[trigger]
        passes_of(env, fan).contains(pass_id) && pass_usable(env, pass_id)
            && env.state.passes[pass_id].tier_id == tier_id
}

/// Whether a fan has access to something of a creator now: one of the fan's
/// passes is of this creator and usable.
pub open spec fn holds_creator(env: EnvView, fan: Address, creator: Address) -> bool {
    exists|pass_id: u64| #[trigger]
        passes_of(env, fan).contains(pass_id) && pass_usable(env, pass_id)
            && env.state.passes[pass_id].creator == creator
}

/// The records of those passes that are on record.
pub open spec fn records_of(env: EnvView, pass_ids: Seq<u64>) -> Seq<PassView> {
    pass_ids.filter(|pass_id: u64| env.state.passes.contains_key(pass_id)).map_values(
        |pass_id: u64| env.state.passes[pass_id],
    )
}

/// The contents of a list of passes.
pub open spec fn views(passes: Seq<Pass>) -> Seq<PassView> {
    passes.map_values(|pass: Pass| pass@)
}

/// How many passes were minted of those tiers that are on record.
pub open spec fn minted_total(tiers: Map<u32, TierView>, tier_ids: Seq<u32>) -> nat
    decreases tier_ids.len(),
{
    if tier_ids.len() == 0 {
        0
    } else {
        let before = minted_total(tiers, tier_ids.drop_last());
        if tiers.contains_key(tier_ids.last()) {
            before + tiers[tier_ids.last()].minted as nat
        } else {
            before
        }
    }
}

/// Why the passes of a creator cannot be counted.
pub open spec fn pass_count_refusal(env: EnvView, creator: Address) -> Option<Failure> {
    if minted_total(env.state.tiers, tiers_of(env, creator)) > u64::MAX {
        abort(Abort::ArithmeticOverflow)
    } else {
        None
    }
}

/// The part of a list that starts at `offset` and holds up to `limit` items.
pub open spec fn page<T>(all: Seq<T>, offset: int, limit: int) -> Seq<T> {
    if offset >= all.len() {
        Seq::empty()
    } else if offset + limit > all.len() {
        all.subrange(offset, all.len() as int)
    } else {
        all.subrange(offset, offset + limit)
    }
}

/// Why there is no such page of a creator's tiers.
pub open spec fn page_refusal(
    env: EnvView,
    creator: Address,
    offset: u32,
    limit: u32,
) -> Option<Failure> {
    if limit > MAX_PAGE_LIMIT {
        abort(Abort::LimitTooLarge)
    } else if offset < tiers_of(env, creator).len() && offset + limit > u32::MAX {
        abort(Abort::ArithmeticOverflow)
    } else {
        None
    }
}

/// The total over the first tiers is no more than the total over all.
proof fn lemma_minted_total_prefix(tiers: Map<u32, TierView>, tier_ids: Seq<u32>, k: int)
    requires
        0 <= k <= tier_ids.len(),
    ensures
        minted_total(tiers, tier_ids.take(k)) <= minted_total(tiers, tier_ids),
    decreases tier_ids.len(),
{
    if k < tier_ids.len() {
        lemma_minted_total_prefix(tiers, tier_ids.drop_last(), k);
        assert(tier_ids.drop_last().take(k) == tier_ids.take(k));
    } else {
        assert(tier_ids.take(k) == tier_ids);
    }
}

impl StarPassContract {
    /// Whether the fan holds a usable pass for the tier.
    pub fn has_valid_pass(env: &Env, fan: Address, tier_id: u32) -> (held: bool)
        ensures
            held == holds_tier(env@, fan, tier_id),
    {
        let ids: Vec<u64> = Self::get_fan_passes(env, fan);
        let now: u64 = env.timestamp;
        let mut i: usize = 0;
        while i < ids.len()
            invariant
                i <= ids@.len(),
                ids@ == passes_of(env@, fan),
                now == env@.now,
                forall|j: int|
                    0 <= j < i ==> !(pass_usable(env@, #[trigger] ids@[j])
                        && env@.state.passes[ids@[j]].tier_id == tier_id),
            decreases ids@.len() - i,
        {
            if let Some(pass) = env.storage.pass(ids[i]) {
                if pass.tier_id == tier_id && pass.is_usable(now) {
                    assert(passes_of(env@, fan).contains(ids@[i as int]));
                    return true;
                }
            }
            i = i + 1;
        }
        false
    }

    /// Whether the fan holds a usable pass of the creator.
    pub fn has_any_valid_pass(env: &Env, fan: Address, creator: Address) -> (held: bool)
        ensures
            held == holds_creator(env@, fan, creator),
    {
        let ids: Vec<u64> = Self::get_fan_passes(env, fan);
        let now: u64 = env.timestamp;
        let mut i: usize = 0;
        while i < ids.len()
            invariant
                i <= ids@.len(),
                ids@ == passes_of(env@, fan),
                now == env@.now,
                forall|j: int|
                    0 <= j < i ==> !(pass_usable(env@, #[trigger] ids@[j])
                        && env@.state.passes[ids@[j]].creator == creator),
            decreases ids@.len() - i,
        {
            if let Some(pass) = env.storage.pass(ids[i]) {
                if pass.creator == creator && pass.is_usable(now) {
                    assert(passes_of(env@, fan).contains(ids@[i as int]));
                    return true;
                }
            }
            i = i + 1;
        }
        false
    }

    /// The pass with this number.
    pub fn get_pass(env: &Env, pass_id: u64) -> (result: Result<Pass, Failure>)
        ensures
            match result {
                Ok(pass) => env@.state.passes.contains_key(pass_id) && pass@
                    == env@.state.passes[pass_id],
                Err(reason) => !env@.state.passes.contains_key(pass_id) && reason
                    == Failure::Abort(Abort::PassNotFound),
            },
    {
        match env.storage.pass(pass_id) {
            Some(pass) => Ok(pass),
            None => Err(Failure::Abort(Abort::PassNotFound)),
        }
    }

    /// The tier with this number.
    pub fn get_tier(env: &Env, tier_id: u32) -> (result: Result<Tier, Failure>)
        ensures
            match result {
                Ok(tier) => env@.state.tiers.contains_key(tier_id) && tier@
                    == env@.state.tiers[tier_id],
                Err(reason) => !env@.state.tiers.contains_key(tier_id) && reason
                    == Failure::Abort(Abort::TierNotFound),
            },
    {
        match env.storage.tier(tier_id) {
            Some(tier) => Ok(tier),
            None => Err(Failure::Abort(Abort::TierNotFound)),
        }
    }

    /// The profile of a creator.
    pub fn get_creator(env: &Env, creator: Address) -> (result: Result<Creator, Failure>)
        ensures
            match result {
                Ok(profile) => env@.state.creators.contains_key(creator) && profile
                    == env@.state.creators[creator],
                Err(reason) => !env@.state.creators.contains_key(creator) && reason
                    == Failure::Abort(Abort::CreatorNotFound),
            },
    {
        match env.storage.creator(creator) {
            Some(profile) => Ok(profile),
            None => Err(Failure::Abort(Abort::CreatorNotFound)),
        }
    }

    /// What a creator can withdraw.
    pub fn get_creator_balance(env: &Env, creator: Address) -> (balance: i128)
        ensures
            balance == balance_of(env@, creator),
    {
        match env.storage.creator_balance(creator) {
            Some(balance) => balance,
            None => 0,
        }
    }

    /// How many passes were minted.
    pub fn get_pass_count(env: &Env) -> (count: u64)
        ensures
            count == value_or(env@.state.pass_count, 0),
    {
        match env.storage.pass_count() {
            Some(count) => count,
            None => 0,
        }
    }

    /// How many tiers were defined.
    pub fn get_tier_count(env: &Env) -> (count: u32)
        ensures
            count == value_or(env@.state.tier_count, 0),
    {
        match env.storage.tier_count() {
            Some(count) => count,
            None => 0,
        }
    }

    /// The numbers of the fan's passes, in the order in which they were minted.
    pub fn get_fan_passes(env: &Env, fan: Address) -> (ids: Vec<u64>)
        ensures
            ids@ == passes_of(env@, fan),
    {
        match env.storage.passes_of_fan(fan) {
            Some(ids) => ids,
            None => Vec::new(),
        }
    }

    /// The fan's passes.
    pub fn get_fan_pass_details(env: &Env, fan: Address) -> (list: Vec<Pass>)
        ensures
            views(list@) == records_of(env@, passes_of(env@, fan)),
    {
        let ids: Vec<u64> = Self::get_fan_passes(env, fan);
        let mut list: Vec<Pass> = Vec::new();
        let mut i: usize = 0;
        proof {
            reveal(Seq::filter);
            assert(ids@.take(0) == Seq::<u64>::empty());
            assert(views(list@) =~= records_of(env@, ids@.take(0)));
        }
        while i < ids.len()
            invariant
                i <= ids@.len(),
                views(list@) == records_of(env@, ids@.take(i as int)),
            decreases ids@.len() - i,
        {
            let ghost before = list@;
            proof {
                reveal(Seq::filter);
                assert(ids@.take(i + 1).drop_last() == ids@.take(i as int));
            }
            if let Some(pass) = env.storage.pass(ids[i]) {
                list.push(pass);
                assert(views(list@) =~= views(before).push(pass@));
            }
            i = i + 1;
            assert(views(list@) =~= records_of(env@, ids@.take(i as int)));
        }
        assert(ids@.take(ids@.len() as int) == ids@);
        list
    }

    /// The numbers of the fan's usable passes.
    pub fn get_fan_active_passes(env: &Env, fan: Address) -> (list: Vec<u64>)
        ensures
            list@ == passes_of(env@, fan).filter(|pass_id: u64| pass_usable(env@, pass_id)),
    {
        let ids: Vec<u64> = Self::get_fan_passes(env, fan);
        let now: u64 = env.timestamp;
        let mut list: Vec<u64> = Vec::new();
        let mut i: usize = 0;
        proof {
            reveal(Seq::filter);
            assert(ids@.take(0) == Seq::<u64>::empty());
        }
        while i < ids.len()
            invariant
                i <= ids@.len(),
                now == env@.now,
                list@ == ids@.take(i as int).filter(|pass_id: u64| pass_usable(env@, pass_id)),
            decreases ids@.len() - i,
        {
            proof {
                reveal(Seq::filter);
                assert(ids@.take(i + 1).drop_last() == ids@.take(i as int));
            }
            if let Some(pass) = env.storage.pass(ids[i]) {
                if pass.is_usable(now) {
                    list.push(ids[i]);
                }
            }
            i = i + 1;
        }
        assert(ids@.take(ids@.len() as int) == ids@);
        list
    }

    /// The numbers of the creator's tiers, in the order in which they were
    /// defined.
    pub fn get_creator_tiers(env: &Env, creator: Address) -> (ids: Vec<u32>)
        ensures
            ids@ == tiers_of(env@, creator),
    {
        match env.storage.tiers_of_creator(creator) {
            Some(ids) => ids,
            None => Vec::new(),
        }
    }

    /// How many passes were minted over all tiers of the creator, summed over
    /// the tiers themselves.
    pub fn get_creator_pass_count(env: &Env, creator: Address) -> (result: Result<u64, Failure>)
        ensures
            replies(
                pass_count_refusal(env@, creator),
                minted_total(env@.state.tiers, tiers_of(env@, creator)) as u64,
                result,
            ),
    {
        let ids: Vec<u32> = Self::get_creator_tiers(env, creator);
        let mut total: u64 = 0;
        let mut i: usize = 0;
        assert(ids@.take(0) == Seq::<u32>::empty());
        while i < ids.len()
            invariant
                i <= ids@.len(),
                ids@ == tiers_of(env@, creator),
                total == minted_total(env@.state.tiers, ids@.take(i as int)),
            decreases ids@.len() - i,
        {
            proof {
                assert(ids@.take(i + 1).drop_last() == ids@.take(i as int));
                lemma_minted_total_prefix(env@.state.tiers, ids@, i + 1);
            }
            if let Some(tier) = env.storage.tier(ids[i]) {
                total =
                match total.checked_add(tier.minted as u64) {
                    Some(sum) => sum,
                    None => return Err(Failure::Abort(Abort::ArithmeticOverflow)),
                };
            }
            i = i + 1;
        }
        assert(ids@.take(ids@.len() as int) == ids@);
        Ok(total)
    }

    /// Up to `limit` of the creator's tiers, from the one at `offset` on,
    /// counted from zero. A page holds up to twenty tiers; beyond the end of
    /// the list it is empty.
    pub fn get_creator_tiers_page(env: &Env, creator: Address, offset: u32, limit: u32) -> (result:
        Result<Vec<u32>, Failure>)
        ensures
            match result {
                Ok(list) => {
                    &&& page_refusal(env@, creator, offset, limit) is None
                    &&& list@ == page(tiers_of(env@, creator), offset as int, limit as int)
                },
                Err(reason) => page_refusal(env@, creator, offset, limit) == Some(reason),
            },
    {
        if limit > MAX_PAGE_LIMIT {
            return Err(Failure::Abort(Abort::LimitTooLarge));
        }
        let all: Vec<u32> = Self::get_creator_tiers(env, creator);
        let mut list: Vec<u32> = Vec::new();
        let start: usize = offset as usize;
        if start >= all.len() {
            return Ok(list);
        }
        let mut end: usize = match offset.checked_add(limit) {
            Some(end) => end as usize,
            None => return Err(Failure::Abort(Abort::ArithmeticOverflow)),
        };
        if end > all.len() {
            end = all.len();
        }
        let mut i: usize = start;
        while i < end
            invariant
                start <= i <= end <= all@.len(),
                list@ == all@.subrange(start as int, i as int),
            decreases end - i,
        {
            list.push(all[i]);
            i = i + 1;
        }
        Ok(list)
    }
}

} // verus!
