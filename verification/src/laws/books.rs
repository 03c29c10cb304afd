//! The books of one creator, which every call keeps, setting the contract up again
//! too.

use vstd::prelude::*;

use crate::address::Address;
use crate::calls::Call;
use crate::earnings::{due_now, recorded_earnings};
use crate::env::EnvView;
use crate::order::{earnings_of, in_order, lemma_sum_same, sum_of};
use crate::pricing::value_or;
use crate::storage::StorageView;
use crate::table::lookup;
use crate::types::EarningKey;

verus! {

/// The books of a creator are in order: the creator's earnings are numbered from
/// zero without gaps and sum to what the creator has earned. One who has not
/// registered has neither earnings nor a balance.
pub open spec fn books_in_order(s: StorageView, creator: Address) -> bool {
    let count = value_or(lookup(s.earning_counts, creator), 0);
    &&& forall|key: EarningKey|
        key.creator == creator ==> (#[trigger] s.earnings.contains_key(key) <==> key.earning_id
            < count)
    &&& if s.creators.contains_key(creator) {
        s.creators[creator].total_earned == sum_of(earnings_of(s, creator))
    } else {
        count == 0 && value_or(lookup(s.creator_balances, creator), 0) == 0
    }
}

/// Where all entries are in order, so are the books of every creator.
pub proof fn law_order_includes_the_books(s: StorageView, creator: Address)
    requires
        in_order(s),
    ensures
        books_in_order(s, creator),
{
    if !s.creators.contains_key(creator) {
        assert(!s.earning_counts.contains_key(creator));
        assert(!s.creator_balances.contains_key(creator));
    }
}

/// Without entries the books of every creator are in order.
pub proof fn law_fresh_books_are_in_order(creator: Address)
    ensures
        books_in_order(StorageView::empty(), creator),
{
}

/// Books stay in order where the creator has the same earnings, but for being
/// released, and the same total.
proof fn lemma_books_stay(s: StorageView, t: StorageView, creator: Address)
    requires
        books_in_order(s, creator),
        lookup(t.earning_counts, creator) == lookup(s.earning_counts, creator),
        forall|key: EarningKey|
            key.creator == creator ==> (#[trigger] t.earnings.contains_key(key)
                == s.earnings.contains_key(key)) && (s.earnings.contains_key(key)
                ==> t.earnings[key].amount == s.earnings[key].amount),
        t.creators.contains_key(creator) == s.creators.contains_key(creator),
        s.creators.contains_key(creator) ==> t.creators[creator].total_earned
            == s.creators[creator].total_earned,
        !s.creators.contains_key(creator) ==> value_or(lookup(t.creator_balances, creator), 0)
            == 0,
    ensures
        books_in_order(t, creator),
{
    assert forall|key: EarningKey|
        key.creator == creator implies #[trigger] s.earnings.contains_key(key)
        == t.earnings.contains_key(key) && (s.earnings.contains_key(key)
        ==> s.earnings[key].amount == t.earnings[key].amount) by {
        assert(t.earnings.contains_key(key) == s.earnings.contains_key(key));
    }
    lemma_sum_same(
        s.earnings,
        t.earnings,
        creator,
        value_or(lookup(s.earning_counts, creator), 0) as nat,
    );
}

/// Books stay in order where a payment is recorded as one more earning and added to
/// the creator's total.
proof fn lemma_books_after_payment(s: StorageView, t: StorageView, creator: Address, amount: i128)
    requires
        books_in_order(s, creator),
        s.creators.contains_key(creator),
        t.creators.contains_key(creator),
        t.creators[creator].total_earned == s.creators[creator].total_earned + amount,
        ({
            let count = value_or(lookup(s.earning_counts, creator), 0);
            let key = EarningKey { creator, earning_id: count };
            &&& count < u64::MAX
            &&& lookup(t.earning_counts, creator) == Some((count + 1) as u64)
            &&& t.earnings == s.earnings.insert(key, t.earnings[key])
            &&& t.earnings[key].amount == amount
        }),
    ensures
        books_in_order(t, creator),
{
    let count = value_or(lookup(s.earning_counts, creator), 0);
    let key = EarningKey { creator, earning_id: count };
    let before = recorded_earnings(t.earnings, creator, count as nat);
    lemma_sum_same(s.earnings, t.earnings, creator, count as nat);
    assert(t.earnings.contains_key(key));
    assert(earnings_of(t, creator) == before.push(t.earnings[key]));
    assert(before.push(t.earnings[key]).drop_last() == before);
    assert forall|other: EarningKey| other.creator == creator implies (
    #[trigger] t.earnings.contains_key(other) <==> other.earning_id < count + 1) by {
        assert(t.earnings.contains_key(other) == (other == key || s.earnings.contains_key(other)));
    }
}

/// Every call keeps the books of a creator in order.
pub proof fn law_calls_keep_books_in_order(env: EnvView, call: Call, creator: Address)
    requires
        books_in_order(env.state, creator),
    ensures
        books_in_order(call.outcome(env).state, creator),
{
    let s = env.state;
    let t = call.outcome(env).state;
    let key = EarningKey {
        creator,
        earning_id: value_or(lookup(s.earning_counts, creator), 0),
    };
    if call.refusal(env) is None {
        match call {
            Call::RegisterCreator { creator: registering } => {
                if registering == creator {
                    assert(earnings_of(t, creator).len() == 0);
                } else {
                    lemma_books_stay(s, t, creator);
                }
            },
            Call::MintPass { tier_id, .. } => {
                if s.tiers[tier_id].creator == creator {
                    lemma_books_after_payment(s, t, creator, t.earnings[key].amount);
                } else {
                    lemma_books_stay(s, t, creator);
                }
            },
            Call::RenewPass { pass_id, .. } => {
                if s.tiers[s.passes[pass_id].tier_id].creator == creator {
                    lemma_books_after_payment(s, t, creator, t.earnings[key].amount);
                } else {
                    lemma_books_stay(s, t, creator);
                }
            },
            Call::Withdraw { .. } => {
                lemma_books_stay(s, t, creator);
            },
            Call::ProcessUnlockedEarnings { creator: releasing } => {
                if releasing == creator && !s.creators.contains_key(creator) {
                    assert(due_now(env, creator).len() == 0);
                }
                lemma_books_stay(s, t, creator);
            },
            Call::ApproveEarlyRelease { creator: approving, earning_id } => {
                assert(s.earnings.contains_key(EarningKey { creator: approving, earning_id }));
                lemma_books_stay(s, t, creator);
            },
            _ => {
                lemma_books_stay(s, t, creator);
            },
        }
    }
}

} // verus!
