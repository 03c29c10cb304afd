//! Releases and withdrawals, condition by condition and field by field.

use vstd::prelude::*;

use crate::address::Address;
use crate::earnings::{
    amount_of, approval_refusal, approved, balance_of, due_now, proposal_refusal, proposed,
    release_refusal, released, withdrawal_refusal, withdrawn,
};
use crate::effect::{Effect, Event};
use crate::env::EnvView;
use crate::failure::{Abort, Error, Failure};
use crate::laws::terms::law_due_is_unreleased_and_unlocked;
use crate::passes::next_earning_id;
use crate::storage::StorageView;
use crate::types::{DataKey, EarningKey, PendingEarning};

verus! {

// ------------------------------------------------------------
// Processing
// ------------------------------------------------------------

/// Processing is refused to nobody, as long as the earnings that are due can be
/// counted in 32 bits and the balance fits after each of them.
pub proof fn law_processing_goes_through_if_it_fits(env: EnvView, creator: Address)
    ensures
        ({
            let due = due_now(env, creator);
            let refusal = release_refusal(env, creator);
            let fits = forall|k: int|
                0 <= k <= due.len() ==> i128::MIN <= balance_of(env, creator)
                    + #[trigger] amount_of(env.state.earnings, creator, due.take(k)) <= i128::MAX;
            &&& refusal is None <==> due.len() <= 0xffff_ffff && fits
            &&& refusal is Some ==> refusal == Some(Failure::Abort(Abort::ArithmeticOverflow))
        }),
{
}

/// Processing marks as released exactly the creator's earnings that are unreleased
/// and whose unlocking has passed. All else about every earning stays.
pub proof fn law_processing_releases_what_is_unlocked(
    env: EnvView,
    creator: Address,
    key: EarningKey,
)
    requires
        env.state.earnings.contains_key(key),
    ensures
        ({
            let before = env.state.earnings[key];
            let after = released(env, creator, due_now(env, creator)).state.earnings;
            let unlocked = key.creator == creator && key.earning_id < next_earning_id(env, creator)
                && !before.released && before.unlocks_at < env.now;
            &&& after.dom() == env.state.earnings.dom()
            &&& after[key].released <==> before.released || unlocked
            &&& after[key] == (PendingEarning { released: after[key].released, ..before })
        }),
{
    law_due_is_unreleased_and_unlocked(env, creator, key.earning_id);
    let after = released(env, creator, due_now(env, creator)).state.earnings;
    assert(after.dom() =~= env.state.earnings.dom());
}

/// Processing adds the amounts of what it releases to the balance, and changes
/// nothing else. Nobody signs, no tokens move, and each release is published, in
/// order.
pub proof fn law_processing_credits_what_it_releases(env: EnvView, creator: Address, i: int)
    requires
        release_refusal(env, creator) is None,
        0 <= i < due_now(env, creator).len(),
    ensures
        ({
            let due = due_now(env, creator);
            let total = amount_of(env.state.earnings, creator, due);
            let earning = env.state.earnings[EarningKey { creator, earning_id: due[i] }];
            let after = released(env, creator, due);
            let old_effects = env.effects.len() as int;
            let old_writes = env.state.writes.len() as int;
            &&& after.now == env.now && after.contract == env.contract
            &&& after.state == (StorageView {
                earnings: after.state.earnings,
                creator_balances: after.state.creator_balances,
                writes: after.state.writes,
                ..env.state
            })
            &&& after.state.creator_balances == env.state.creator_balances.insert(
                creator,
                after.state.creator_balances[creator],
            )
            &&& env.state.creator_balances.contains_key(creator)
                ==> after.state.creator_balances[creator] == env.state.creator_balances[creator]
                + total
            &&& !env.state.creator_balances.contains_key(creator)
                ==> after.state.creator_balances[creator] == total
            &&& after.effects.len() == old_effects + due.len()
            &&& after.effects.take(old_effects) == env.effects
            &&& after.effects[old_effects + i] == Effect::Publish(
                Event::EarningReleased {
                    creator,
                    earning_id: earning.earning_id,
                    amount: earning.amount,
                    timestamp: env.now,
                },
            )
            &&& after.state.writes.len() == old_writes + 2 * due.len()
            &&& after.state.writes.take(old_writes) == env.state.writes
            &&& after.state.writes[old_writes + 2 * i] == DataKey::PendingEarning(creator, due[i])
            &&& after.state.writes[old_writes + 2 * i + 1] == DataKey::CreatorBalance(creator)
        }),
{
    let due = due_now(env, creator);
    let after = released(env, creator, due);
    assert(due.take(due.len() as int) == due);
    assert(i128::MIN <= balance_of(env, creator) + amount_of(
        env.state.earnings,
        creator,
        due.take(due.len() as int),
    ) <= i128::MAX);
    assert(after.effects.take(env.effects.len() as int) =~= env.effects);
    assert(after.state.writes.take(env.state.writes.len() as int) =~= env.state.writes);
    assert((2 * i) % 2 == 0 && (2 * i) / 2 == i && (2 * i + 1) % 2 == 1);
}

/// Processing with nothing due changes nothing and asks for nothing.
pub proof fn law_processing_nothing_changes_nothing(env: EnvView, creator: Address)
    requires
        due_now(env, creator).len() == 0,
    ensures
        released(env, creator, due_now(env, creator)) == env,
{
    let due = due_now(env, creator);
    let after = released(env, creator, due);
    assert(after.state.earnings =~= env.state.earnings);
    assert(after.effects =~= env.effects);
    assert(after.state.writes =~= env.state.writes);
}

// ------------------------------------------------------------
// Early release
// ------------------------------------------------------------

/// The admin can propose the early release of any earning that is on record and not
/// released, unless a proposal with its number is open. Each reason for a refusal
/// comes exactly if its condition is the first that fails.
pub proof fn law_admin_can_propose_early_release(
    env: EnvView,
    admin: Address,
    creator: Address,
    earning_id: u64,
)
    ensures
        ({
            let refusal = proposal_refusal(env, admin, creator, earning_id);
            let key = EarningKey { creator, earning_id };
            let entitled = env.state.admin == Some(admin);
            let found = entitled && env.state.earnings.contains_key(key);
            let pending = found && !env.state.earnings[key].released;
            let open = env.state.proposals.contains_key(earning_id);
            &&& refusal is None <==> pending && !open
            &&& refusal == Some(Failure::Abort(Abort::NotInitialized)) <==> env.state.admin is None
            &&& refusal == Some(Failure::Abort(Abort::NotAuthorized)) <==> env.state.admin is Some
                && !entitled
            &&& refusal == Some(Failure::Error(Error::EarningNotFound)) <==> entitled && !found
            &&& refusal == Some(Failure::Error(Error::EarningAlreadyReleased)) <==> found
                && !pending
            &&& refusal == Some(Failure::Error(Error::ProposalAlreadyExists)) <==> pending && open
        }),
{
}

/// A proposal is on record with who made it, to whom, for which earning and when;
/// nothing else changes. The admin signs, and it is published.
pub proof fn law_proposal_is_recorded_as_made(
    env: EnvView,
    admin: Address,
    creator: Address,
    earning_id: u64,
)
    ensures
        ({
            let after = proposed(env, admin, creator, earning_id);
            let proposal = after.state.proposals[earning_id];
            &&& after.now == env.now && after.contract == env.contract
            &&& after.state == (StorageView {
                proposals: after.state.proposals,
                writes: after.state.writes,
                ..env.state
            })
            &&& after.state.proposals == env.state.proposals.insert(earning_id, proposal)
            &&& proposal.admin == admin
            &&& proposal.creator == creator
            &&& proposal.earning_id == earning_id
            &&& proposal.proposed_at == env.now
            &&& after.state.writes == env.state.writes.push(
                DataKey::EarlyReleaseProposal(earning_id),
            )
            &&& after.effects == env.effects.push(Effect::RequireAuth(admin)).push(
                Effect::Publish(
                    Event::EarlyReleaseProposed { admin, creator, earning_id, timestamp: env.now },
                ),
            )
        }),
{
}

/// A creator can approve a proposal made to them for an earning that is on record
/// and not released, locked or not, if the balance then fits. Each reason for a
/// refusal comes exactly if its condition is the first that fails.
pub proof fn law_creator_can_approve_early_release(
    env: EnvView,
    creator: Address,
    earning_id: u64,
)
    ensures
        ({
            let refusal = approval_refusal(env, creator, earning_id);
            let key = EarningKey { creator, earning_id };
            let open = env.state.proposals.contains_key(earning_id);
            let addressed = open && env.state.proposals[earning_id].creator == creator;
            let found = addressed && env.state.earnings.contains_key(key);
            let pending = found && !env.state.earnings[key].released;
            let balance = if env.state.creator_balances.contains_key(creator) {
                env.state.creator_balances[creator] + env.state.earnings[key].amount
            } else {
                env.state.earnings[key].amount as int
            };
            let fits = i128::MIN <= balance <= i128::MAX;
            &&& refusal is None <==> pending && fits
            &&& refusal == Some(Failure::Error(Error::NoProposalFound)) <==> !open
            &&& refusal == Some(Failure::Error(Error::UnauthorizedApproval)) <==> open
                && !addressed
            &&& refusal == Some(Failure::Error(Error::EarningNotFound)) <==> addressed && !found
            &&& refusal == Some(Failure::Error(Error::EarningAlreadyReleased)) <==> found
                && !pending
            &&& refusal == Some(Failure::Abort(Abort::ArithmeticOverflow)) <==> pending && !fits
        }),
{
}

/// An approval releases the earning, adds exactly its amount to the balance and
/// closes the proposal; nothing else changes. The creator signs, and it is
/// published.
pub proof fn law_approval_releases_the_earning(
    env: EnvView,
    creator: Address,
    earning_id: u64,
    other: u64,
)
    requires
        approval_refusal(env, creator, earning_id) is None,
        other != earning_id,
    ensures
        ({
            let key = EarningKey { creator, earning_id };
            let before = env.state.earnings[key];
            let after = approved(env, creator, earning_id);
            let earning = after.state.earnings[key];
            let balance = after.state.creator_balances[creator];
            &&& after.now == env.now && after.contract == env.contract
            &&& after.state == (StorageView {
                earnings: after.state.earnings,
                creator_balances: after.state.creator_balances,
                proposals: after.state.proposals,
                writes: after.state.writes,
                ..env.state
            })
            &&& after.state.earnings == env.state.earnings.insert(key, earning)
            &&& earning.released
            &&& earning == (PendingEarning { released: earning.released, ..before })
            &&& after.state.creator_balances == env.state.creator_balances.insert(creator, balance)
            &&& env.state.creator_balances.contains_key(creator) ==> balance
                == env.state.creator_balances[creator] + before.amount
            &&& !env.state.creator_balances.contains_key(creator) ==> balance == before.amount
            &&& !after.state.proposals.contains_key(earning_id)
            &&& after.state.proposals.contains_key(other) == env.state.proposals.contains_key(other)
            &&& after.state.proposals[other] == env.state.proposals[other]
            &&& after.state.writes == env.state.writes.push(
                DataKey::PendingEarning(creator, earning_id),
            ).push(DataKey::CreatorBalance(creator)).push(DataKey::EarlyReleaseProposal(earning_id))
            &&& after.effects == env.effects.push(Effect::RequireAuth(creator)).push(
                Effect::Publish(
                    Event::EarlyReleaseExecuted {
                        admin: env.state.proposals[earning_id].admin,
                        creator,
                        earning_id,
                        amount: before.amount,
                        timestamp: env.now,
                    },
                ),
            )
        }),
{
}

// ------------------------------------------------------------
// Withdrawal
// ------------------------------------------------------------

/// A creator can withdraw any positive balance that reaches the least withdrawal, a
/// million where none is on record, once the payment token is set. Each reason for
/// a refusal comes exactly if its condition is the first that fails.
pub proof fn law_creator_can_withdraw_a_sufficient_balance(env: EnvView, creator: Address)
    ensures
        ({
            let refusal = withdrawal_refusal(env, creator);
            let balance = if env.state.creator_balances.contains_key(creator) {
                env.state.creator_balances[creator]
            } else {
                0
            };
            let least = match env.state.min_withdrawal {
                Some(least) => least,
                None => 1_000_000,
            };
            &&& refusal is None <==> balance > 0 && balance >= least && env.state.token is Some
            &&& refusal == Some(Failure::Abort(Abort::NoBalance)) <==> balance <= 0
            &&& refusal == Some(Failure::Abort(Abort::BelowMinWithdrawal)) <==> 0 < balance < least
            &&& refusal == Some(Failure::Abort(Abort::TokenNotSet)) <==> balance > 0 && balance
                >= least && env.state.token is None
        }),
{
}

/// A withdrawal sends the whole balance in the payment token from the contract to
/// the creator and leaves none; nothing else changes. The creator signs, and it is
/// published.
pub proof fn law_withdrawal_sends_the_whole_balance(env: EnvView, creator: Address)
    requires
        withdrawal_refusal(env, creator) is None,
    ensures
        ({
            let after = withdrawn(env, creator);
            let amount = env.state.creator_balances[creator];
            &&& env.state.creator_balances.contains_key(creator)
            &&& after.now == env.now && after.contract == env.contract
            &&& after.state == (StorageView {
                creator_balances: after.state.creator_balances,
                writes: after.state.writes,
                ..env.state
            })
            &&& after.state.creator_balances == env.state.creator_balances.insert(creator, 0)
            &&& after.state.writes == env.state.writes.push(DataKey::CreatorBalance(creator))
            &&& after.effects == env.effects.push(Effect::RequireAuth(creator)).push(
                Effect::Transfer {
                    token: env.state.token->0,
                    from: env.contract,
                    to: creator,
                    amount,
                },
            ).push(Effect::Publish(Event::CreatorWithdrew { creator, amount }))
        }),
{
}

} // verus!
