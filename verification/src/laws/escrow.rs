//! Money: what creators are owed, and how it is released and paid out.

use vstd::prelude::*;

use crate::address::Address;
use crate::calls::Call;
use crate::earnings::{
    amount_of, approval_refusal, approved, balance_of, due_ids, due_now, lemma_due_ids,
    lemma_due_ids_complete, marked_released, proposal_refusal, proposed, recorded_earnings,
    release_refusal, released, withdrawal_refusal, withdrawn,
};
use crate::effect::Effect;
use crate::env::EnvView;
use crate::failure::{abort, Abort};
use crate::laws::books::{books_in_order, law_order_includes_the_books};
use crate::order::{
    earnings_of, in_order, lemma_amount_not_negative, pass_in_order, sum_of, tier_in_order,
};
use crate::passes::{
    fee_in_force, mint_refusal, minted, new_earning, next_earning_id, renew_refusal, renewed,
};
use crate::pricing::{
    creator_amount, fits_i128, law_parts_make_up_the_price, lemma_payment_not_negative,
    price_amount, protocol_fee, value_or, Quote,
};
use crate::types::{EarningKey, PendingEarning};

verus! {

/// The sum of the first `count` earnings of `creator` that are still held.
pub open spec fn unreleased(
    earnings: Map<EarningKey, PendingEarning>,
    creator: Address,
    count: nat,
) -> int
    decreases count,
{
    if count == 0 {
        0
    } else {
        let key = EarningKey { creator, earning_id: (count - 1) as u64 };
        let before = unreleased(earnings, creator, (count - 1) as nat);
        if earnings.contains_key(key) && !earnings[key].released {
            before + earnings[key].amount
        } else {
            before
        }
    }
}

/// What the contract owes a creator: the balance and what is in escrow.
pub open spec fn owed(env: EnvView, creator: Address) -> int {
    balance_of(env, creator) + unreleased(
        env.state.earnings,
        creator,
        next_earning_id(env, creator) as nat,
    )
}

/// What a creator has earned so far.
pub open spec fn earned(env: EnvView, creator: Address) -> int {
    if env.state.creators.contains_key(creator) {
        env.state.creators[creator].total_earned as int
    } else {
        0
    }
}

/// What a creator has been paid so far: what was earned and is no longer owed.
pub open spec fn paid_out(env: EnvView, creator: Address) -> int {
    earned(env, creator) - owed(env, creator)
}

/// The sum of those among some earnings that have been released.
pub open spec fn released_sum_of(list: Seq<PendingEarning>) -> int
    decreases list.len(),
{
    if list.len() == 0 {
        0
    } else {
        released_sum_of(list.drop_last()) + (if list.last().released {
            list.last().amount as int
        } else {
            0
        })
    }
}

/// Earnings on record are released or held.
proof fn lemma_released_or_held(
    earnings: Map<EarningKey, PendingEarning>,
    creator: Address,
    count: nat,
)
    ensures
        sum_of(recorded_earnings(earnings, creator, count)) == released_sum_of(
            recorded_earnings(earnings, creator, count),
        ) + unreleased(earnings, creator, count),
    decreases count,
{
    if count > 0 {
        let key = EarningKey { creator, earning_id: (count - 1) as u64 };
        let before = recorded_earnings(earnings, creator, (count - 1) as nat);
        lemma_released_or_held(earnings, creator, (count - 1) as nat);
        assert(before.push(earnings[key]).drop_last() == before);
    }
}

/// The books of a creator balance: the earnings on record sum to what was earned,
/// and those of them that have been released to what can be withdrawn and what has
/// been paid out.
pub proof fn law_books_balance(env: EnvView, creator: Address)
    requires
        books_in_order(env.state, creator),
    ensures
        sum_of(earnings_of(env.state, creator)) == earned(env, creator),
        released_sum_of(earnings_of(env.state, creator)) == balance_of(env, creator) + paid_out(
            env,
            creator,
        ),
{
    lemma_released_or_held(
        env.state.earnings,
        creator,
        next_earning_id(env, creator) as nat,
    );
}

/// Escrow that two tables have in common sums to the same.
proof fn lemma_unreleased_same(
    earnings: Map<EarningKey, PendingEarning>,
    others: Map<EarningKey, PendingEarning>,
    creator: Address,
    count: nat,
)
    requires
        count <= u64::MAX,
        forall|key: EarningKey|
            key.creator == creator && key.earning_id < count ==> #[trigger] earnings.contains_key(key)
                == others.contains_key(key) && (earnings.contains_key(key) ==> earnings[key]
                == others[key]),
    ensures
        unreleased(earnings, creator, count) == unreleased(others, creator, count),
    decreases count,
{
    if count > 0 {
        lemma_unreleased_same(earnings, others, creator, (count - 1) as nat);
        let key = EarningKey { creator, earning_id: (count - 1) as u64 };
        assert(earnings.contains_key(key) == others.contains_key(key));
    }
}

/// Releasing one held earning takes its amount out of escrow.
proof fn lemma_unreleased_one_less(
    earnings: Map<EarningKey, PendingEarning>,
    creator: Address,
    count: nat,
    id: u64,
)
    requires
        count <= u64::MAX,
        id < count,
        earnings.contains_key(EarningKey { creator, earning_id: id }),
        !earnings[EarningKey { creator, earning_id: id }].released,
    ensures
        ({
            let key = EarningKey { creator, earning_id: id };
            unreleased(
                earnings.insert(key, PendingEarning { released: true, ..earnings[key] }),
                creator,
                count,
            ) == unreleased(earnings, creator, count) - earnings[key].amount
        }),
    decreases count,
{
    let key = EarningKey { creator, earning_id: id };
    let after = earnings.insert(key, PendingEarning { released: true, ..earnings[key] });
    if id == count - 1 {
        lemma_unreleased_same(earnings, after, creator, (count - 1) as nat);
    } else {
        lemma_unreleased_one_less(earnings, creator, (count - 1) as nat, id);
    }
}

/// Releasing what is due takes its sum out of escrow.
proof fn lemma_unreleased_after_release(
    earnings: Map<EarningKey, PendingEarning>,
    creator: Address,
    now: u64,
    ids: Seq<u64>,
    count: nat,
)
    requires
        count <= u64::MAX,
        forall|id: u64|
            id < count ==> {
                let key = EarningKey { creator, earning_id: id };
                #[trigger] ids.contains(id) <==> earnings.contains_key(key) && earnings[key].due(now)
            },
    ensures
        unreleased(marked_released(earnings, creator, ids), creator, count) == unreleased(
            earnings,
            creator,
            count,
        ) - amount_of(earnings, creator, due_ids(earnings, creator, now, count)),
    decreases count,
{
    if count > 0 {
        let before = due_ids(earnings, creator, now, (count - 1) as nat);
        let id = (count - 1) as u64;
        lemma_unreleased_after_release(earnings, creator, now, ids, (count - 1) as nat);
        assert(before.push(id).drop_last() == before);
        assert(ids.contains(id) || !ids.contains(id));
    }
}

/// What is listed as due is what is due.
proof fn lemma_due_now(env: EnvView, creator: Address)
    ensures
        forall|id: u64|
            id < next_earning_id(env, creator) ==> {
                let key = EarningKey { creator, earning_id: id };
                #[trigger] due_now(env, creator).contains(id) <==> env.state.earnings.contains_key(
                    key,
                ) && env.state.earnings[key].due(env.now)
            },
{
    let count = next_earning_id(env, creator) as nat;
    let ids = due_now(env, creator);
    lemma_due_ids(env.state.earnings, creator, env.now, count);
    assert forall|id: u64| id < count implies ({
        let key = EarningKey { creator, earning_id: id };
        #[trigger] ids.contains(id) <==> env.state.earnings.contains_key(key)
            && env.state.earnings[key].due(env.now)
    }) by {
        let key = EarningKey { creator, earning_id: id };
        if env.state.earnings.contains_key(key) && env.state.earnings[key].due(env.now) {
            lemma_due_ids_complete(env.state.earnings, creator, env.now, count, id);
        }
        if ids.contains(id) {
            let i = choose|i: int| 0 <= i < ids.len() && ids[i] == id;
            assert(ids[i] == id);
        }
    }
}

/// Selling or renewing a pass puts the payee's part of the payment into escrow, and
/// changes what no other creator is owed.
proof fn lemma_escrowed(
    env: EnvView,
    after: EnvView,
    payee: Address,
    token: Address,
    amount: i128,
    creator: Address,
)
    requires
        books_in_order(env.state, creator),
        next_earning_id(env, payee) < u64::MAX,
        after.state.creator_balances == env.state.creator_balances,
        after.state.earning_counts == env.state.earning_counts.insert(
            payee,
            (next_earning_id(env, payee) + 1) as u64,
        ),
        after.state.earnings == env.state.earnings.insert(
            EarningKey { creator: payee, earning_id: next_earning_id(env, payee) },
            new_earning(env, payee, token, amount),
        ),
    ensures
        owed(after, creator) == owed(env, creator) + (if creator == payee {
            amount as int
        } else {
            0
        }),
{
    let count = next_earning_id(env, creator);
    assert(!env.state.earnings.contains_key(EarningKey { creator, earning_id: count }));
    lemma_unreleased_same(env.state.earnings, after.state.earnings, creator, count as nat);
}

/// A creator is paid out by the creator's own withdrawal, which pays the whole
/// balance, and by no other call. So what has been earned is at any time either
/// paid out, withdrawable or in escrow.
pub proof fn law_only_withdrawal_pays_out(env: EnvView, call: Call, creator: Address)
    requires
        books_in_order(env.state, creator),
    ensures
        paid_out(call.outcome(env), creator) == paid_out(env, creator) + (if call
            == (Call::Withdraw { creator }) && call.refusal(env) is None {
            balance_of(env, creator) as int
        } else {
            0
        }),
{
    let s = env.state;
    let after = call.outcome(env);
    let count = next_earning_id(env, creator) as nat;
    if call.refusal(env) is None {
        match call {
            Call::MintPass { fan, tier_id, permissions, quote } => {
                let tier = s.tiers[tier_id];
                let amount = price_amount(env, tier.price, quote)->Ok_0;
                lemma_escrowed(
                    env,
                    after,
                    tier.creator,
                    s.token->0,
                    creator_amount(amount as int, fee_in_force(env)) as i128,
                    creator,
                );
            },
            Call::RenewPass { fan, pass_id, quote } => {
                let tier = s.tiers[s.passes[pass_id].tier_id];
                let amount = price_amount(env, tier.price, quote)->Ok_0;
                lemma_escrowed(
                    env,
                    after,
                    tier.creator,
                    s.token->0,
                    creator_amount(amount as int, fee_in_force(env)) as i128,
                    creator,
                );
            },
            Call::ProcessUnlockedEarnings { creator: releasing } => {
                let ids = due_now(env, releasing);
                lemma_due_now(env, releasing);
                if releasing == creator {
                    lemma_unreleased_after_release(s.earnings, creator, env.now, ids, count);
                    assert(ids.take(ids.len() as int) == ids);
                    assert(fits_i128(
                        balance_of(env, creator) + amount_of(
                            s.earnings,
                            creator,
                            ids.take(ids.len() as int),
                        ),
                    ));
                    if ids.len() == 0 {
                        assert(amount_of(s.earnings, creator, ids) == 0);
                    }
                } else {
                    lemma_unreleased_same(s.earnings, after.state.earnings, creator, count);
                }
            },
            Call::ApproveEarlyRelease { creator: approving, earning_id } => {
                if approving == creator {
                    assert(s.earnings.contains_key(EarningKey { creator, earning_id }));
                    lemma_unreleased_one_less(s.earnings, creator, count, earning_id);
                } else {
                    lemma_unreleased_same(s.earnings, after.state.earnings, creator, count);
                }
            },
            _ => {},
        }
    }
}

/// Neither what a creator can withdraw nor what a creator is owed is ever
/// negative.
pub proof fn law_claims_are_not_negative(env: EnvView, creator: Address)
    requires
        in_order(env.state),
    ensures
        owed(env, creator) >= 0,
        balance_of(env, creator) >= 0,
{
    lemma_unreleased_not_negative(env, creator, next_earning_id(env, creator) as nat);
}

/// Escrow is not negative.
proof fn lemma_unreleased_not_negative(env: EnvView, creator: Address, count: nat)
    requires
        in_order(env.state),
    ensures
        unreleased(env.state.earnings, creator, count) >= 0,
    decreases count,
{
    if count > 0 {
        lemma_unreleased_not_negative(env, creator, (count - 1) as nat);
        let key = EarningKey { creator, earning_id: (count - 1) as u64 };
        assert(env.state.earnings.contains_key(key) ==> env.state.earnings[key].amount >= 0);
    }
}

/// A sold pass is paid for in full: the price is asked of the fan, the creator is
/// owed the price less the protocol fee, has earned as much more, and no other
/// creator is owed more or less than before.
pub proof fn law_sale_books_the_payment(
    env: EnvView,
    fan: Address,
    tier_id: u32,
    permissions: Seq<Seq<char>>,
    quote: Option<Quote>,
    other: Address,
)
    requires
        in_order(env.state),
        mint_refusal(env, tier_id, permissions, quote) is None,
        other != env.state.tiers[tier_id].creator,
    ensures
        ({
            let after = minted(env, fan, tier_id, permissions, quote);
            let creator = env.state.tiers[tier_id].creator;
            let price = price_amount(env, env.state.tiers[tier_id].price, quote)->Ok_0;
            let fee = protocol_fee(price as int, fee_in_force(env));
            &&& after.effects.contains(
                Effect::Transfer {
                    token: env.state.token->0,
                    from: fan,
                    to: env.contract,
                    amount: price,
                },
            )
            &&& owed(after, creator) == owed(env, creator) + price - fee
            &&& earned(after, creator) == earned(env, creator) + price - fee
            &&& balance_of(after, creator) == balance_of(env, creator)
            &&& owed(after, other) == owed(env, other)
            &&& earned(after, other) == earned(env, other)
        }),
{
    let s = env.state;
    let after = minted(env, fan, tier_id, permissions, quote);
    let tier = s.tiers[tier_id];
    let price = price_amount(env, tier.price, quote)->Ok_0;
    assert(tier_in_order(s, tier_id));
    let part = creator_amount(price as int, fee_in_force(env)) as i128;
    law_order_includes_the_books(s, tier.creator);
    law_order_includes_the_books(s, other);
    lemma_escrowed(env, after, tier.creator, s.token->0, part, tier.creator);
    lemma_escrowed(env, after, tier.creator, s.token->0, part, other);
    assert(after.effects[env.effects.len() as int + 1] == Effect::Transfer {
        token: s.token->0,
        from: fan,
        to: env.contract,
        amount: price,
    });
}

/// A renewed pass is paid for as a sold one is.
pub proof fn law_renewal_books_the_payment(
    env: EnvView,
    fan: Address,
    pass_id: u64,
    quote: Option<Quote>,
    other: Address,
)
    requires
        in_order(env.state),
        renew_refusal(env, fan, pass_id, quote) is None,
        other != env.state.passes[pass_id].creator,
    ensures
        ({
            let after = renewed(env, fan, pass_id, quote);
            let pass = env.state.passes[pass_id];
            let creator = pass.creator;
            let price = price_amount(env, env.state.tiers[pass.tier_id].price, quote)->Ok_0;
            let fee = protocol_fee(price as int, fee_in_force(env));
            &&& after.effects.contains(
                Effect::Transfer {
                    token: env.state.token->0,
                    from: fan,
                    to: env.contract,
                    amount: price,
                },
            )
            &&& owed(after, creator) == owed(env, creator) + price - fee
            &&& earned(after, creator) == earned(env, creator) + price - fee
            &&& balance_of(after, creator) == balance_of(env, creator)
            &&& owed(after, other) == owed(env, other)
            &&& earned(after, other) == earned(env, other)
        }),
{
    let s = env.state;
    let after = renewed(env, fan, pass_id, quote);
    let tier = s.tiers[s.passes[pass_id].tier_id];
    let price = price_amount(env, tier.price, quote)->Ok_0;
    assert(pass_in_order(s, pass_id));
    assert(tier_in_order(s, s.passes[pass_id].tier_id));
    let part = creator_amount(price as int, fee_in_force(env)) as i128;
    law_order_includes_the_books(s, tier.creator);
    law_order_includes_the_books(s, other);
    lemma_escrowed(env, after, tier.creator, s.token->0, part, tier.creator);
    lemma_escrowed(env, after, tier.creator, s.token->0, part, other);
    assert(after.effects[env.effects.len() as int + 1] == Effect::Transfer {
        token: s.token->0,
        from: fan,
        to: env.contract,
        amount: price,
    });
}

/// The creator's part of a sale is locked for the lock period: it is a new
/// earning that is not due until that time has passed.
pub proof fn law_sale_is_locked_for_the_lock_period(
    env: EnvView,
    fan: Address,
    tier_id: u32,
    permissions: Seq<Seq<char>>,
    quote: Option<Quote>,
    later: u64,
)
    requires
        books_in_order(env.state, env.state.tiers[tier_id].creator),
        mint_refusal(env, tier_id, permissions, quote) is None,
        later <= env.now + value_or(env.state.lock_period_seconds, 0),
    ensures
        ({
            let creator = env.state.tiers[tier_id].creator;
            let key = EarningKey { creator, earning_id: next_earning_id(env, creator) };
            let after = minted(env, fan, tier_id, permissions, quote);
            &&& !env.state.earnings.contains_key(key)
            &&& after.state.earnings.contains_key(key)
            &&& !after.state.earnings[key].released
            &&& !after.state.earnings[key].due(later)
        }),
{
}

/// The creator's part of a renewal is locked in the same way.
pub proof fn law_renewal_is_locked_for_the_lock_period(
    env: EnvView,
    fan: Address,
    pass_id: u64,
    quote: Option<Quote>,
    later: u64,
)
    requires
        books_in_order(
            env.state,
            env.state.tiers[env.state.passes[pass_id].tier_id].creator,
        ),
        renew_refusal(env, fan, pass_id, quote) is None,
        later <= env.now + value_or(env.state.lock_period_seconds, 0),
    ensures
        ({
            let creator = env.state.tiers[env.state.passes[pass_id].tier_id].creator;
            let key = EarningKey { creator, earning_id: next_earning_id(env, creator) };
            let after = renewed(env, fan, pass_id, quote);
            &&& !env.state.earnings.contains_key(key)
            &&& after.state.earnings.contains_key(key)
            &&& !after.state.earnings[key].released
            &&& !after.state.earnings[key].due(later)
        }),
{
}

/// No earning is lost or altered: it stays on record as it is, but for being
/// marked once as released.
pub proof fn law_earnings_are_permanent(env: EnvView, call: Call, key: EarningKey)
    requires
        books_in_order(env.state, key.creator),
        env.state.earnings.contains_key(key),
    ensures
        call.outcome(env).state.earnings.contains_key(key),
        call.outcome(env).state.earnings[key] == (PendingEarning {
            released: call.outcome(env).state.earnings[key].released,
            ..env.state.earnings[key]
        }),
        env.state.earnings[key].released ==> call.outcome(env).state.earnings[key].released,
{
}

/// The record of a creator's earnings is complete: it lists every earning, released
/// or not, by number.
pub proof fn law_record_of_earnings_is_complete(env: EnvView, creator: Address, id: u64)
    requires
        in_order(env.state),
        id < next_earning_id(env, creator),
    ensures
        ({
            let count = next_earning_id(env, creator) as nat;
            let record = recorded_earnings(env.state.earnings, creator, count);
            &&& record.len() == count
            &&& record[id as int] == env.state.earnings[EarningKey { creator, earning_id: id }]
            &&& record[id as int].earning_id == id
            &&& record[id as int].creator == creator
        }),
{
    lemma_recorded_earnings(env, creator, next_earning_id(env, creator) as nat);
    let key = EarningKey { creator, earning_id: id };
    assert(env.state.earnings.contains_key(key));
}

/// The first earnings are all on record.
proof fn lemma_recorded_earnings(env: EnvView, creator: Address, count: nat)
    requires
        in_order(env.state),
        count <= next_earning_id(env, creator),
    ensures
        ({
            let record = recorded_earnings(env.state.earnings, creator, count);
            &&& record.len() == count
            &&& forall|i: int|
                0 <= i < count ==> #[trigger] record[i] == env.state.earnings[EarningKey {
                    creator,
                    earning_id: i as u64,
                }]
        }),
    decreases count,
{
    if count > 0 {
        lemma_recorded_earnings(env, creator, (count - 1) as nat);
        let key = EarningKey { creator, earning_id: (count - 1) as u64 };
        assert(env.state.earnings.contains_key(key));
    }
}

/// An earning is released in one of two ways: in time, when it is due, or early,
/// when its creator approves what the admin has proposed.
pub proof fn law_release_needs_time_or_both_parties(env: EnvView, call: Call, key: EarningKey)
    requires
        books_in_order(env.state, key.creator),
        env.state.earnings.contains_key(key),
        !env.state.earnings[key].released,
        call.outcome(env).state.earnings[key].released,
    ensures
        ({
            ||| call == (Call::ProcessUnlockedEarnings { creator: key.creator })
                && env.state.earnings[key].due(env.now)
            ||| call == (Call::ApproveEarlyRelease {
                creator: key.creator,
                earning_id: key.earning_id,
            }) && env.state.proposals.contains_key(key.earning_id)
                && env.state.proposals[key.earning_id].creator == key.creator
        }),
{
    if let Call::ProcessUnlockedEarnings { creator } = call {
        lemma_due_now(env, creator);
        assert(due_now(env, creator).contains(key.earning_id)
            || !due_now(env, creator).contains(key.earning_id));
    }
}

/// Early release is proposed by the admin alone, who signs for it.
pub proof fn law_proposals_come_from_the_admin(env: EnvView, call: Call, earning_id: u64)
    requires
        !env.state.proposals.contains_key(earning_id),
        call.outcome(env).state.proposals.contains_key(earning_id),
    ensures
        ({
            let proposal = call.outcome(env).state.proposals[earning_id];
            &&& env.state.admin == Some(proposal.admin)
            &&& call.signer(env) == Some(proposal.admin)
            &&& call == (Call::ProposeEarlyRelease {
                admin: proposal.admin,
                creator: proposal.creator,
                earning_id,
            })
        }),
{
}

/// Releasing what is due releases all of it: nothing is due right after, and
/// doing it again changes nothing.
pub proof fn law_processing_leaves_nothing_due(env: EnvView, creator: Address)
    requires
        release_refusal(env, creator) is None,
    ensures
        ({
            let after = released(env, creator, due_now(env, creator));
            &&& due_now(after, creator).len() == 0
            &&& release_refusal(after, creator) is None
            &&& released(after, creator, due_now(after, creator)) == after
        }),
{
    let ids = due_now(env, creator);
    let after = released(env, creator, ids);
    let again = due_now(after, creator);
    lemma_due_now(env, creator);
    lemma_due_now(after, creator);
    lemma_due_ids(after.state.earnings, creator, env.now, next_earning_id(env, creator) as nat);
    if again.len() > 0 {
        let id = again[0];
        assert(again.contains(id));
        assert(ids.contains(id) || !ids.contains(id));
        assert(false);
    }
    assert(again == Seq::<u64>::empty());
    assert forall|k: int| 0 <= k <= again.len() implies fits_i128(
        balance_of(after, creator) + #[trigger] amount_of(
            after.state.earnings,
            creator,
            again.take(k),
        ),
    ) by {
        assert(again.take(k).len() == 0);
    }
    assert(marked_released(after.state.earnings, creator, again) =~= after.state.earnings);
    assert(released(after, creator, again) =~= after);
}

/// Releasing in time moves what is due from escrow to the balance, all of it and
/// nothing else: what the creator is owed stays the same.
pub proof fn law_processing_moves_what_is_due(env: EnvView, creator: Address, id: u64)
    requires
        books_in_order(env.state, creator),
        release_refusal(env, creator) is None,
        env.state.earnings.contains_key(EarningKey { creator, earning_id: id }),
    ensures
        ({
            let key = EarningKey { creator, earning_id: id };
            let due = due_now(env, creator);
            let after = released(env, creator, due);
            &&& balance_of(after, creator) == balance_of(env, creator) + amount_of(
                env.state.earnings,
                creator,
                due,
            )
            &&& after.state.earnings[key].released == (env.state.earnings[key].released
                || env.state.earnings[key].due(env.now))
            &&& owed(after, creator) == owed(env, creator)
        }),
{
    let ids = due_now(env, creator);
    lemma_due_now(env, creator);
    assert(ids.contains(id) || !ids.contains(id));
    assert(ids.take(ids.len() as int) == ids);
    assert(fits_i128(
        balance_of(env, creator) + amount_of(
            env.state.earnings,
            creator,
            ids.take(ids.len() as int),
        ),
    ));
    if ids.len() == 0 {
        assert(amount_of(env.state.earnings, creator, ids) == 0);
    }
    law_only_withdrawal_pays_out(env, Call::ProcessUnlockedEarnings { creator }, creator);
}

/// Early release takes two steps: once the admin has proposed it, the creator's
/// approval moves the earning from escrow to the balance and uses the proposal
/// up, unless the balance cannot hold it.
pub proof fn law_early_release_takes_two_steps(
    env: EnvView,
    admin: Address,
    creator: Address,
    earning_id: u64,
    approved_at: u64,
)
    requires
        proposal_refusal(env, admin, creator, earning_id) is None,
        fits_i128(
            balance_of(env, creator) + env.state.earnings[EarningKey {
                creator,
                earning_id,
            }].amount,
        ),
    ensures
        ({
            let key = EarningKey { creator, earning_id };
            let before = EnvView {
                now: approved_at,
                ..proposed(env, admin, creator, earning_id)
            };
            let after = approved(before, creator, earning_id);
            &&& approval_refusal(before, creator, earning_id) is None
            &&& after.state.earnings[key].released
            &&& balance_of(after, creator) == balance_of(env, creator)
                + env.state.earnings[key].amount
            &&& !after.state.proposals.contains_key(earning_id)
            &&& approval_refusal(after, creator, earning_id) is Some
        }),
{
}

/// A withdrawal pays the whole balance to the creator and leaves nothing to
/// withdraw.
pub proof fn law_second_withdrawal_is_refused(env: EnvView, creator: Address)
    requires
        withdrawal_refusal(env, creator) is None,
    ensures
        withdrawn(env, creator).effects.contains(
            Effect::Transfer {
                token: env.state.token->0,
                from: env.contract,
                to: creator,
                amount: balance_of(env, creator),
            },
        ),
        balance_of(withdrawn(env, creator), creator) == 0,
        withdrawal_refusal(withdrawn(env, creator), creator) == abort(Abort::NoBalance),
{
    assert(withdrawn(env, creator).effects[env.effects.len() as int + 1] == Effect::Transfer {
        token: env.state.token->0,
        from: env.contract,
        to: creator,
        amount: balance_of(env, creator),
    });
}

/// A creator's balance shrinks by the creator's own withdrawal alone.
pub proof fn law_only_the_creator_withdraws(env: EnvView, call: Call, creator: Address)
    requires
        in_order(env.state),
        balance_of(call.outcome(env), creator) < balance_of(env, creator),
    ensures
        call == (Call::Withdraw { creator }),
        call.signer(env) == Some(creator),
{
    let s = env.state;
    match call {
        Call::RegisterCreator { creator: registering } => {
            if registering == creator && call.refusal(env) is None {
                assert(!s.creator_balances.contains_key(creator));
            }
        },
        Call::ProcessUnlockedEarnings { creator: releasing } => {
            if call.refusal(env) is None {
                let ids = due_now(env, releasing);
                lemma_due_ids(s.earnings, releasing, env.now, next_earning_id(env, releasing) as nat);
                lemma_amount_not_negative(s, releasing, ids);
                assert(ids.take(ids.len() as int) == ids);
                assert(fits_i128(
                    balance_of(env, releasing) + amount_of(
                        s.earnings,
                        releasing,
                        ids.take(ids.len() as int),
                    ),
                ));
            }
        },
        _ => {},
    }
}

// ------------------------------------------------------------
// Tokens
// ------------------------------------------------------------

/// What the contract's own holdings gain by some effects.
pub open spec fn net_inflow(effects: Seq<Effect>, contract: Address) -> int
    decreases effects.len(),
{
    if effects.len() == 0 {
        0
    } else {
        net_inflow(effects.drop_last(), contract) + match effects.last() {
            Effect::Transfer { from, to, amount, .. } => (if to == contract {
                amount as int
            } else {
                0
            }) - (if from == contract {
                amount as int
            } else {
                0
            }),
            _ => 0,
        }
    }
}

/// The effects that a call adds.
pub open spec fn asked(env: EnvView, call: Call) -> Seq<Effect> {
    call.outcome(env).effects.skip(env.effects.len() as int)
}

/// What a call adds to the protocol's fees that are still with the contract.
pub open spec fn fees_gained(env: EnvView, call: Call) -> int {
    if call.refusal(env) is Some {
        0
    } else {
        match call {
            Call::MintPass { tier_id, quote, .. } => protocol_fee(
                price_amount(env, env.state.tiers[tier_id].price, quote)->Ok_0 as int,
                fee_in_force(env),
            ),
            Call::RenewPass { pass_id, quote, .. } => protocol_fee(
                price_amount(
                    env,
                    env.state.tiers[env.state.passes[pass_id].tier_id].price,
                    quote,
                )->Ok_0 as int,
                fee_in_force(env),
            ),
            Call::WithdrawFees { amount, .. } => -amount,
            _ => 0,
        }
    }
}

/// The creator whose claims a call can change.
pub open spec fn claimant(env: EnvView, call: Call) -> Option<Address> {
    match call {
        Call::MintPass { tier_id, .. } => Some(env.state.tiers[tier_id].creator),
        Call::RenewPass { pass_id, .. } => Some(
            env.state.tiers[env.state.passes[pass_id].tier_id].creator,
        ),
        Call::Withdraw { creator } => Some(creator),
        _ => None,
    }
}

/// Effects without transfers do not change what the contract holds.
proof fn lemma_no_inflow(effects: Seq<Effect>, contract: Address)
    requires
        forall|i: int| 0 <= i < effects.len() ==> !(#[trigger] effects[i] is Transfer),
    ensures
        net_inflow(effects, contract) == 0,
    decreases effects.len(),
{
    if effects.len() > 0 {
        assert(!(effects[effects.len() - 1] is Transfer));
        assert forall|i: int| 0 <= i < effects.drop_last().len() implies !(
        #[trigger] effects.drop_last()[i] is Transfer) by {
            assert(effects.drop_last()[i] == effects[i]);
        }
        lemma_no_inflow(effects.drop_last(), contract);
    }
}

/// One transfer among effects without others.
proof fn lemma_one_inflow(effects: Seq<Effect>, contract: Address, at: int)
    requires
        0 <= at < effects.len(),
        effects[at] is Transfer,
        forall|i: int| 0 <= i < effects.len() && i != at ==> !(#[trigger] effects[i] is Transfer),
    ensures
        net_inflow(effects, contract) == (if effects[at]->to == contract {
            effects[at]->Transfer_amount as int
        } else {
            0
        }) - (if effects[at]->from == contract {
            effects[at]->Transfer_amount as int
        } else {
            0
        }),
    decreases effects.len(),
{
    let rest = effects.drop_last();
    assert forall|i: int| 0 <= i < rest.len() && i != at implies !(#[trigger] rest[i] is Transfer) by {
        assert(rest[i] == effects[i]);
    }
    if at == effects.len() - 1 {
        lemma_no_inflow(rest, contract);
    } else {
        assert(rest[at] == effects[at]);
        lemma_one_inflow(rest, contract, at);
        assert(!(effects[effects.len() - 1] is Transfer));
    }
}

/// A sale brings in its price.
proof fn lemma_sale_inflow(
    env: EnvView,
    fan: Address,
    tier_id: u32,
    permissions: Seq<Seq<char>>,
    quote: Option<Quote>,
    other: Address,
)
    requires
        in_order(env.state),
        mint_refusal(env, tier_id, permissions, quote) is None,
        fan != env.contract,
        other != env.state.tiers[tier_id].creator,
    ensures
        ({
            let call = Call::MintPass { fan, tier_id, permissions, quote };
            let creator = env.state.tiers[tier_id].creator;
            let after = minted(env, fan, tier_id, permissions, quote);
            &&& net_inflow(asked(env, call), env.contract) == fees_gained(env, call) + owed(
                after,
                creator,
            ) - owed(env, creator)
            &&& owed(after, other) == owed(env, other)
            &&& fees_gained(env, call) >= 0
        }),
{
    let call = Call::MintPass { fan, tier_id, permissions, quote };
    let effects = asked(env, call);
    let tier = env.state.tiers[tier_id];
    let price = price_amount(env, tier.price, quote)->Ok_0;
    assert(tier_in_order(env.state, tier_id));
    law_sale_books_the_payment(env, fan, tier_id, permissions, quote, other);
    lemma_payment_not_negative(env, tier.price, quote, price);
    law_parts_make_up_the_price(price, value_or(env.state.protocol_fee_bps, 0));
    assert(effects.len() == 4);
    assert(effects[1] == Effect::Transfer {
        token: env.state.token->0,
        from: fan,
        to: env.contract,
        amount: price,
    });
    lemma_one_inflow(effects, env.contract, 1);
}

/// A renewal brings in its price.
proof fn lemma_renewal_inflow(
    env: EnvView,
    fan: Address,
    pass_id: u64,
    quote: Option<Quote>,
    other: Address,
)
    requires
        in_order(env.state),
        renew_refusal(env, fan, pass_id, quote) is None,
        fan != env.contract,
        other != env.state.passes[pass_id].creator,
    ensures
        ({
            let call = Call::RenewPass { fan, pass_id, quote };
            let creator = env.state.passes[pass_id].creator;
            let after = renewed(env, fan, pass_id, quote);
            &&& net_inflow(asked(env, call), env.contract) == fees_gained(env, call) + owed(
                after,
                creator,
            ) - owed(env, creator)
            &&& owed(after, other) == owed(env, other)
            &&& fees_gained(env, call) >= 0
        }),
{
    let call = Call::RenewPass { fan, pass_id, quote };
    let effects = asked(env, call);
    let tier = env.state.tiers[env.state.passes[pass_id].tier_id];
    let price = price_amount(env, tier.price, quote)->Ok_0;
    assert(pass_in_order(env.state, pass_id));
    assert(tier_in_order(env.state, env.state.passes[pass_id].tier_id));
    law_renewal_books_the_payment(env, fan, pass_id, quote, other);
    lemma_payment_not_negative(env, tier.price, quote, price);
    law_parts_make_up_the_price(price, value_or(env.state.protocol_fee_bps, 0));
    assert(effects.len() == 4);
    assert(effects[1] == Effect::Transfer {
        token: env.state.token->0,
        from: fan,
        to: env.contract,
        amount: price,
    });
    lemma_one_inflow(effects, env.contract, 1);
}

/// Most calls ask for no transfer.
pub proof fn lemma_asks_no_transfer(env: EnvView, call: Call)
    requires
        call.refusal(env) is None,
        call !is MintPass,
        call !is RenewPass,
        call !is Withdraw,
        call !is WithdrawFees,
    ensures
        forall|i: int| 0 <= i < asked(env, call).len() ==> !(#[trigger] asked(env, call)[i] is Transfer),
{
    let effects = asked(env, call);
    if let Call::ProcessUnlockedEarnings { creator } = call {
        assert(effects.len() == due_now(env, creator).len());
        assert forall|i: int| 0 <= i < effects.len() implies !(#[trigger] effects[i] is Transfer) by {
            assert(effects[i] is Publish);
        }
    } else {
        assert(1 <= effects.len() <= 2);
        assert(effects[0] is RequireAuth);
        assert(effects.len() == 2 ==> !(effects[1] is Transfer));
    }
}

/// Only sales, renewals and withdrawals change what creators are owed.
proof fn lemma_claims_stay(env: EnvView, call: Call, other: Address)
    requires
        in_order(env.state),
        call !is MintPass,
        call !is RenewPass,
        call !is Withdraw,
    ensures
        owed(call.outcome(env), other) == owed(env, other),
{
    law_order_includes_the_books(env.state, other);
    law_only_withdrawal_pays_out(env, call, other);
    assert(earned(call.outcome(env), other) == earned(env, other));
}

/// What the contract's holdings gain by a call is what its claimant is owed more,
/// and fees. Only paying fees out can take more than the call's claimant gives
/// up; every other creator is owed the same as before. (The contract buys no
/// passes and withdraws nothing to itself. Set up once, it deals in one token.)
pub proof fn law_holdings_cover_claims(env: EnvView, call: Call, other: Address)
    requires
        in_order(env.state),
        call.signer(env) != Some(env.contract),
        call matches Call::WithdrawFees { recipient, .. } ==> recipient != env.contract,
        claimant(env, call) != Some(other),
    ensures
        net_inflow(asked(env, call), env.contract) == fees_gained(env, call) + match claimant(
            env,
            call,
        ) {
            Some(creator) => owed(call.outcome(env), creator) - owed(env, creator),
            None => 0,
        },
        owed(call.outcome(env), other) == owed(env, other),
        call !is WithdrawFees ==> fees_gained(env, call) >= 0,
{
    if call.refusal(env) is Some {
        lemma_no_inflow(asked(env, call), env.contract);
    } else {
        match call {
            Call::MintPass { fan, tier_id, permissions, quote } => {
                lemma_sale_inflow(env, fan, tier_id, permissions, quote, other);
            },
            Call::RenewPass { fan, pass_id, quote } => {
                assert(pass_in_order(env.state, pass_id));
                lemma_renewal_inflow(env, fan, pass_id, quote, other);
            },
            Call::Withdraw { creator } => {
                law_order_includes_the_books(env.state, creator);
                law_order_includes_the_books(env.state, other);
                law_only_withdrawal_pays_out(env, call, creator);
                law_only_withdrawal_pays_out(env, call, other);
                lemma_one_inflow(asked(env, call), env.contract, 1);
            },
            Call::WithdrawFees { .. } => {
                lemma_claims_stay(env, call, other);
                lemma_one_inflow(asked(env, call), env.contract, 1);
            },
            _ => {
                lemma_claims_stay(env, call, other);
                lemma_asks_no_transfer(env, call);
                lemma_no_inflow(asked(env, call), env.contract);
            },
        }
    }
}

} // verus!
