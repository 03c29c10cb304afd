//! Escrow: releasing earnings, early or in time, and withdrawing them.

use vstd::prelude::*;

use crate::address::Address;
use crate::admin::{admin_refusal, check_admin};
use crate::contract::StarPassContract;
use crate::effect::{Effect, Event};
use crate::env::{settles, Env, EnvView};
use crate::failure::{abort, error, Abort, Error, Failure};
use crate::passes::next_earning_id;
use crate::pricing::{fits_i128, value_or};
use crate::storage::StorageView;
use crate::table::lookup;
use crate::types::{DataKey, EarlyReleaseProposal, EarningKey, PendingEarning};

verus! {

/// The least balance that can be withdrawn where no threshold is on record.
pub const DEFAULT_MIN_WITHDRAWAL: i128 = 1_000_000;

/// What `creator` can withdraw.
pub open spec fn balance_of(env: EnvView, creator: Address) -> i128 {
    value_or(lookup(env.state.creator_balances, creator), 0)
}

/// The least balance that can be withdrawn.
pub open spec fn min_withdrawal_in_force(env: EnvView) -> i128 {
    value_or(env.state.min_withdrawal, DEFAULT_MIN_WITHDRAWAL)
}

// ------------------------------------------------------------
// Release in time
// ------------------------------------------------------------

/// Which of the first `count` earnings of `creator` are due at `now`.
pub open spec fn due_ids(
    earnings: Map<EarningKey, PendingEarning>,
    creator: Address,
    now: u64,
    count: nat,
) -> Seq<u64>
    decreases count,
{
    if count == 0 {
        Seq::empty()
    } else {
        let earning_id = (count - 1) as u64;
        let key = EarningKey { creator, earning_id };
        let before = due_ids(earnings, creator, now, (count - 1) as nat);
        if earnings.contains_key(key) && earnings[key].due(now) {
            before.push(earning_id)
        } else {
            before
        }
    }
}

/// The sum of the amounts of some earnings of `creator`.
pub open spec fn amount_of(
    earnings: Map<EarningKey, PendingEarning>,
    creator: Address,
    ids: Seq<u64>,
) -> int
    decreases ids.len(),
{
    if ids.len() == 0 {
        0
    } else {
        amount_of(earnings, creator, ids.drop_last()) + earnings[EarningKey {
            creator,
            earning_id: ids.last(),
        }].amount
    }
}

/// The earnings of `creator` that a release at this moment concerns.
pub open spec fn due_now(env: EnvView, creator: Address) -> Seq<u64> {
    due_ids(env.state.earnings, creator, env.now, next_earning_id(env, creator) as nat)
}

/// Why the due earnings of `creator` cannot be released: they are more than a
/// `u32` counts, or the balance leaves its range on the way.
pub open spec fn release_refusal(env: EnvView, creator: Address) -> Option<Failure> {
    let ids = due_now(env, creator);
    if ids.len() > u32::MAX || exists|k: int|
        0 <= k <= ids.len() && !fits_i128(
            balance_of(env, creator) + #[trigger] amount_of(
                env.state.earnings,
                creator,
                ids.take(k),
            ),
        ) {
        abort(Abort::ArithmeticOverflow)
    } else {
        None
    }
}

/// Earnings with those of `creator` under the given numbers marked as released.
pub open spec fn marked_released(
    earnings: Map<EarningKey, PendingEarning>,
    creator: Address,
    ids: Seq<u64>,
) -> Map<EarningKey, PendingEarning> {
    Map::new(
        |key: EarningKey| earnings.contains_key(key),
        |key: EarningKey|
            if key.creator == creator && ids.contains(key.earning_id) {
                PendingEarning { released: true, ..earnings[key] }
            } else {
                earnings[key]
            },
    )
}

/// The ledger with the given earnings of `creator` released: marked, added to
/// the creator's balance, and announced one by one.
pub open spec fn released(env: EnvView, creator: Address, ids: Seq<u64>) -> EnvView {
    let balance = balance_of(env, creator) + amount_of(env.state.earnings, creator, ids);
    EnvView {
        state: StorageView {
            earnings: marked_released(env.state.earnings, creator, ids),
            creator_balances: if ids.len() == 0 {
                env.state.creator_balances
            } else {
                env.state.creator_balances.insert(creator, balance as i128)
            },
            writes: env.state.writes + Seq::new(
                2 * ids.len(),
                |i: int|
                    if i % 2 == 0 {
                        DataKey::PendingEarning(creator, ids[i / 2])
                    } else {
                        DataKey::CreatorBalance(creator)
                    },
            ),
            ..env.state
        },
        effects: env.effects + ids.map_values(
            |id: u64|
                {
                    let earning = env.state.earnings[EarningKey { creator, earning_id: id }];
                    Effect::Publish(
                        Event::EarningReleased {
                            creator,
                            earning_id: earning.earning_id,
                            amount: earning.amount,
                            timestamp: env.now,
                        },
                    )
                },
        ),
        ..env
    }
}

/// Due earnings are on record, due, below the count, and listed in rising order.
pub proof fn lemma_due_ids(
    earnings: Map<EarningKey, PendingEarning>,
    creator: Address,
    now: u64,
    count: nat,
)
    requires
        count <= u64::MAX,
    ensures
        forall|i: int|
            0 <= i < due_ids(earnings, creator, now, count).len() ==> {
                let id = #[trigger] due_ids(earnings, creator, now, count)[i];
                let key = EarningKey { creator, earning_id: id };
                id < count && earnings.contains_key(key) && earnings[key].due(now)
            },
        forall|i: int, j: int|
            0 <= i < j < due_ids(earnings, creator, now, count).len() ==> #[trigger] due_ids(
                earnings,
                creator,
                now,
                count,
            )[i] < #[trigger] due_ids(earnings, creator, now, count)[j],
    decreases count,
{
    if count > 0 {
        lemma_due_ids(earnings, creator, now, (count - 1) as nat);
    }
}

/// Every due earning below the count is listed.
pub proof fn lemma_due_ids_complete(
    earnings: Map<EarningKey, PendingEarning>,
    creator: Address,
    now: u64,
    count: nat,
    id: u64,
)
    requires
        count <= u64::MAX,
        id < count,
        earnings.contains_key(EarningKey { creator, earning_id: id }),
        earnings[EarningKey { creator, earning_id: id }].due(now),
    ensures
        due_ids(earnings, creator, now, count).contains(id),
    decreases count,
{
    let ids = due_ids(earnings, creator, now, count);
    if id == count - 1 {
        assert(ids.last() == id);
        assert(ids[ids.len() - 1] == id);
    } else {
        lemma_due_ids_complete(earnings, creator, now, (count - 1) as nat, id);
        let before = due_ids(earnings, creator, now, (count - 1) as nat);
        let i = choose|i: int| 0 <= i < before.len() && before[i] == id;
        assert(ids[i] == id);
    }
}

/// The due earnings below a smaller count come first.
proof fn lemma_due_ids_prefix(
    earnings: Map<EarningKey, PendingEarning>,
    creator: Address,
    now: u64,
    smaller: nat,
    count: nat,
)
    requires
        smaller <= count,
    ensures
        due_ids(earnings, creator, now, smaller).len() <= due_ids(
            earnings,
            creator,
            now,
            count,
        ).len(),
        due_ids(earnings, creator, now, count).take(
            due_ids(earnings, creator, now, smaller).len() as int,
        ) == due_ids(earnings, creator, now, smaller),
    decreases count,
{
    let first = due_ids(earnings, creator, now, smaller);
    if smaller < count {
        lemma_due_ids_prefix(earnings, creator, now, smaller, (count - 1) as nat);
        let before = due_ids(earnings, creator, now, (count - 1) as nat);
        assert(due_ids(earnings, creator, now, count).take(first.len() as int) == before.take(
            first.len() as int,
        ));
    } else {
        assert(first.take(first.len() as int) == first);
    }
}

/// Releasing one more earning.
proof fn lemma_released_step(env: EnvView, creator: Address, ids: Seq<u64>, k: int)
    requires
        0 <= k < ids.len(),
        forall|i: int, j: int| 0 <= i < j < ids.len() ==> ids[i] < ids[j],
        env.state.earnings.contains_key(EarningKey { creator, earning_id: ids[k] }),
    ensures
        ({
            let before = released(env, creator, ids.take(k));
            let after = released(env, creator, ids.take(k + 1));
            let key = EarningKey { creator, earning_id: ids[k] };
            let earning = env.state.earnings[key];
            let balance = balance_of(env, creator) + amount_of(
                env.state.earnings,
                creator,
                ids.take(k + 1),
            );
            &&& before.state.earnings.contains_key(key)
            &&& before.state.earnings[key] == earning
            &&& amount_of(env.state.earnings, creator, ids.take(k + 1)) == amount_of(
                env.state.earnings,
                creator,
                ids.take(k),
            ) + earning.amount
            &&& after == (EnvView {
                state: StorageView {
                    earnings: before.state.earnings.insert(
                        key,
                        PendingEarning { released: true, ..earning },
                    ),
                    creator_balances: before.state.creator_balances.insert(creator, balance as i128),
                    writes: before.state.writes.push(
                        DataKey::PendingEarning(creator, ids[k]),
                    ).push(DataKey::CreatorBalance(creator)),
                    ..before.state
                },
                effects: before.effects.push(
                    Effect::Publish(
                        Event::EarningReleased {
                            creator,
                            earning_id: earning.earning_id,
                            amount: earning.amount,
                            timestamp: env.now,
                        },
                    ),
                ),
                ..before
            })
        }),
{
    let before = released(env, creator, ids.take(k));
    let after = released(env, creator, ids.take(k + 1));
    let key = EarningKey { creator, earning_id: ids[k] };
    let earning = env.state.earnings[key];
    assert(ids.take(k + 1).drop_last() == ids.take(k));
    assert(!ids.take(k).contains(ids[k]));
    let marked = before.state.earnings.insert(key, PendingEarning { released: true, ..earning });
    assert(after.state.earnings =~= marked) by {
        assert forall|other: EarningKey| #[trigger] marked.contains_key(other) implies marked[other]
            == after.state.earnings[other] by {
            if other.creator == creator {
                if ids.take(k).contains(other.earning_id) {
                    let i = choose|i: int| 0 <= i < k && ids.take(k)[i] == other.earning_id;
                    assert(ids.take(k + 1)[i] == other.earning_id);
                }
                if other.earning_id == ids[k] {
                    assert(ids.take(k + 1)[k] == ids[k]);
                } else if ids.take(k + 1).contains(other.earning_id) {
                    let longer = ids.take(k + 1);
                    let i = choose|i: int| 0 <= i < longer.len() && longer[i] == other.earning_id;
                    assert(ids.take(k)[i] == other.earning_id);
                }
            }
        }
    }
    assert(after.state.creator_balances =~= before.state.creator_balances.insert(
        creator,
        (balance_of(env, creator) + amount_of(
            env.state.earnings,
            creator,
            ids.take(k + 1),
        )) as i128,
    ));
    assert(after.state.writes =~= before.state.writes.push(
        DataKey::PendingEarning(creator, ids[k]),
    ).push(DataKey::CreatorBalance(creator)));
    assert(after.effects =~= before.effects.push(
        Effect::Publish(
            Event::EarningReleased {
                creator,
                earning_id: earning.earning_id,
                amount: earning.amount,
                timestamp: env.now,
            },
        ),
    ));
}

// ------------------------------------------------------------
// Early release
// ------------------------------------------------------------

/// Why no early release of an earning can be proposed: only the admin can
/// propose one, for an earning that is still held, once per earning number.
pub open spec fn proposal_refusal(
    env: EnvView,
    admin: Address,
    creator: Address,
    earning_id: u64,
) -> Option<Failure> {
    let key = EarningKey { creator, earning_id };
    match admin_refusal(env, admin) {
        Some(reason) => Some(reason),
        None => if !env.state.earnings.contains_key(key) {
            error(Error::EarningNotFound)
        } else if env.state.earnings[key].released {
            error(Error::EarningAlreadyReleased)
        } else if env.state.proposals.contains_key(earning_id) {
            error(Error::ProposalAlreadyExists)
        } else {
            None
        },
    }
}

/// The ledger with an early release proposed.
pub open spec fn proposed(
    env: EnvView,
    admin: Address,
    creator: Address,
    earning_id: u64,
) -> EnvView {
    EnvView {
        state: StorageView {
            proposals: env.state.proposals.insert(
                earning_id,
                EarlyReleaseProposal { admin, creator, earning_id, proposed_at: env.now },
            ),
            writes: env.state.writes.push(DataKey::EarlyReleaseProposal(earning_id)),
            ..env.state
        },
        effects: env.effects + seq![
            Effect::RequireAuth(admin),
            Effect::Publish(
                Event::EarlyReleaseProposed { admin, creator, earning_id, timestamp: env.now },
            ),
        ],
        ..env
    }
}

/// Why a creator cannot approve the early release of an earning.
pub open spec fn approval_refusal(env: EnvView, creator: Address, earning_id: u64) -> Option<
    Failure,
> {
    let key = EarningKey { creator, earning_id };
    if !env.state.proposals.contains_key(earning_id) {
        error(Error::NoProposalFound)
    } else if env.state.proposals[earning_id].creator != creator {
        error(Error::UnauthorizedApproval)
    } else if !env.state.earnings.contains_key(key) {
        error(Error::EarningNotFound)
    } else if env.state.earnings[key].released {
        error(Error::EarningAlreadyReleased)
    } else if !fits_i128(balance_of(env, creator) + env.state.earnings[key].amount) {
        abort(Abort::ArithmeticOverflow)
    } else {
        None
    }
}

/// The ledger with an early release approved: the earning is released to the
/// creator's balance, and the proposal is gone.
pub open spec fn approved(env: EnvView, creator: Address, earning_id: u64) -> EnvView {
    let key = EarningKey { creator, earning_id };
    let earning = env.state.earnings[key];
    EnvView {
        state: StorageView {
            earnings: env.state.earnings.insert(
                key,
                PendingEarning { released: true, ..earning },
            ),
            creator_balances: env.state.creator_balances.insert(
                creator,
                (balance_of(env, creator) + earning.amount) as i128,
            ),
            proposals: env.state.proposals.remove(earning_id),
            writes: env.state.writes + seq![
                DataKey::PendingEarning(creator, earning_id),
                DataKey::CreatorBalance(creator),
                DataKey::EarlyReleaseProposal(earning_id),
            ],
            ..env.state
        },
        effects: env.effects + seq![
            Effect::RequireAuth(creator),
            Effect::Publish(
                Event::EarlyReleaseExecuted {
                    admin: env.state.proposals[earning_id].admin,
                    creator,
                    earning_id,
                    amount: earning.amount,
                    timestamp: env.now,
                },
            ),
        ],
        ..env
    }
}

// ------------------------------------------------------------
// Withdrawal
// ------------------------------------------------------------

/// Why a creator cannot withdraw.
pub open spec fn withdrawal_refusal(env: EnvView, creator: Address) -> Option<Failure> {
    let balance = balance_of(env, creator);
    if balance <= 0 {
        abort(Abort::NoBalance)
    } else if balance < min_withdrawal_in_force(env) {
        abort(Abort::BelowMinWithdrawal)
    } else if env.state.token is None {
        abort(Abort::TokenNotSet)
    } else {
        None
    }
}

/// The ledger after a creator has withdrawn: the whole balance is paid out.
pub open spec fn withdrawn(env: EnvView, creator: Address) -> EnvView {
    let balance = balance_of(env, creator);
    EnvView {
        state: StorageView {
            creator_balances: env.state.creator_balances.insert(creator, 0),
            writes: env.state.writes.push(DataKey::CreatorBalance(creator)),
            ..env.state
        },
        effects: env.effects + seq![
            Effect::RequireAuth(creator),
            Effect::Transfer {
                token: env.state.token->0,
                from: env.contract,
                to: creator,
                amount: balance,
            },
            Effect::Publish(Event::CreatorWithdrew { creator, amount: balance }),
        ],
        ..env
    }
}

// ------------------------------------------------------------
// The record of earnings
// ------------------------------------------------------------

/// The first `count` earnings of `creator`, as far as they are on record.
pub open spec fn recorded_earnings(
    earnings: Map<EarningKey, PendingEarning>,
    creator: Address,
    count: nat,
) -> Seq<PendingEarning>
    decreases count,
{
    if count == 0 {
        Seq::empty()
    } else {
        let key = EarningKey { creator, earning_id: (count - 1) as u64 };
        let before = recorded_earnings(earnings, creator, (count - 1) as nat);
        if earnings.contains_key(key) {
            before.push(earnings[key])
        } else {
            before
        }
    }
}

impl StarPassContract {
    /// Finds the due earnings of `creator` and checks that they can be added to
    /// the balance.
    fn check_release(env: &Env, creator: Address) -> (found: Result<Vec<u64>, Failure>)
        ensures
            match found {
                Ok(ids) => {
                    &&& release_refusal(env@, creator) is None
                    &&& ids@ == due_now(env@, creator)
                },
                Err(reason) => release_refusal(env@, creator) == Some(reason),
            },
    {
        let count: u64 = match env.storage.earning_count(creator) {
            Some(count) => count,
            None => 0,
        };
        let now: u64 = env.timestamp;
        let mut balance: i128 = match env.storage.creator_balance(creator) {
            Some(balance) => balance,
            None => 0,
        };
        let ghost earnings = env@.state.earnings;
        let ghost all = due_now(env@, creator);
        let ghost start = balance as int;
        let mut ids: Vec<u64> = Vec::new();
        assert(amount_of(earnings, creator, Seq::<u64>::empty()) == 0);
        assert(Seq::<u64>::empty().take(0) == Seq::<u64>::empty());
        let mut id: u64 = 0;
        while id < count
            invariant
                id <= count,
                count == next_earning_id(env@, creator),
                now == env@.now,
                start == balance_of(env@, creator),
                earnings == env@.state.earnings,
                all == due_now(env@, creator),
                ids@ == due_ids(earnings, creator, now, id as nat),
                ids@.len() <= u32::MAX,
                balance == start + amount_of(earnings, creator, ids@),
                forall|k: int|
                    0 <= k <= ids@.len() ==> fits_i128(
                        start + #[trigger] amount_of(earnings, creator, ids@.take(k)),
                    ),
            decreases count - id,
        {
            if let Some(earning) = env.storage.earning(creator, id) {
                if !earning.released && now > earning.unlocks_at {
                    let ghost before = ids@;
                    proof {
                        lemma_due_ids_prefix(
                            earnings,
                            creator,
                            now,
                            (id + 1) as nat,
                            count as nat,
                        );
                        assert(before.push(id).drop_last() == before);
                        assert(all.take(before.len() as int + 1) == before.push(id));
                        assert(amount_of(earnings, creator, all.take(before.len() as int + 1))
                            == amount_of(earnings, creator, before) + earning.amount);
                    }
                    balance =
                    match balance.checked_add(earning.amount) {
                        Some(sum) => sum,
                        None => return Err(Failure::Abort(Abort::ArithmeticOverflow)),
                    };
                    if ids.len() as u64 == u32::MAX as u64 {
                        return Err(Failure::Abort(Abort::ArithmeticOverflow));
                    }
                    ids.push(id);
                    assert forall|k: int| 0 <= k <= ids@.len() implies fits_i128(
                        start + #[trigger] amount_of(earnings, creator, ids@.take(k)),
                    ) by {
                        if k < ids@.len() {
                            assert(ids@.take(k) == before.take(k));
                        } else {
                            assert(ids@.take(k) == ids@);
                        }
                    }
                }
            }
            id = id + 1;
        }
        Ok(ids)
    }

    /// Moves every due earning of `creator` to the withdrawable balance. Anyone
    /// can call this. Returns how many earnings were released.
    pub fn process_unlocked_earnings(env: &mut Env, creator: Address) -> (result: Result<
        u32,
        Failure,
    >)
        ensures
            settles(
                release_refusal(old(env)@, creator),
                due_now(old(env)@, creator).len() as u32,
                released(old(env)@, creator, due_now(old(env)@, creator)),
                old(env)@,
                result,
                final(env)@,
            ),
    {
        let ids: Vec<u64> = match Self::check_release(env, creator) {
            Ok(ids) => ids,
            Err(reason) => return Err(reason),
        };
        let now: u64 = env.timestamp;
        let ghost origin = env@;
        let ghost earnings = env@.state.earnings;
        let mut balance: i128 = match env.storage.creator_balance(creator) {
            Some(balance) => balance,
            None => 0,
        };
        proof {
            lemma_due_ids(earnings, creator, now, next_earning_id(origin, creator) as nat);
            assert(ids@.take(0) == Seq::<u64>::empty());
            assert(marked_released(earnings, creator, ids@.take(0)) =~= earnings);
            assert(env@ =~= released(origin, creator, ids@.take(0)));
            assert(amount_of(earnings, creator, ids@.take(0)) == 0);
        }
        let mut k: usize = 0;
        while k < ids.len()
            invariant
                k <= ids@.len(),
                origin == old(env)@,
                earnings == origin.state.earnings,
                now == origin.now,
                ids@ == due_now(origin, creator),
                release_refusal(origin, creator) is None,
                forall|i: int| #![trigger ids@[i]]
                    0 <= i < ids@.len() ==> earnings.contains_key(
                        EarningKey { creator, earning_id: ids@[i] },
                    ),
                forall|i: int, j: int| 0 <= i < j < ids@.len() ==> ids@[i] < ids@[j],
                env@ == released(origin, creator, ids@.take(k as int)),
                balance == balance_of(origin, creator) + amount_of(
                    earnings,
                    creator,
                    ids@.take(k as int),
                ),
            decreases ids@.len() - k,
        {
            let id: u64 = ids[k];
            proof {
                lemma_released_step(origin, creator, ids@, k as int);
                assert(fits_i128(
                    balance_of(origin, creator) + amount_of(
                        earnings,
                        creator,
                        ids@.take(k + 1),
                    ),
                ));
            }
            if let Some(mut earning) = env.storage.earning(creator, id) {
                earning.released = true;
                balance = balance + earning.amount;
                env.storage.set_earning(creator, id, earning);
                env.storage.set_creator_balance(creator, balance);
                env.publish(
                    Event::EarningReleased {
                        creator,
                        earning_id: earning.earning_id,
                        amount: earning.amount,
                        timestamp: now,
                    },
                );
            }
            k = k + 1;
            assert(env@ =~= released(origin, creator, ids@.take(k as int)));
        }
        assert(ids@.take(ids@.len() as int) == ids@);
        Ok(ids.len() as u32)
    }

    /// The admin proposes to release an earning of `creator` before it unlocks.
    /// The admin signs; the creator has to approve.
    pub fn propose_early_release(
        env: &mut Env,
        admin: Address,
        creator: Address,
        earning_id: u64,
    ) -> (result: Result<(), Failure>)
        ensures
            settles(
                proposal_refusal(old(env)@, admin, creator, earning_id),
                (),
                proposed(old(env)@, admin, creator, earning_id),
                old(env)@,
                result,
                final(env)@,
            ),
    {
        if let Err(reason) = check_admin(env, admin) {
            return Err(reason);
        }
        let earning = match env.storage.earning(creator, earning_id) {
            Some(earning) => earning,
            None => return Err(Failure::Error(Error::EarningNotFound)),
        };
        if earning.released {
            return Err(Failure::Error(Error::EarningAlreadyReleased));
        }
        if env.storage.proposal(earning_id).is_some() {
            return Err(Failure::Error(Error::ProposalAlreadyExists));
        }
        let now: u64 = env.timestamp;
        env.require_auth(admin);
        env.storage.set_proposal(
            earning_id,
            EarlyReleaseProposal { admin, creator, earning_id, proposed_at: now },
        );
        env.publish(Event::EarlyReleaseProposed { admin, creator, earning_id, timestamp: now });
        assert(env@ =~= proposed(old(env)@, admin, creator, earning_id));
        Ok(())
    }

    /// A creator approves the admin's proposal for one of the creator's
    /// earnings, which is released at once. The creator signs.
    pub fn approve_early_release(env: &mut Env, creator: Address, earning_id: u64) -> (result:
        Result<(), Failure>)
        ensures
            settles(
                approval_refusal(old(env)@, creator, earning_id),
                (),
                approved(old(env)@, creator, earning_id),
                old(env)@,
                result,
                final(env)@,
            ),
    {
        let proposal = match env.storage.proposal(earning_id) {
            Some(proposal) => proposal,
            None => return Err(Failure::Error(Error::NoProposalFound)),
        };
        if proposal.creator != creator {
            return Err(Failure::Error(Error::UnauthorizedApproval));
        }
        let mut earning = match env.storage.earning(creator, earning_id) {
            Some(earning) => earning,
            None => return Err(Failure::Error(Error::EarningNotFound)),
        };
        if earning.released {
            return Err(Failure::Error(Error::EarningAlreadyReleased));
        }
        let balance: i128 = match env.storage.creator_balance(creator) {
            Some(balance) => balance,
            None => 0,
        };
        let raised: i128 = match balance.checked_add(earning.amount) {
            Some(raised) => raised,
            None => return Err(Failure::Abort(Abort::ArithmeticOverflow)),
        };
        let amount: i128 = earning.amount;
        let now: u64 = env.timestamp;
        earning.released = true;

        env.require_auth(creator);
        env.storage.set_earning(creator, earning_id, earning);
        env.storage.set_creator_balance(creator, raised);
        env.storage.remove_proposal(earning_id);
        env.publish(
            Event::EarlyReleaseExecuted {
                admin: proposal.admin,
                creator,
                earning_id,
                amount,
                timestamp: now,
            },
        );
        assert(env@ =~= approved(old(env)@, creator, earning_id));
        Ok(())
    }

    /// Pays the whole balance of `creator` out to the creator, who signs.
    pub fn withdraw(env: &mut Env, creator: Address) -> (result: Result<(), Failure>)
        ensures
            settles(
                withdrawal_refusal(old(env)@, creator),
                (),
                withdrawn(old(env)@, creator),
                old(env)@,
                result,
                final(env)@,
            ),
    {
        let balance: i128 = match env.storage.creator_balance(creator) {
            Some(balance) => balance,
            None => 0,
        };
        if balance <= 0 {
            return Err(Failure::Abort(Abort::NoBalance));
        }
        if balance < Self::get_min_withdrawal(env) {
            return Err(Failure::Abort(Abort::BelowMinWithdrawal));
        }
        let token = match env.storage.token() {
            Some(token) => token,
            None => return Err(Failure::Abort(Abort::TokenNotSet)),
        };
        env.require_auth(creator);
        env.transfer(token, env.contract, creator, balance);
        env.storage.set_creator_balance(creator, 0);
        env.publish(Event::CreatorWithdrew { creator, amount: balance });
        assert(env@ =~= withdrawn(old(env)@, creator));
        Ok(())
    }

    /// The least balance that can be withdrawn.
    pub fn get_min_withdrawal(env: &Env) -> (least: i128)
        ensures
            least == min_withdrawal_in_force(env@),
    {
        match env.storage.min_withdrawal() {
            Some(least) => least,
            None => DEFAULT_MIN_WITHDRAWAL,
        }
    }

    /// All earnings of `creator`, released ones too, in the order in which they
    /// were made.
    pub fn get_pending_earnings(env: &Env, creator: Address) -> (list: Vec<PendingEarning>)
        ensures
            list@ == recorded_earnings(
                env@.state.earnings,
                creator,
                next_earning_id(env@, creator) as nat,
            ),
    {
        let count: u64 = match env.storage.earning_count(creator) {
            Some(count) => count,
            None => 0,
        };
        let mut list: Vec<PendingEarning> = Vec::new();
        let mut id: u64 = 0;
        while id < count
            invariant
                id <= count,
                list@ == recorded_earnings(env@.state.earnings, creator, id as nat),
            decreases count - id,
        {
            if let Some(earning) = env.storage.earning(creator, id) {
                list.push(earning);
            }
            id = id + 1;
        }
        list
    }
}

} // verus!
