//! The words in which the contracts of calls are put, and what they mean.

use vstd::prelude::*;

use crate::address::{strkey, strkey_text, Address, Bytes32};
use crate::admin::{check_admin, version};
use crate::earnings::{
    amount_of, balance_of, due_now, lemma_due_ids, lemma_due_ids_complete, min_withdrawal_in_force,
    recorded_earnings,
};
use crate::env::{settles, Env, EnvView};
use crate::failure::{Abort, Failure};
use crate::passes::{
    answers, fee_in_force, later, next_earning_id, next_pass_id, passes_of, quote_request,
    saturating_sum,
};
use crate::permissions::{all_listed, covered, is_listed};
use crate::pricing::{
    creator_amount, fits_i128, price_amount, protocol_fee, quotient, resolve_price_amount, splits,
    value_or, OracleInterface, Quote,
};
use crate::queries::{minted_total, page, pass_usable, records_of, replies};
use crate::table::lookup;
use crate::tiers::{next_tier_id, tiers_of};
use crate::types::{
    texts, Creator, EarlyReleaseProposal, EarningKey, GrantKey, GrantView, Pass, PassView,
    PendingEarning, Symbol, Tier, TierPriceMode, TierView,
};

verus! {

// ------------------------------------------------------------
// How calls end
// ------------------------------------------------------------

/// A call that ends as its contract says has done one of two things: it was
/// refused, returned that reason and left the ledger alone, or it was not refused,
/// returned its value and left the ledger as described.
pub proof fn law_calls_end_in_one_of_two_ways<T>(
    refusal: Option<Failure>,
    value: T,
    applied: EnvView,
    before: EnvView,
    result: Result<T, Failure>,
    after: EnvView,
)
    requires
        settles(refusal, value, applied, before, result, after),
    ensures
        result is Ok <==> refusal is None,
        result matches Ok(returned) ==> returned == value && after == applied,
        result matches Err(reason) ==> refusal == Some(reason) && after == before,
{
}

/// A query that ends as its contract says has returned the reason or the value.
pub proof fn law_queries_end_in_one_of_two_ways<T>(
    refusal: Option<Failure>,
    value: T,
    result: Result<T, Failure>,
)
    requires
        replies(refusal, value, result),
    ensures
        result is Ok <==> refusal is None,
        result matches Ok(returned) ==> returned == value,
        result matches Err(reason) ==> refusal == Some(reason),
{
}

// ------------------------------------------------------------
// Entries
// ------------------------------------------------------------

/// A new ledger stands at the time and for the contract given, holds no entries and
/// has been asked for nothing.
pub proof fn law_new_ledger_is_empty(timestamp: u64, contract: Address, env: Env)
    requires
        call_ensures(Env::new, (timestamp, contract), env),
    ensures
        env@.now == timestamp,
        env@.contract == contract,
        env@.effects.len() == 0,
        env@.state.admin is None,
        env@.state.token is None,
        env@.state.protocol_fee_bps is None,
        env@.state.lock_period_seconds is None,
        env@.state.min_withdrawal is None,
        env@.state.oracle is None,
        env@.state.tier_count is None,
        env@.state.pass_count is None,
        env@.state.contract_version is None,
        env@.state.creators == Map::<Address, Creator>::empty(),
        env@.state.tiers == Map::<u32, TierView>::empty(),
        env@.state.passes == Map::<u64, PassView>::empty(),
        env@.state.creator_balances == Map::<Address, i128>::empty(),
        env@.state.earning_counts == Map::<Address, u64>::empty(),
        env@.state.earnings == Map::<EarningKey, PendingEarning>::empty(),
        env@.state.proposals == Map::<u64, EarlyReleaseProposal>::empty(),
        env@.state.fan_passes == Map::<Address, Seq<u64>>::empty(),
        env@.state.creator_tiers == Map::<Address, Seq<u32>>::empty(),
        env@.state.grants == Map::<GrantKey, GrantView>::empty(),
        env@.state.writes.len() == 0,
{
}

/// An entry is found exactly where there is one, and stands for itself; only a
/// missing entry is replaced by a default.
pub proof fn law_entries_stand_for_themselves<K, V>(entries: Map<K, V>, key: K, default: V)
    ensures
        lookup(entries, key) is Some <==> entries.contains_key(key),
        entries.contains_key(key) ==> lookup(entries, key) == Some(entries[key]),
        value_or(None, default) == default,
        value_or(Some(entries[key]), default) == entries[key],
{
}

/// What is on record of the fee, the least withdrawal, the version, the counts and
/// the lists is what counts; without a record the fee and the counts are zero, the
/// lists are empty, and a million is the least withdrawal.
pub proof fn law_records_count(env: EnvView, party: Address)
    ensures
        env.state.protocol_fee_bps matches Some(fee_bps) ==> fee_in_force(env) == fee_bps,
        env.state.protocol_fee_bps is None ==> fee_in_force(env) == 0,
        env.state.min_withdrawal matches Some(least) ==> min_withdrawal_in_force(env) == least,
        env.state.min_withdrawal is None ==> min_withdrawal_in_force(env) == 1_000_000,
        env.state.contract_version matches Some(stored) ==> version(env) == stored,
        env.state.contract_version is None ==> version(env) == 0,
        env.state.tier_count matches Some(n) ==> (n < u32::MAX ==> next_tier_id(env) == n + 1),
        env.state.tier_count is None ==> next_tier_id(env) == 1,
        env.state.pass_count matches Some(n) ==> (n < u64::MAX ==> next_pass_id(env) == n + 1),
        env.state.pass_count is None ==> next_pass_id(env) == 1,
        env.state.earning_counts.contains_key(party) ==> next_earning_id(env, party)
            == env.state.earning_counts[party],
        !env.state.earning_counts.contains_key(party) ==> next_earning_id(env, party) == 0,
        env.state.creator_balances.contains_key(party) ==> balance_of(env, party)
            == env.state.creator_balances[party],
        !env.state.creator_balances.contains_key(party) ==> balance_of(env, party) == 0,
        env.state.fan_passes.contains_key(party) ==> passes_of(env, party)
            == env.state.fan_passes[party],
        !env.state.fan_passes.contains_key(party) ==> passes_of(env, party).len() == 0,
        env.state.creator_tiers.contains_key(party) ==> tiers_of(env, party)
            == env.state.creator_tiers[party],
        !env.state.creator_tiers.contains_key(party) ==> tiers_of(env, party).len() == 0,
{
}

/// The texts of symbols are theirs, one for one.
pub proof fn law_texts_are_the_symbols(symbols: Seq<Symbol>, i: int)
    requires
        0 <= i < symbols.len(),
    ensures
        texts(symbols).len() == symbols.len(),
        texts(symbols)[i] == symbols[i]@,
{
}

/// Permissions are covered exactly if each of them is listed: as sets, they are a
/// part of those listed.
pub proof fn law_covered_is_each_listed(wanted: Seq<Seq<char>>, listed: Seq<Seq<char>>)
    ensures
        covered(wanted, listed) <==> wanted.to_set().subset_of(listed.to_set()),
{
    if covered(wanted, listed) {
        assert forall|item: Seq<char>|
            wanted.to_set().contains(item) implies listed.to_set().contains(item) by {
            let i = choose|i: int| 0 <= i < wanted.len() && wanted[i] == item;
            assert(listed.contains(wanted[i]));
        }
    }
    if wanted.to_set().subset_of(listed.to_set()) {
        assert forall|i: int| 0 <= i < wanted.len() implies listed.contains(
            #[trigger] wanted[i],
        ) by {
            assert(wanted.to_set().contains(wanted[i]));
        }
    }
}

/// An address is written with its own key, an account as an account and a contract
/// as a contract.
pub proof fn law_addresses_are_written_by_kind_and_key(key: Bytes32)
    ensures
        Address::Account(key).strkey() == strkey_text(true, key.high, key.low),
        Address::Contract(key).strkey() == strkey_text(false, key.high, key.low),
{
}

// ------------------------------------------------------------
// Time
// ------------------------------------------------------------

/// A sum of times is their sum, or the last time there is if that is beyond it.
pub proof fn law_sums_of_times_stop_at_the_last(a: u64, b: u64)
    ensures
        a + b <= u64::MAX ==> saturating_sum(a, b) == a + b,
        a + b > u64::MAX ==> saturating_sum(a, b) == u64::MAX,
        later(a, b) >= a,
        later(a, b) >= b,
        later(a, b) == a || later(a, b) == b,
{
}

/// A pass gives access exactly if it is active, not paused, and its expiry is later
/// than now.
pub proof fn law_usable_is_active_running_and_unexpired(env: EnvView, pass_id: u64, pass: PassView)
    ensures
        pass.usable(env.now) <==> pass.active && !pass.paused && env.now < pass.expires_at,
        pass_usable(env, pass_id) <==> {
            &&& env.state.passes.contains_key(pass_id)
            &&& env.state.passes[pass_id].active
            &&& !env.state.passes[pass_id].paused
            &&& env.now < env.state.passes[pass_id].expires_at
        },
{
}

/// An earning is due exactly if it has not been released and its unlocking has
/// passed. The earnings to release are those that are due, each once, by rising
/// number.
pub proof fn law_due_is_unreleased_and_unlocked(env: EnvView, creator: Address, id: u64)
    ensures
        ({
            let key = EarningKey { creator, earning_id: id };
            let due = due_now(env, creator);
            &&& due.contains(id) <==> {
                &&& id < value_or(lookup(env.state.earning_counts, creator), 0)
                &&& env.state.earnings.contains_key(key)
                &&& !env.state.earnings[key].released
                &&& env.now > env.state.earnings[key].unlocks_at
            }
            &&& forall|i: int, j: int| 0 <= i < j < due.len() ==> due[i] < due[j]
        }),
{
    let count = next_earning_id(env, creator) as nat;
    let key = EarningKey { creator, earning_id: id };
    let due = due_now(env, creator);
    lemma_due_ids(env.state.earnings, creator, env.now, count);
    if due.contains(id) {
        let i = choose|i: int| 0 <= i < due.len() && due[i] == id;
        assert(due[i] == id);
    }
    if id < count && env.state.earnings.contains_key(key) && !env.state.earnings[key].released
        && env.now > env.state.earnings[key].unlocks_at {
        lemma_due_ids_complete(env.state.earnings, creator, env.now, count, id);
    }
}

// ------------------------------------------------------------
// Money
// ------------------------------------------------------------

/// Amounts are what 128 bits with a sign can hold.
pub proof fn law_amounts_fit_in_their_bits(n: int)
    ensures
        fits_i128(n) <==> -0x8000_0000_0000_0000_0000_0000_0000_0000 <= n
            <= 0x7fff_ffff_ffff_ffff_ffff_ffff_ffff_ffff,
{
}

/// A quotient is the whole number of times that the divisor goes into the number,
/// and that of a negative number mirrors that of its magnitude.
pub proof fn law_quotients_round_toward_zero(n: int, d: int)
    requires
        n >= 0,
        d > 0,
    ensures
        quotient(n, d) * d <= n < (quotient(n, d) + 1) * d,
        quotient(-n, d) == -quotient(n, d),
{
    let q = n / d;
    assert(q * d <= n < (q + 1) * d) by (nonlinear_arith)
        requires
            d > 0,
            q == n / d,
    ;
    if n == 0 {
        assert(0int / d == 0) by (nonlinear_arith)
            requires
                d > 0,
        ;
    }
}

/// The protocol's part of a payment is the fee's share of it in basis points,
/// rounded down, and the creator's part is the rest. Both can be computed wherever
/// the amounts fit. The parts of a negative amount mirror those of its magnitude.
pub proof fn law_fee_is_its_share_rounded_down(price: int, fee_bps: u32)
    requires
        price >= 0,
    ensures
        ({
            let fee = protocol_fee(price, fee_bps as int);
            &&& fee * 10_000 <= price * fee_bps < (fee + 1) * 10_000
            &&& creator_amount(price, fee_bps as int) == price - fee
            &&& splits(price, fee_bps as int) <==> price * fee_bps <= i128::MAX && i128::MIN
                <= price - fee <= i128::MAX
            &&& protocol_fee(-price, fee_bps as int) == -fee
            &&& creator_amount(-price, fee_bps as int) == -(price - fee)
            &&& splits(-price, fee_bps as int) <==> -(price * fee_bps) >= i128::MIN && i128::MIN
                <= -(price - fee) <= i128::MAX
        }),
{
    assert(price * fee_bps >= 0) by (nonlinear_arith)
        requires
            price >= 0,
            fee_bps >= 0,
    ;
    assert((-price) * fee_bps == -(price * fee_bps)) by (nonlinear_arith);
}

/// What is owed for a USD price is as many base units of the token as the price, in
/// cents and scaled by seven decimals, pays for at the quoted rate, rounded down (a
/// negative price: up). It is owed exactly if an oracle is set, its answer is at
/// most five minutes old and positive, and the scaled price is an amount.
pub proof fn law_usd_price_is_owed_at_the_quoted_rate(
    env: EnvView,
    cents: i128,
    quote: Option<Quote>,
)
    ensures
        ({
            let owed = price_amount(env, TierPriceMode::USDDenominated(cents), quote);
            let fresh = {
                &&& env.state.oracle is Some
                &&& quote is Some
                &&& env.now <= (quote->0).1 + 300
                &&& (quote->0).0 > 0
            };
            let unit = (quote->0).0;
            let scaled = cents * 10_000_000;
            &&& owed is Ok <==> fresh && i128::MIN <= scaled <= i128::MAX
            &&& owed == Err::<i128, Failure>(
                Failure::Abort(Abort::OracleUnavailable),
            ) <==> !fresh
            &&& owed == Err::<i128, Failure>(
                Failure::Abort(Abort::TokenAmountOverflow),
            ) <==> fresh && !(i128::MIN <= scaled <= i128::MAX)
            &&& owed matches Ok(amount) ==> (cents >= 0 ==> amount * unit <= scaled < (amount + 1)
                * unit)
            &&& owed matches Ok(amount) ==> (cents < 0 ==> (amount - 1) * unit < scaled <= amount
                * unit)
        }),
{
    let owed = price_amount(env, TierPriceMode::USDDenominated(cents), quote);
    if let Ok(amount) = owed {
        let scaled = cents * 10_000_000;
        let unit = (quote->0).0 as int;
        let magnitude = if scaled >= 0 {
            scaled
        } else {
            -scaled
        };
        law_quotients_round_toward_zero(magnitude, unit);
        let q = quotient(magnitude, unit);
        assert(0 <= q <= magnitude) by (nonlinear_arith)
            requires
                unit > 0,
                magnitude >= 0,
                q * unit <= magnitude < (q + 1) * unit,
        ;
        if cents < 0 {
            assert(amount == -q);
            assert((-q - 1) * unit < -magnitude <= (-q) * unit) by (nonlinear_arith)
                requires
                    q * unit <= magnitude < (q + 1) * unit,
            ;
        }
    }
}

/// An oracle is asked for a price in USD alone, if one is set, and about the payment
/// token.
pub proof fn law_oracle_is_asked_for_usd_prices(env: EnvView, price: TierPriceMode)
    ensures
        quote_request(env, price) is Some <==> price is USDDenominated && env.state.oracle is Some
            && env.state.token is Some,
        quote_request(env, price) matches Some((oracle, token)) ==> env.state.oracle == Some(oracle)
            && env.state.token == Some(token),
{
}

/// What came of asking an oracle is what the oracle could answer on being asked for
/// that token at that address, and nothing where nobody was to be asked.
pub proof fn law_answers_are_the_oracles<O: OracleInterface>(
    oracle: &O,
    address: Address,
    token: Address,
    quote: Quote,
)
    ensures
        answers(oracle, Some((address, token)), Some(quote)) <==> call_ensures(
            O::get_price,
            (oracle, address, token),
            quote,
        ),
        !answers(oracle, Some((address, token)), None),
        !answers(oracle, None, Some(quote)),
        answers(oracle, None, None),
{
}

/// The stored amount of a price is the amount that it was made with.
pub proof fn law_prices_hold_their_amounts(amount: i128)
    ensures
        TierPriceMode::Fixed(amount).stored_amount() == amount,
        TierPriceMode::USDDenominated(amount).stored_amount() == amount,
{
}

// ------------------------------------------------------------
// Sums and lists, item by item
// ------------------------------------------------------------

/// A sum of earnings is the sum of their amounts, one by one.
pub proof fn law_amounts_add_up(
    earnings: Map<EarningKey, PendingEarning>,
    creator: Address,
    ids: Seq<u64>,
    id: u64,
)
    ensures
        amount_of(earnings, creator, Seq::empty()) == 0,
        amount_of(earnings, creator, ids.push(id)) == amount_of(earnings, creator, ids)
            + earnings[EarningKey { creator, earning_id: id }].amount,
{
    assert(ids.push(id).drop_last() == ids);
}

/// The record of earnings grows by each earning that is on record, in the order of
/// their numbers.
pub proof fn law_record_grows_by_number(
    earnings: Map<EarningKey, PendingEarning>,
    creator: Address,
    id: u64,
)
    ensures
        ({
            let key = EarningKey { creator, earning_id: id };
            let before = recorded_earnings(earnings, creator, id as nat);
            let after = recorded_earnings(earnings, creator, (id + 1) as nat);
            &&& recorded_earnings(earnings, creator, 0).len() == 0
            &&& earnings.contains_key(key) ==> after == before.push(earnings[key])
            &&& !earnings.contains_key(key) ==> after == before
        }),
{
}

/// The count of a creator's passes grows by what each tier on record has minted.
pub proof fn law_minted_passes_add_up(tiers: Map<u32, TierView>, tier_ids: Seq<u32>, tier_id: u32)
    ensures
        minted_total(tiers, Seq::empty()) == 0,
        tiers.contains_key(tier_id) ==> minted_total(tiers, tier_ids.push(tier_id))
            == minted_total(tiers, tier_ids) + tiers[tier_id].minted,
        !tiers.contains_key(tier_id) ==> minted_total(tiers, tier_ids.push(tier_id))
            == minted_total(tiers, tier_ids),
{
    assert(tier_ids.push(tier_id).drop_last() == tier_ids);
}

/// The details of passes are those of each pass on record, in the order of the list.
pub proof fn law_details_follow_the_list(env: EnvView, ids: Seq<u64>, id: u64)
    ensures
        records_of(env, Seq::empty()).len() == 0,
        env.state.passes.contains_key(id) ==> records_of(env, ids.push(id)) == records_of(
            env,
            ids,
        ).push(env.state.passes[id]),
        !env.state.passes.contains_key(id) ==> records_of(env, ids.push(id)) == records_of(
            env,
            ids,
        ),
{
    reveal(Seq::filter);
    assert(ids.push(id).drop_last() == ids);
    assert(records_of(env, ids.push(id)) =~= if env.state.passes.contains_key(id) {
        records_of(env, ids).push(env.state.passes[id])
    } else {
        records_of(env, ids)
    });
}

/// A page holds the items from its offset on, as many as were asked for or as there
/// are.
pub proof fn law_pages_hold_their_items<T>(all: Seq<T>, offset: int, limit: int, i: int)
    requires
        0 <= offset,
        0 <= limit,
    ensures
        offset >= all.len() ==> page(all, offset, limit).len() == 0,
        offset + limit <= all.len() ==> page(all, offset, limit).len() == limit,
        offset <= all.len() < offset + limit ==> page(all, offset, limit).len() == all.len()
            - offset,
        0 <= i < page(all, offset, limit).len() ==> page(all, offset, limit)[i] == all[offset + i],
{
}

// ------------------------------------------------------------
// The functions that compute
// ------------------------------------------------------------

/// A pass tells whether it is usable, a price its amount, and an address its strkey,
/// as is said of them; the admin's calls are let through for the admin alone.
pub proof fn law_records_tell_what_is_said(
    env: &Env,
    pass: &Pass,
    now: u64,
    usable: bool,
    price: &TierPriceMode,
    amount: i128,
    address: Address,
    text: Vec<u8>,
    caller: Address,
    found: Result<(), Failure>,
)
    requires
        call_ensures(Pass::is_usable, (pass, now), usable),
        call_ensures(TierPriceMode::amount, (price,), amount),
        call_ensures(strkey, (address,), text),
        call_ensures(check_admin, (env, caller), found),
    ensures
        usable <==> pass.active && !pass.paused && now < pass.expires_at,
        price matches TierPriceMode::Fixed(stroops) ==> amount == stroops,
        price matches TierPriceMode::USDDenominated(cents) ==> amount == cents,
        text@ == address.strkey(),
        text@.len() == 56,
        found is Ok <==> env@.state.admin == Some(caller),
        found matches Err(reason) ==> reason == Failure::Abort(
            if env@.state.admin is None {
                Abort::NotInitialized
            } else {
                Abort::NotAuthorized
            },
        ),
{
}

/// A payment is resolved to what is owed, and a permission is found among those
/// listed exactly if it is there, and several exactly if each is.
pub proof fn law_computations_are_as_said(
    env: &Env,
    tier: &Tier,
    quote: Option<Quote>,
    amount: Result<i128, Failure>,
    wanted: &Symbol,
    several: &Vec<Symbol>,
    listed: &Vec<Symbol>,
    one_found: bool,
    all_found: bool,
)
    requires
        call_ensures(resolve_price_amount, (env, tier, quote), amount),
        call_ensures(is_listed, (wanted, listed), one_found),
        call_ensures(all_listed, (several, listed), all_found),
    ensures
        amount == price_amount(env@, tier.price, quote),
        one_found <==> exists|i: int| 0 <= i < listed@.len() && #[trigger] listed@[i]@ == wanted@,
        all_found <==> forall|k: int|
            0 <= k < several@.len() ==> texts(listed@).contains(#[trigger] several@[k]@),
{
    let all = texts(listed@);
    if one_found {
        let i = choose|i: int| 0 <= i < all.len() && all[i] == wanted@;
        assert(listed@[i]@ == wanted@);
    }
    assert forall|i: int|
        0 <= i < listed@.len() && #[trigger] listed@[i]@ == wanted@ implies one_found by {
        assert(all[i] == wanted@);
    }
    assert forall|k: int| all_found && 0 <= k < several@.len() implies all.contains(
        #[trigger] several@[k]@,
    ) by {
        assert(all.contains(texts(several@)[k]));
    }
    if forall|k: int| 0 <= k < several@.len() ==> all.contains(#[trigger] several@[k]@) {
        assert forall|k: int| 0 <= k < several@.len() implies all.contains(
            #[trigger] texts(several@)[k],
        ) by {
            assert(texts(several@)[k] == several@[k]@);
        }
    }
}

} // verus!
