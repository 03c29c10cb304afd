//! Tiers, their prices and their sale.

use vstd::prelude::*;

use crate::address::Address;
use crate::admin::fee_set;
use crate::calls::Call;
use crate::env::EnvView;
use crate::failure::{abort, Abort, Failure};
use crate::order::{creator_in_order, in_order, minted_up_to, sold, tier_in_order};
use crate::passes::{
    fee_in_force, mint_refusal, next_pass_id, payment_refusal, renew_refusal, renewal_refusal,
};
use crate::pricing::{
    price_amount, value_or, Quote, ORACLE_STALENESS_THRESHOLD_SECONDS, TOKEN_SCALE,
};
use crate::queries::{minted_total, pass_count_refusal};
use crate::storage::StorageView;
use crate::tiers::{
    deactivated, deactivation_refusal, next_tier_id, repriced, repricing_refusal, tiers_of,
};
use crate::types::{PassView, TierPriceMode, TierView};

verus! {

/// The terms of a tier are fixed when it is defined. Later its price can change,
/// by its creator's call and within its kind; its sale can end, by its creator's
/// call, and does not start again; and passes are minted, one at a time.
pub proof fn law_tier_terms_are_fixed(env: EnvView, call: Call, tier_id: u32)
    requires
        in_order(env.state),
        env.state.tiers.contains_key(tier_id),
    ensures
        ({
            let before = env.state.tiers[tier_id];
            let after = call.outcome(env).state.tiers[tier_id];
            &&& call.outcome(env).state.tiers.contains_key(tier_id)
            &&& after == (TierView {
                price: after.price,
                active: after.active,
                minted: after.minted,
                ..before
            })
            &&& after.price != before.price ==> call == (Call::UpdateTierPrice {
                creator: before.creator,
                tier_id,
                price: after.price,
            })
            &&& after.price is Fixed <==> before.price is Fixed
            &&& after.active != before.active ==> !after.active && call == (
            Call::DeactivateTier { creator: before.creator, tier_id })
            &&& after.minted != before.minted ==> call is MintPass && after.minted == before.minted
                + 1
        }),
{
}

/// A creator's list holds the tiers that the creator has defined, each once, and
/// no others.
pub proof fn law_list_holds_the_creators_tiers(env: EnvView, creator: Address, tier_id: u32)
    requires
        in_order(env.state),
    ensures
        tiers_of(env, creator).contains(tier_id) <==> env.state.tiers.contains_key(tier_id)
            && env.state.tiers[tier_id].creator == creator,
        tiers_of(env, creator).no_duplicates(),
{
    if tiers_of(env, creator).contains(tier_id) {
        assert(env.state.creator_tiers.contains_key(creator));
        assert(env.state.creator_tiers[creator].contains(tier_id));
    }
    if env.state.tiers.contains_key(tier_id) && env.state.tiers[tier_id].creator == creator {
        assert(tier_in_order(env.state, tier_id));
        assert(creator_in_order(env.state, creator));
    }
}

/// No more passes of a tier are minted than its supply allows.
pub proof fn law_supply_is_not_exceeded(env: EnvView, call: Call, tier_id: u32)
    requires
        in_order(env.state),
        env.state.tiers.contains_key(tier_id),
        env.state.tiers[tier_id].max_supply != 0,
    ensures
        call.outcome(env).state.tiers[tier_id].minted <= env.state.tiers[tier_id].max_supply,
{
    assert(tier_in_order(env.state, tier_id));
    law_tier_terms_are_fixed(env, call, tier_id);
}

/// The passes of a tier that are on record.
pub open spec fn passes_of_tier(s: StorageView, tier_id: u32) -> Set<u64> {
    Set::new(
        |pass_id: u64| s.passes.contains_key(pass_id) && s.passes[pass_id].tier_id == tier_id,
    )
}

/// A tier has minted as many passes as there are passes of it on record, and so
/// there are no more of them than its supply allows.
pub proof fn law_minted_passes_are_on_record(env: EnvView, tier_id: u32)
    requires
        in_order(env.state),
        env.state.tiers.contains_key(tier_id),
    ensures
        ({
            let tier = env.state.tiers[tier_id];
            let passes = passes_of_tier(env.state, tier_id);
            &&& passes.finite()
            &&& passes.len() == tier.minted
            &&& tier.max_supply != 0 ==> passes.len() <= tier.max_supply
        }),
{
    let count = value_or(env.state.pass_count, 0) as nat;
    assert(tier_in_order(env.state, tier_id));
    lemma_sold_counts(env.state.passes, tier_id, count);
    assert(passes_of_tier(env.state, tier_id) =~= first_passes_of_tier(
        env.state.passes,
        tier_id,
        count,
    ));
}

/// The passes of a tier among those numbered up to `count`.
spec fn first_passes_of_tier(passes: Map<u64, PassView>, tier_id: u32, count: nat) -> Set<u64> {
    Set::new(
        |pass_id: u64|
            1 <= pass_id <= count && passes.contains_key(pass_id) && passes[pass_id].tier_id
                == tier_id,
    )
}

/// Counting the passes of a tier one by one counts a set.
proof fn lemma_sold_counts(passes: Map<u64, PassView>, tier_id: u32, count: nat)
    requires
        count <= u64::MAX,
    ensures
        first_passes_of_tier(passes, tier_id, count).finite(),
        first_passes_of_tier(passes, tier_id, count).len() == sold(passes, tier_id, count),
    decreases count,
{
    let found = first_passes_of_tier(passes, tier_id, count);
    if count == 0 {
        assert(found =~= Set::<u64>::empty());
    } else {
        let before = first_passes_of_tier(passes, tier_id, (count - 1) as nat);
        let pass_id = count as u64;
        lemma_sold_counts(passes, tier_id, (count - 1) as nat);
        if passes.contains_key(pass_id) && passes[pass_id].tier_id == tier_id {
            assert(found =~= before.insert(pass_id));
        } else {
            assert(found =~= before);
        }
    }
}

/// A tier that is sold out is not sold, whoever asks and whatever is offered.
pub proof fn law_sold_out_tier_is_not_sold(
    env: EnvView,
    tier_id: u32,
    permissions: Seq<Seq<char>>,
    quote: Option<Quote>,
)
    requires
        env.state.tiers.contains_key(tier_id),
        env.state.tiers[tier_id].active,
        env.state.tiers[tier_id].max_supply != 0,
        env.state.tiers[tier_id].minted >= env.state.tiers[tier_id].max_supply,
    ensures
        mint_refusal(env, tier_id, permissions, quote) == abort(Abort::TierSoldOut),
{
}

/// A deactivated tier is not sold any more.
pub proof fn law_inactive_tier_is_not_sold(
    env: EnvView,
    creator: Address,
    tier_id: u32,
    permissions: Seq<Seq<char>>,
    quote: Option<Quote>,
)
    requires
        deactivation_refusal(env, creator, tier_id) is None,
    ensures
        mint_refusal(deactivated(env, creator, tier_id), tier_id, permissions, quote) == abort(
            Abort::TierNotActive,
        ),
{
}

/// Deactivating a tier leaves the passes as they are, and their owners can still
/// renew them.
pub proof fn law_deactivation_spares_passes(
    env: EnvView,
    creator: Address,
    tier_id: u32,
    fan: Address,
    pass_id: u64,
    quote: Option<Quote>,
)
    requires
        deactivation_refusal(env, creator, tier_id) is None,
    ensures
        deactivated(env, creator, tier_id).state.passes == env.state.passes,
        deactivated(env, creator, tier_id).state.fan_passes == env.state.fan_passes,
        renew_refusal(deactivated(env, creator, tier_id), fan, pass_id, quote) == renew_refusal(
            env,
            fan,
            pass_id,
            quote,
        ),
{
    let after = deactivated(env, creator, tier_id);
    let tier = env.state.tiers[env.state.passes[pass_id].tier_id];
    assert(renewal_refusal(after, fan, pass_id) == renewal_refusal(env, fan, pass_id));
    assert(price_amount(after, tier.price, quote) == price_amount(env, tier.price, quote));
    if let Ok(amount) = price_amount(env, tier.price, quote) {
        assert(payment_refusal(after, tier.creator, amount) == payment_refusal(
            env,
            tier.creator,
            amount,
        ));
    }
}

/// A new price, fixed or in USD, is what the next sale costs; passes sold before
/// and what was earned by them stay as they are.
pub proof fn law_new_price_concerns_future_sales(
    env: EnvView,
    creator: Address,
    tier_id: u32,
    price: TierPriceMode,
    quote: Option<Quote>,
)
    requires
        repricing_refusal(env, creator, tier_id, price) is None,
    ensures
        ({
            let after = repriced(env, creator, tier_id, price);
            &&& after.state.passes == env.state.passes
            &&& after.state.earnings == env.state.earnings
            &&& after.state.tiers[tier_id].price == price
            &&& price_amount(after, after.state.tiers[tier_id].price, quote) == price_amount(
                env,
                price,
                quote,
            )
            &&& price matches TierPriceMode::Fixed(amount) ==> price_amount(
                after,
                after.state.tiers[tier_id].price,
                quote,
            ) == Ok::<i128, Failure>(amount)
        }),
{
}

/// A new fee is taken of later payments; passes, earnings and balances stay as
/// they are.
pub proof fn law_new_fee_concerns_future_payments(env: EnvView, fee_bps: u32)
    ensures
        fee_in_force(fee_set(env, fee_bps)) == fee_bps,
        fee_set(env, fee_bps).state.passes == env.state.passes,
        fee_set(env, fee_bps).state.earnings == env.state.earnings,
        fee_set(env, fee_bps).state.creator_balances == env.state.creator_balances,
{
}

/// A fixed price is owed as it stands, whether there is an oracle or not and
/// whatever it says.
pub proof fn law_fixed_price_needs_no_oracle(env: EnvView, price: i128, quote: Option<Quote>)
    ensures
        price_amount(env, TierPriceMode::Fixed(price), quote) == Ok::<i128, Failure>(price),
{
}

/// A USD price is converted by the oracle's rate and rounded down to whole base
/// units.
pub proof fn law_usd_price_rounds_down(env: EnvView, cents: i128, quote: Quote)
    requires
        cents >= 0,
        price_amount(env, TierPriceMode::USDDenominated(cents), Some(quote)) is Ok,
    ensures
        ({
            let amount = price_amount(
                env,
                TierPriceMode::USDDenominated(cents),
                Some(quote),
            )->Ok_0;
            amount * quote.0 <= cents * TOKEN_SCALE < (amount + 1) * quote.0
        }),
{
    let scaled = cents * TOKEN_SCALE;
    let unit = quote.0 as int;
    let amount = scaled / unit;
    assert(amount * unit <= scaled < (amount + 1) * unit) by (nonlinear_arith)
        requires
            unit > 0,
            amount == scaled / unit,
    ;
    assert(0 <= amount <= scaled) by (nonlinear_arith)
        requires
            unit > 0,
            scaled >= 0,
            amount == scaled / unit,
    ;
}

/// Without a fresh and positive answer of a configured oracle there is no USD
/// price.
pub proof fn law_usd_price_needs_a_fresh_quote(env: EnvView, cents: i128, quote: Option<Quote>)
    requires
        ({
            ||| env.state.oracle is None
            ||| quote is None
            ||| env.now - (quote->0).1 > ORACLE_STALENESS_THRESHOLD_SECONDS
            ||| (quote->0).0 <= 0
        }),
    ensures
        price_amount(env, TierPriceMode::USDDenominated(cents), quote) == Err::<i128, Failure>(
            Failure::Abort(Abort::OracleUnavailable),
        ),
{
}

/// The numbers of new tiers and passes have not been used before.
pub proof fn law_new_numbers_are_fresh(env: EnvView)
    requires
        in_order(env.state),
    ensures
        value_or(env.state.tier_count, 0) < u32::MAX ==> !env.state.tiers.contains_key(
            next_tier_id(env),
        ),
        value_or(env.state.pass_count, 0) < u64::MAX ==> !env.state.passes.contains_key(
            next_pass_id(env),
        ),
{
}

/// The passes counted over a creator's tiers are those in the creator's profile,
/// and counting them does not fail; the passes counted over all tiers are all
/// passes.
pub proof fn law_pass_counts_agree(env: EnvView, creator: Address)
    requires
        in_order(env.state),
        env.state.creators.contains_key(creator),
    ensures
        minted_total(env.state.tiers, tiers_of(env, creator))
            == env.state.creators[creator].pass_count,
        pass_count_refusal(env, creator) is None,
        minted_up_to(env.state.tiers, value_or(env.state.tier_count, 0) as nat) == value_or(
            env.state.pass_count,
            0,
        ),
{
    assert(creator_in_order(env.state, creator));
}

} // verus!
