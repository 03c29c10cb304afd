//! Creators and what they offer, condition by condition and field by field.

use vstd::prelude::*;

use crate::address::Address;
use crate::effect::{Effect, Event};
use crate::env::EnvView;
use crate::failure::{Abort, Failure};
use crate::passes::{mint_refusal, minted};
use crate::pricing::Quote;
use crate::storage::StorageView;
use crate::tiers::{
    deactivated, deactivation_refusal, next_tier_id, registered, registration_refusal, repriced,
    repricing_refusal, tier_created, tier_refusal,
};
use crate::types::{DataKey, TierPriceMode, TierView};

verus! {

// ------------------------------------------------------------
// Registration
// ------------------------------------------------------------

/// Whoever is not registered can register, and nobody registers twice.
pub proof fn law_anyone_can_register_once(env: EnvView, creator: Address)
    ensures
        registration_refusal(env, creator) is None <==> !env.state.creators.contains_key(creator),
        registration_refusal(env, creator) == Some(
            Failure::Abort(Abort::CreatorAlreadyRegistered),
        ) <==> env.state.creators.contains_key(creator),
        registration_refusal(registered(env, creator), creator) is Some,
{
}

/// A new creator starts with nothing earned, nothing sold, nothing to withdraw and
/// no tiers. Nothing else changes. The creator signs, and it is published.
pub proof fn law_new_creator_starts_from_nothing(env: EnvView, creator: Address)
    ensures
        ({
            let after = registered(env, creator);
            let profile = after.state.creators[creator];
            &&& after.now == env.now && after.contract == env.contract
            &&& after.state == (StorageView {
                creators: after.state.creators,
                creator_balances: after.state.creator_balances,
                creator_tiers: after.state.creator_tiers,
                writes: after.state.writes,
                ..env.state
            })
            &&& after.state.creators == env.state.creators.insert(creator, profile)
            &&& profile.address == creator
            &&& profile.registered_at == env.now
            &&& profile.total_earned == 0
            &&& profile.pass_count == 0
            &&& after.state.creator_balances == env.state.creator_balances.insert(creator, 0)
            &&& after.state.creator_tiers == env.state.creator_tiers.insert(creator, seq![])
            &&& after.state.writes == env.state.writes.push(DataKey::Creator(creator)).push(
                DataKey::CreatorBalance(creator),
            ).push(DataKey::CreatorTiers(creator))
            &&& after.effects == env.effects.push(Effect::RequireAuth(creator)).push(
                Effect::Publish(Event::CreatorRegistered { creator, timestamp: env.now }),
            )
        }),
{
}

// ------------------------------------------------------------
// Tiers
// ------------------------------------------------------------

/// A registered creator can define a tier with any positive price, any duration but
/// zero, any name but the empty one, any supply and any permissions, while there is
/// a number left for it. Each reason for a refusal comes exactly if its condition
/// is the first that fails.
pub proof fn law_registered_creator_can_define_tiers(
    env: EnvView,
    creator: Address,
    name: Seq<u8>,
    price: TierPriceMode,
    duration: u64,
)
    ensures
        ({
            let refusal = tier_refusal(env, creator, name, price, duration);
            let priced = match price {
                TierPriceMode::Fixed(amount) => amount > 0,
                TierPriceMode::USDDenominated(cents) => cents > 0,
            };
            let known = env.state.creators.contains_key(creator);
            let full = env.state.tier_count == Some(0xffff_ffffu32);
            &&& refusal is None <==> priced && known && duration > 0 && name.len() > 0 && !full
            &&& refusal == Some(Failure::Abort(Abort::PriceNotPositive)) <==> !priced
            &&& refusal == Some(Failure::Abort(Abort::CreatorNotRegistered)) <==> priced && !known
            &&& refusal == Some(Failure::Abort(Abort::DurationZero)) <==> priced && known
                && duration == 0
            &&& refusal == Some(Failure::Abort(Abort::NameEmpty)) <==> priced && known && duration
                > 0 && name.len() == 0
            &&& refusal == Some(Failure::Abort(Abort::ArithmeticOverflow)) <==> priced && known
                && duration > 0 && name.len() > 0 && full
        }),
{
}

/// A new tier is on record with exactly the name, the price, the duration, the
/// supply and the permissions that its creator gave, active and with nothing minted,
/// under the number after the last, which ends the creator's list. Nothing else
/// changes. The creator signs, and the tier is published.
pub proof fn law_new_tier_is_recorded_as_given(
    env: EnvView,
    creator: Address,
    name: Seq<u8>,
    price: TierPriceMode,
    duration: u64,
    max_supply: u32,
    permissions: Seq<Seq<char>>,
)
    requires
        tier_refusal(env, creator, name, price, duration) is None,
    ensures
        ({
            let after = tier_created(
                env,
                creator,
                name,
                price,
                duration,
                max_supply,
                permissions,
            );
            let number = next_tier_id(env);
            let tier = after.state.tiers[number];
            let list = after.state.creator_tiers[creator];
            &&& env.state.tier_count matches Some(last) ==> number == last + 1
            &&& env.state.tier_count is None ==> number == 1
            &&& after.now == env.now && after.contract == env.contract
            &&& after.state == (StorageView {
                tiers: after.state.tiers,
                tier_count: after.state.tier_count,
                creator_tiers: after.state.creator_tiers,
                writes: after.state.writes,
                ..env.state
            })
            &&& after.state.tier_count == Some(number)
            &&& after.state.tiers == env.state.tiers.insert(number, tier)
            &&& tier.tier_id == number
            &&& tier.creator == creator
            &&& tier.name == name
            &&& tier.price == price
            &&& tier.duration == duration
            &&& tier.max_supply == max_supply
            &&& tier.permissions == permissions
            &&& tier.active
            &&& tier.minted == 0
            &&& after.state.creator_tiers == env.state.creator_tiers.insert(creator, list)
            &&& env.state.creator_tiers.contains_key(creator) ==> list
                == env.state.creator_tiers[creator].push(number)
            &&& !env.state.creator_tiers.contains_key(creator) ==> list == seq![number]
            &&& after.state.writes == env.state.writes.push(DataKey::Tier(number)).push(
                DataKey::TierCount,
            ).push(DataKey::CreatorTiers(creator))
            &&& after.effects == env.effects.push(Effect::RequireAuth(creator)).push(
                Effect::Publish(Event::TierCreated { tier_id: number, creator, price, duration }),
            )
        }),
{
}

/// A pass of a new tier, bought at whatever time, lasts the duration that the
/// creator gave from then on, and costs the price that the creator gave.
pub proof fn law_new_tier_sells_passes_of_its_duration(
    env: EnvView,
    creator: Address,
    name: Seq<u8>,
    price: i128,
    duration: u64,
    max_supply: u32,
    permissions: Seq<Seq<char>>,
    bought_at: u64,
    fan: Address,
    chosen: Seq<Seq<char>>,
    quote: Option<Quote>,
)
    requires
        tier_refusal(env, creator, name, TierPriceMode::Fixed(price), duration) is None,
        mint_refusal(
            EnvView {
                now: bought_at,
                ..tier_created(
                    env,
                    creator,
                    name,
                    TierPriceMode::Fixed(price),
                    duration,
                    max_supply,
                    permissions,
                )
            },
            next_tier_id(env),
            chosen,
            quote,
        ) is None,
    ensures
        ({
            let offered = EnvView {
                now: bought_at,
                ..tier_created(
                    env,
                    creator,
                    name,
                    TierPriceMode::Fixed(price),
                    duration,
                    max_supply,
                    permissions,
                )
            };
            let after = minted(offered, fan, next_tier_id(env), chosen, quote);
            let pass = after.state.passes[after.state.pass_count->0];
            &&& pass.owner == fan
            &&& pass.creator == creator
            &&& pass.tier_id == next_tier_id(env)
            &&& pass.purchased_at == bought_at
            &&& pass.expires_at - bought_at == duration
            &&& after.effects[offered.effects.len() as int + 1] == (Effect::Transfer {
                token: env.state.token->0,
                from: fan,
                to: env.contract,
                amount: price,
            })
        }),
{
}

/// A tier's creator can end its sale once; each reason for a refusal comes exactly
/// if its condition is the first that fails.
pub proof fn law_tier_creator_can_deactivate_once(env: EnvView, creator: Address, tier_id: u32)
    ensures
        ({
            let refusal = deactivation_refusal(env, creator, tier_id);
            let found = env.state.tiers.contains_key(tier_id);
            let owned = found && env.state.tiers[tier_id].creator == creator;
            let active = env.state.tiers[tier_id].active;
            &&& refusal is None <==> owned && active
            &&& refusal == Some(Failure::Abort(Abort::TierNotFound)) <==> !found
            &&& refusal == Some(Failure::Abort(Abort::NotTierCreator)) <==> found && !owned
            &&& refusal == Some(Failure::Abort(Abort::TierAlreadyInactive)) <==> owned && !active
            &&& deactivation_refusal(deactivated(env, creator, tier_id), creator, tier_id) is Some
        }),
{
}

/// Deactivating a tier marks it as inactive and changes nothing else. The creator
/// signs, and it is published.
pub proof fn law_deactivation_marks_the_tier(env: EnvView, creator: Address, tier_id: u32)
    ensures
        ({
            let before = env.state.tiers[tier_id];
            let after = deactivated(env, creator, tier_id);
            let tier = after.state.tiers[tier_id];
            &&& after.now == env.now && after.contract == env.contract
            &&& after.state == (StorageView {
                tiers: after.state.tiers,
                writes: after.state.writes,
                ..env.state
            })
            &&& after.state.tiers == env.state.tiers.insert(tier_id, tier)
            &&& !tier.active
            &&& tier == (TierView { active: tier.active, ..before })
            &&& after.state.writes == env.state.writes.push(DataKey::Tier(tier_id))
            &&& after.effects == env.effects.push(Effect::RequireAuth(creator)).push(
                Effect::Publish(Event::TierDeactivated { tier_id, creator }),
            )
        }),
{
}

/// The creator of an active tier can give it any positive price of its kind; each
/// reason for a refusal comes exactly if its condition is the first that fails.
pub proof fn law_tier_creator_can_reprice(
    env: EnvView,
    creator: Address,
    tier_id: u32,
    price: TierPriceMode,
)
    ensures
        ({
            let refusal = repricing_refusal(env, creator, tier_id, price);
            let tier = env.state.tiers[tier_id];
            let priced = match price {
                TierPriceMode::Fixed(amount) => amount > 0,
                TierPriceMode::USDDenominated(cents) => cents > 0,
            };
            let found = priced && env.state.tiers.contains_key(tier_id);
            let owned = found && tier.creator == creator;
            let sold = owned && tier.active;
            &&& refusal is None <==> sold && (price is Fixed <==> tier.price is Fixed)
            &&& refusal == Some(Failure::Abort(Abort::PriceNotPositive)) <==> !priced
            &&& refusal == Some(Failure::Abort(Abort::TierNotFound)) <==> priced && !found
            &&& refusal == Some(Failure::Abort(Abort::NotTierCreator)) <==> found && !owned
            &&& refusal == Some(Failure::Abort(Abort::TierNotActive)) <==> owned && !sold
            &&& refusal == Some(Failure::Abort(Abort::TierIsUsdDenominated)) <==> sold
                && price is Fixed && !(tier.price is Fixed)
            &&& refusal == Some(Failure::Abort(Abort::TierIsFixedPrice)) <==> sold && !(
            price is Fixed) && tier.price is Fixed
        }),
{
}

/// Repricing gives the tier exactly the new price and changes nothing else. The
/// creator signs, and both prices are published.
pub proof fn law_repricing_sets_the_price(
    env: EnvView,
    creator: Address,
    tier_id: u32,
    price: TierPriceMode,
)
    ensures
        ({
            let before = env.state.tiers[tier_id];
            let after = repriced(env, creator, tier_id, price);
            let tier = after.state.tiers[tier_id];
            let amount = match price {
                TierPriceMode::Fixed(amount) => amount,
                TierPriceMode::USDDenominated(cents) => cents,
            };
            &&& after.now == env.now && after.contract == env.contract
            &&& after.state == (StorageView {
                tiers: after.state.tiers,
                writes: after.state.writes,
                ..env.state
            })
            &&& after.state.tiers == env.state.tiers.insert(tier_id, tier)
            &&& tier.price == price
            &&& tier == (TierView { price: tier.price, ..before })
            &&& after.state.writes == env.state.writes.push(DataKey::Tier(tier_id))
            &&& after.effects == env.effects.push(Effect::RequireAuth(creator)).push(
                Effect::Publish(
                    Event::TierPriceUpdated { tier_id, old_price: before.price, new_price: amount },
                ),
            )
        }),
{
}

} // verus!
