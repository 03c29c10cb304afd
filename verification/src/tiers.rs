//! Creators and the tiers that they define.

use vstd::prelude::*;

use crate::address::Address;
use crate::contract::StarPassContract;
use crate::effect::{Effect, Event};
use crate::env::{settles, Env, EnvView};
use crate::failure::{abort, Abort, Failure};
use crate::pricing::value_or;
use crate::storage::StorageView;
use crate::table::lookup;
use crate::types::{texts, Creator, DataKey, Symbol, Tier, TierPriceMode, TierView};

verus! {

/// Why an address cannot register as a creator.
pub open spec fn registration_refusal(env: EnvView, creator: Address) -> Option<Failure> {
    if env.state.creators.contains_key(creator) {
        abort(Abort::CreatorAlreadyRegistered)
    } else {
        None
    }
}

/// The ledger with a creator registered: an empty profile, balance and list of
/// tiers.
pub open spec fn registered(env: EnvView, creator: Address) -> EnvView {
    EnvView {
        state: StorageView {
            creators: env.state.creators.insert(
                creator,
                Creator {
                    address: creator,
                    registered_at: env.now,
                    total_earned: 0,
                    pass_count: 0,
                },
            ),
            creator_balances: env.state.creator_balances.insert(creator, 0),
            creator_tiers: env.state.creator_tiers.insert(creator, Seq::empty()),
            writes: env.state.writes + seq![
                DataKey::Creator(creator),
                DataKey::CreatorBalance(creator),
                DataKey::CreatorTiers(creator),
            ],
            ..env.state
        },
        effects: env.effects + seq![
            Effect::RequireAuth(creator),
            Effect::Publish(Event::CreatorRegistered { creator, timestamp: env.now }),
        ],
        ..env
    }
}

/// The number that the next tier gets.
pub open spec fn next_tier_id(env: EnvView) -> u32 {
    (value_or(env.state.tier_count, 0) + 1) as u32
}

/// Why a creator cannot define a tier.
pub open spec fn tier_refusal(
    env: EnvView,
    creator: Address,
    name: Seq<u8>,
    price: TierPriceMode,
    duration: u64,
) -> Option<Failure> {
    if price.stored_amount() <= 0 {
        abort(Abort::PriceNotPositive)
    } else if !env.state.creators.contains_key(creator) {
        abort(Abort::CreatorNotRegistered)
    } else if duration == 0 {
        abort(Abort::DurationZero)
    } else if name.len() == 0 {
        abort(Abort::NameEmpty)
    } else if value_or(env.state.tier_count, 0) == u32::MAX {
        abort(Abort::ArithmeticOverflow)
    } else {
        None
    }
}

/// The tiers on record for a creator.
pub open spec fn tiers_of(env: EnvView, creator: Address) -> Seq<u32> {
    value_or(lookup(env.state.creator_tiers, creator), Seq::empty())
}

/// The ledger with a tier defined.
pub open spec fn tier_created(
    env: EnvView,
    creator: Address,
    name: Seq<u8>,
    price: TierPriceMode,
    duration: u64,
    max_supply: u32,
    permissions: Seq<Seq<char>>,
) -> EnvView {
    let tier_id = next_tier_id(env);
    EnvView {
        state: StorageView {
            tiers: env.state.tiers.insert(
                tier_id,
                TierView {
                    tier_id,
                    creator,
                    name,
                    price,
                    duration,
                    max_supply,
                    minted: 0,
                    active: true,
                    permissions,
                },
            ),
            tier_count: Some(tier_id),
            creator_tiers: env.state.creator_tiers.insert(
                creator,
                tiers_of(env, creator).push(tier_id),
            ),
            writes: env.state.writes + seq![
                DataKey::Tier(tier_id),
                DataKey::TierCount,
                DataKey::CreatorTiers(creator),
            ],
            ..env.state
        },
        effects: env.effects + seq![
            Effect::RequireAuth(creator),
            Effect::Publish(Event::TierCreated { tier_id, creator, price, duration }),
        ],
        ..env
    }
}

/// Why a creator cannot deactivate a tier.
pub open spec fn deactivation_refusal(env: EnvView, creator: Address, tier_id: u32) -> Option<
    Failure,
> {
    if !env.state.tiers.contains_key(tier_id) {
        abort(Abort::TierNotFound)
    } else if env.state.tiers[tier_id].creator != creator {
        abort(Abort::NotTierCreator)
    } else if !env.state.tiers[tier_id].active {
        abort(Abort::TierAlreadyInactive)
    } else {
        None
    }
}

/// The ledger with a tier replaced and two effects added: the change of a tier
/// that its creator signs for.
pub open spec fn tier_changed(
    env: EnvView,
    creator: Address,
    tier_id: u32,
    tier: TierView,
    event: Event,
) -> EnvView {
    EnvView {
        state: StorageView {
            tiers: env.state.tiers.insert(tier_id, tier),
            writes: env.state.writes.push(DataKey::Tier(tier_id)),
            ..env.state
        },
        effects: env.effects + seq![Effect::RequireAuth(creator), Effect::Publish(event)],
        ..env
    }
}

/// The ledger with a tier deactivated.
pub open spec fn deactivated(env: EnvView, creator: Address, tier_id: u32) -> EnvView {
    tier_changed(
        env,
        creator,
        tier_id,
        TierView { active: false, ..env.state.tiers[tier_id] },
        Event::TierDeactivated { tier_id, creator },
    )
}

/// Why a creator cannot give a tier a new price: the price must be positive, of
/// the kind that the tier has, and the tier must be the creator's and active.
pub open spec fn repricing_refusal(
    env: EnvView,
    creator: Address,
    tier_id: u32,
    price: TierPriceMode,
) -> Option<Failure> {
    let tier = env.state.tiers[tier_id];
    if price.stored_amount() <= 0 {
        abort(Abort::PriceNotPositive)
    } else if !env.state.tiers.contains_key(tier_id) {
        abort(Abort::TierNotFound)
    } else if tier.creator != creator {
        abort(Abort::NotTierCreator)
    } else if !tier.active {
        abort(Abort::TierNotActive)
    } else if price is Fixed && tier.price is USDDenominated {
        abort(Abort::TierIsUsdDenominated)
    } else if price is USDDenominated && tier.price is Fixed {
        abort(Abort::TierIsFixedPrice)
    } else {
        None
    }
}

/// The ledger with a tier at a new price.
pub open spec fn repriced(
    env: EnvView,
    creator: Address,
    tier_id: u32,
    price: TierPriceMode,
) -> EnvView {
    let tier = env.state.tiers[tier_id];
    tier_changed(
        env,
        creator,
        tier_id,
        TierView { price, ..tier },
        Event::TierPriceUpdated {
            tier_id,
            old_price: tier.price,
            new_price: price.stored_amount(),
        },
    )
}

impl StarPassContract {
    /// Registers an address, which signs, as a creator.
    pub fn register_creator(env: &mut Env, creator: Address) -> (result: Result<(), Failure>)
        ensures
            settles(
                registration_refusal(old(env)@, creator),
                (),
                registered(old(env)@, creator),
                old(env)@,
                result,
                final(env)@,
            ),
    {
        if env.storage.creator(creator).is_some() {
            return Err(Failure::Abort(Abort::CreatorAlreadyRegistered));
        }
        let now: u64 = env.timestamp;
        env.require_auth(creator);
        env.storage.set_creator(
            creator,
            Creator { address: creator, registered_at: now, total_earned: 0, pass_count: 0 },
        );
        env.storage.set_creator_balance(creator, 0);
        env.storage.set_tiers_of_creator(creator, Vec::new());
        env.publish(Event::CreatorRegistered { creator, timestamp: now });
        assert(env@ =~= registered(old(env)@, creator));
        Ok(())
    }

    /// Defines a tier with a fixed price in the payment token. The creator
    /// signs. Returns the tier's number.
    pub fn create_tier(
        env: &mut Env,
        creator: Address,
        name: Vec<u8>,
        price: i128,
        duration: u64,
        max_supply: u32,
        permissions: Vec<Symbol>,
    ) -> (result: Result<u32, Failure>)
        ensures
            settles(
                tier_refusal(old(env)@, creator, name@, TierPriceMode::Fixed(price), duration),
                next_tier_id(old(env)@),
                tier_created(
                    old(env)@,
                    creator,
                    name@,
                    TierPriceMode::Fixed(price),
                    duration,
                    max_supply,
                    texts(permissions@),
                ),
                old(env)@,
                result,
                final(env)@,
            ),
    {
        Self::create_tier_priced(
            env,
            creator,
            name,
            TierPriceMode::Fixed(price),
            duration,
            max_supply,
            permissions,
        )
    }

    /// Defines a tier priced in USD cents. The creator signs. Returns the
    /// tier's number.
    pub fn create_tier_usd(
        env: &mut Env,
        creator: Address,
        name: Vec<u8>,
        usd_price_cents: i128,
        duration: u64,
        max_supply: u32,
        permissions: Vec<Symbol>,
    ) -> (result: Result<u32, Failure>)
        ensures
            settles(
                tier_refusal(
                    old(env)@,
                    creator,
                    name@,
                    TierPriceMode::USDDenominated(usd_price_cents),
                    duration,
                ),
                next_tier_id(old(env)@),
                tier_created(
                    old(env)@,
                    creator,
                    name@,
                    TierPriceMode::USDDenominated(usd_price_cents),
                    duration,
                    max_supply,
                    texts(permissions@),
                ),
                old(env)@,
                result,
                final(env)@,
            ),
    {
        Self::create_tier_priced(
            env,
            creator,
            name,
            TierPriceMode::USDDenominated(usd_price_cents),
            duration,
            max_supply,
            permissions,
        )
    }

    /// Defines a tier with a price of either kind.
    fn create_tier_priced(
        env: &mut Env,
        creator: Address,
        name: Vec<u8>,
        price: TierPriceMode,
        duration: u64,
        max_supply: u32,
        permissions: Vec<Symbol>,
    ) -> (result: Result<u32, Failure>)
        ensures
            settles(
                tier_refusal(old(env)@, creator, name@, price, duration),
                next_tier_id(old(env)@),
                tier_created(
                    old(env)@,
                    creator,
                    name@,
                    price,
                    duration,
                    max_supply,
                    texts(permissions@),
                ),
                old(env)@,
                result,
                final(env)@,
            ),
    {
        if price.amount() <= 0 {
            return Err(Failure::Abort(Abort::PriceNotPositive));
        }
        if env.storage.creator(creator).is_none() {
            return Err(Failure::Abort(Abort::CreatorNotRegistered));
        }
        if duration == 0 {
            return Err(Failure::Abort(Abort::DurationZero));
        }
        if name.len() == 0 {
            return Err(Failure::Abort(Abort::NameEmpty));
        }
        let count: u32 = match env.storage.tier_count() {
            Some(count) => count,
            None => 0,
        };
        if count == u32::MAX {
            return Err(Failure::Abort(Abort::ArithmeticOverflow));
        }
        let tier_id: u32 = count + 1;
        let ghost title = name@;
        let ghost listed = texts(permissions@);

        env.require_auth(creator);
        env.storage.set_tier(
            tier_id,
            Tier {
                tier_id,
                creator,
                name,
                price,
                duration,
                max_supply,
                minted: 0,
                active: true,
                permissions,
            },
        );
        env.storage.set_tier_count(tier_id);

        let mut tiers: Vec<u32> = match env.storage.tiers_of_creator(creator) {
            Some(tiers) => tiers,
            None => Vec::new(),
        };
        tiers.push(tier_id);
        env.storage.set_tiers_of_creator(creator, tiers);

        env.publish(Event::TierCreated { tier_id, creator, price, duration });
        assert(env@ =~= tier_created(
            old(env)@,
            creator,
            title,
            price,
            duration,
            max_supply,
            listed,
        ));
        Ok(tier_id)
    }

    /// Ends the sale of a tier. Passes of it stay valid until they expire. The
    /// creator signs.
    pub fn deactivate_tier(env: &mut Env, creator: Address, tier_id: u32) -> (result: Result<
        (),
        Failure,
    >)
        ensures
            settles(
                deactivation_refusal(old(env)@, creator, tier_id),
                (),
                deactivated(old(env)@, creator, tier_id),
                old(env)@,
                result,
                final(env)@,
            ),
    {
        let mut tier = match env.storage.tier(tier_id) {
            Some(tier) => tier,
            None => return Err(Failure::Abort(Abort::TierNotFound)),
        };
        if tier.creator != creator {
            return Err(Failure::Abort(Abort::NotTierCreator));
        }
        if !tier.active {
            return Err(Failure::Abort(Abort::TierAlreadyInactive));
        }
        tier.active = false;

        env.require_auth(creator);
        env.storage.set_tier(tier_id, tier);
        env.publish(Event::TierDeactivated { tier_id, creator });
        assert(env@ =~= deactivated(old(env)@, creator, tier_id));
        Ok(())
    }

    /// Gives a fixed-price tier a new price for future sales. The creator signs.
    pub fn update_tier_price(env: &mut Env, creator: Address, tier_id: u32, new_price: i128) -> (
    result: Result<(), Failure>)
        ensures
            settles(
                repricing_refusal(old(env)@, creator, tier_id, TierPriceMode::Fixed(new_price)),
                (),
                repriced(old(env)@, creator, tier_id, TierPriceMode::Fixed(new_price)),
                old(env)@,
                result,
                final(env)@,
            ),
    {
        Self::reprice(env, creator, tier_id, TierPriceMode::Fixed(new_price))
    }

    /// Gives a tier priced in USD a new price, in cents, for future sales. The
    /// creator signs.
    pub fn update_tier_price_usd(
        env: &mut Env,
        creator: Address,
        tier_id: u32,
        new_usd_price_cents: i128,
    ) -> (result: Result<(), Failure>)
        ensures
            settles(
                repricing_refusal(
                    old(env)@,
                    creator,
                    tier_id,
                    TierPriceMode::USDDenominated(new_usd_price_cents),
                ),
                (),
                repriced(
                    old(env)@,
                    creator,
                    tier_id,
                    TierPriceMode::USDDenominated(new_usd_price_cents),
                ),
                old(env)@,
                result,
                final(env)@,
            ),
    {
        Self::reprice(env, creator, tier_id, TierPriceMode::USDDenominated(new_usd_price_cents))
    }

    /// Gives a tier a new price of the kind that it has.
    fn reprice(env: &mut Env, creator: Address, tier_id: u32, price: TierPriceMode) -> (result:
        Result<(), Failure>)
        ensures
            settles(
                repricing_refusal(old(env)@, creator, tier_id, price),
                (),
                repriced(old(env)@, creator, tier_id, price),
                old(env)@,
                result,
                final(env)@,
            ),
    {
        if price.amount() <= 0 {
            return Err(Failure::Abort(Abort::PriceNotPositive));
        }
        let mut tier = match env.storage.tier(tier_id) {
            Some(tier) => tier,
            None => return Err(Failure::Abort(Abort::TierNotFound)),
        };
        if tier.creator != creator {
            return Err(Failure::Abort(Abort::NotTierCreator));
        }
        if !tier.active {
            return Err(Failure::Abort(Abort::TierNotActive));
        }
        match (price, tier.price) {
            (TierPriceMode::Fixed(_), TierPriceMode::USDDenominated(_)) => {
                return Err(Failure::Abort(Abort::TierIsUsdDenominated));
            },
            (TierPriceMode::USDDenominated(_), TierPriceMode::Fixed(_)) => {
                return Err(Failure::Abort(Abort::TierIsFixedPrice));
            },
            _ => {},
        }
        let old_price = tier.price;
        tier.price = price;

        env.require_auth(creator);
        env.storage.set_tier(tier_id, tier);
        env.publish(
            Event::TierPriceUpdated { tier_id, old_price, new_price: price.amount() },
        );
        assert(env@ =~= repriced(old(env)@, creator, tier_id, price));
        Ok(())
    }
}

} // verus!
