//! Buying, renewing, pausing and resuming passes.

use vstd::prelude::*;

use crate::address::Address;
use crate::contract::StarPassContract;
use crate::effect::{Effect, Event};
use crate::env::{settles, Env, EnvView};
use crate::failure::{abort, Abort, Failure};
use crate::permissions::{all_listed, covered};
use crate::pricing::{
    creator_amount, price_amount, resolve_price_amount, split_price, splits, value_or,
    OracleInterface, Quote,
};
use crate::storage::StorageView;
use crate::types::{
    texts, Creator, DataKey, EarningKey, Pass, PassView, PendingEarning, Symbol, Tier,
    TierPriceMode, TierView,
};

verus! {

/// The protocol fee in force.
pub open spec fn fee_in_force(env: EnvView) -> int {
    value_or(env.state.protocol_fee_bps, 0) as int
}

/// The number that the next earning of `creator` gets.
pub open spec fn next_earning_id(env: EnvView, creator: Address) -> u64 {
    value_or(crate::table::lookup(env.state.earning_counts, creator), 0)
}

/// `a + b`, or the greatest `u64` where that does not fit.
pub open spec fn saturating_sum(a: u64, b: u64) -> u64 {
    if a + b > u64::MAX {
        u64::MAX
    } else {
        (a + b) as u64
    }
}

/// The escrow record of a payment of `amount` to `creator`: locked for the lock
/// period from now on.
pub open spec fn new_earning(
    env: EnvView,
    creator: Address,
    token: Address,
    amount: i128,
) -> PendingEarning {
    PendingEarning {
        creator,
        amount,
        token,
        unlocks_at: saturating_sum(env.now, value_or(env.state.lock_period_seconds, 0)),
        released: false,
        earning_id: next_earning_id(env, creator),
    }
}

/// The event of a new earning.
pub open spec fn earning_event(earning: PendingEarning) -> Effect {
    Effect::Publish(
        Event::EarningPending {
            creator: earning.creator,
            earning_id: earning.earning_id,
            amount: earning.amount,
            unlocks_at: earning.unlocks_at,
        },
    )
}

/// The ledger with a payment of `amount` to `creator` put into escrow.
pub open spec fn escrowed(
    env: EnvView,
    creator: Address,
    token: Address,
    amount: i128,
) -> EnvView {
    let earning = new_earning(env, creator, token, amount);
    EnvView {
        state: StorageView {
            earning_counts: env.state.earning_counts.insert(
                creator,
                (earning.earning_id + 1) as u64,
            ),
            earnings: env.state.earnings.insert(
                EarningKey { creator, earning_id: earning.earning_id },
                earning,
            ),
            writes: env.state.writes.push(DataKey::PendingEarningCount(creator)).push(
                DataKey::PendingEarning(creator, earning.earning_id),
            ),
            ..env.state
        },
        effects: env.effects.push(earning_event(earning)),
        ..env
    }
}

/// Puts a payment of `amount` to `creator` into escrow.
fn escrow(env: &mut Env, creator: Address, token: Address, amount: i128)
    requires
        next_earning_id(old(env)@, creator) < u64::MAX,
    ensures
        final(env)@ == escrowed(old(env)@, creator, token, amount),
{
    let earning_id: u64 = match env.storage.earning_count(creator) {
        Some(count) => count,
        None => 0,
    };
    let lock_period: u64 = match env.storage.lock_period_seconds() {
        Some(period) => period,
        None => 0,
    };
    let unlocks_at: u64 = env.timestamp.saturating_add(lock_period);
    let earning = PendingEarning {
        creator,
        amount,
        token,
        unlocks_at,
        released: false,
        earning_id,
    };
    env.storage.set_earning_count(creator, earning_id + 1);
    env.storage.set_earning(creator, earning_id, earning);
    env.publish(Event::EarningPending { creator, earning_id, amount, unlocks_at });
    assert(env@ =~= escrowed(old(env)@, creator, token, amount));
}

// ------------------------------------------------------------
// Minting
// ------------------------------------------------------------

/// Why a pass of the tier cannot be sold, whatever it costs.
pub open spec fn sale_refusal(
    env: EnvView,
    tier_id: u32,
    pass_permissions: Seq<Seq<char>>,
) -> Option<Failure> {
    let tier = env.state.tiers[tier_id];
    if !env.state.tiers.contains_key(tier_id) {
        abort(Abort::TierNotFound)
    } else if !tier.active {
        abort(Abort::TierNotActive)
    } else if tier.max_supply != 0 && tier.minted >= tier.max_supply {
        abort(Abort::TierSoldOut)
    } else if !covered(pass_permissions, tier.permissions) {
        abort(Abort::PermissionNotInTier)
    } else if env.state.token is None {
        abort(Abort::TokenNotSet)
    } else {
        None
    }
}

/// The number that the next pass gets.
pub open spec fn next_pass_id(env: EnvView) -> u64 {
    (value_or(env.state.pass_count, 0) + 1) as u64
}

/// Why a payment of `amount` to `creator` cannot be taken.
pub open spec fn payment_refusal(env: EnvView, creator: Address, amount: i128) -> Option<Failure> {
    if !splits(amount as int, fee_in_force(env)) {
        abort(Abort::ArithmeticOverflow)
    } else if next_earning_id(env, creator) == u64::MAX {
        abort(Abort::ArithmeticOverflow)
    } else if !env.state.creators.contains_key(creator) {
        abort(Abort::CreatorNotFound)
    } else if env.state.creators[creator].total_earned + creator_amount(
        amount as int,
        fee_in_force(env),
    ) > i128::MAX || env.state.creators[creator].total_earned + creator_amount(
        amount as int,
        fee_in_force(env),
    ) < i128::MIN {
        abort(Abort::ArithmeticOverflow)
    } else {
        None
    }
}

/// Why a pass is not minted, given the oracle's answer.
pub open spec fn mint_refusal(
    env: EnvView,
    tier_id: u32,
    pass_permissions: Seq<Seq<char>>,
    quote: Option<Quote>,
) -> Option<Failure> {
    let tier = env.state.tiers[tier_id];
    match sale_refusal(env, tier_id, pass_permissions) {
        Some(reason) => Some(reason),
        None => match price_amount(env, tier.price, quote) {
            Err(reason) => Some(reason),
            Ok(amount) => match payment_refusal(env, tier.creator, amount) {
                Some(reason) => Some(reason),
                None => if env.state.creators[tier.creator].pass_count == u64::MAX || value_or(
                    env.state.pass_count,
                    0,
                ) == u64::MAX || env.now + tier.duration > u64::MAX || tier.minted == u32::MAX {
                    abort(Abort::ArithmeticOverflow)
                } else {
                    None
                },
            },
        },
    }
}

/// The pass that a fan gets.
pub open spec fn new_pass(
    env: EnvView,
    fan: Address,
    tier_id: u32,
    pass_permissions: Seq<Seq<char>>,
) -> PassView {
    let tier = env.state.tiers[tier_id];
    PassView {
        pass_id: next_pass_id(env),
        tier_id,
        creator: tier.creator,
        owner: fan,
        token: env.state.token->0,
        purchased_at: env.now,
        expires_at: (env.now + tier.duration) as u64,
        active: true,
        paused: false,
        paused_at: 0,
        total_paused_seconds: 0,
        pass_permissions,
    }
}

/// The passes on record for a fan.
pub open spec fn passes_of(env: EnvView, fan: Address) -> Seq<u64> {
    value_or(crate::table::lookup(env.state.fan_passes, fan), Seq::empty())
}

/// The ledger after a fan has bought a pass: the payment is asked for, the
/// creator's part is in escrow and in the profile, and the pass is on record.
pub open spec fn minted(
    env: EnvView,
    fan: Address,
    tier_id: u32,
    pass_permissions: Seq<Seq<char>>,
    quote: Option<Quote>,
) -> EnvView {
    let tier = env.state.tiers[tier_id];
    let token = env.state.token->0;
    let amount = price_amount(env, tier.price, quote)->Ok_0;
    let earned = creator_amount(amount as int, fee_in_force(env)) as i128;
    let earning = new_earning(env, tier.creator, token, earned);
    let profile = env.state.creators[tier.creator];
    let pass = new_pass(env, fan, tier_id, pass_permissions);
    EnvView {
        state: StorageView {
            earning_counts: env.state.earning_counts.insert(
                tier.creator,
                (earning.earning_id + 1) as u64,
            ),
            earnings: env.state.earnings.insert(
                EarningKey { creator: tier.creator, earning_id: earning.earning_id },
                earning,
            ),
            creators: env.state.creators.insert(
                tier.creator,
                Creator {
                    total_earned: (profile.total_earned + earned) as i128,
                    pass_count: (profile.pass_count + 1) as u64,
                    ..profile
                },
            ),
            passes: env.state.passes.insert(pass.pass_id, pass),
            pass_count: Some(pass.pass_id),
            tiers: env.state.tiers.insert(
                tier_id,
                TierView { minted: (tier.minted + 1) as u32, ..tier },
            ),
            fan_passes: env.state.fan_passes.insert(fan, passes_of(env, fan).push(pass.pass_id)),
            writes: env.state.writes + seq![
                DataKey::PendingEarningCount(tier.creator),
                DataKey::PendingEarning(tier.creator, earning.earning_id),
                DataKey::Creator(tier.creator),
                DataKey::Pass(pass.pass_id),
                DataKey::PassCount,
                DataKey::Tier(tier_id),
                DataKey::FanPasses(fan),
            ],
            ..env.state
        },
        effects: env.effects + seq![
            Effect::RequireAuth(fan),
            Effect::Transfer { token, from: fan, to: env.contract, amount },
            earning_event(earning),
            Effect::Publish(
                Event::PassMinted {
                    pass_id: pass.pass_id,
                    tier_id,
                    fan,
                    expires_at: pass.expires_at,
                },
            ),
        ],
        ..env
    }
}

/// Whom to ask for a quote before a price can be resolved, and for which token:
/// nobody for a fixed price, nor where no oracle is configured.
pub open spec fn quote_request(env: EnvView, price: TierPriceMode) -> Option<(Address, Address)> {
    match (price, env.state.oracle, env.state.token) {
        (TierPriceMode::USDDenominated(_), Some(oracle), Some(token)) => Some((oracle, token)),
        _ => None,
    }
}

/// Whether `quote` is what came of asking `oracle` as `request` says.
pub open spec fn answers<O: OracleInterface>(
    oracle: &O,
    request: Option<(Address, Address)>,
    quote: Option<Quote>,
) -> bool {
    match (request, quote) {
        (Some((address, token)), Some(answer)) => call_ensures(
            O::get_price,
            (oracle, address, token),
            answer,
        ),
        (None, None) => true,
        _ => false,
    }
}

/// Asks the configured oracle for a quote, if the price needs one.
fn ask_oracle<O: OracleInterface>(env: &Env, oracle: &O, price: TierPriceMode) -> (quote: Option<
    Quote,
>)
    ensures
        answers(oracle, quote_request(env@, price), quote),
{
    match price {
        TierPriceMode::Fixed(_) => None,
        TierPriceMode::USDDenominated(_) => match (env.storage.oracle(), env.storage.token()) {
            (Some(address), Some(token)) => Some(oracle.get_price(address, token)),
            _ => None,
        },
    }
}

// ------------------------------------------------------------
// Renewal
// ------------------------------------------------------------

/// Why a fan cannot renew a pass, whatever it costs.
pub open spec fn renewal_refusal(env: EnvView, fan: Address, pass_id: u64) -> Option<Failure> {
    let pass = env.state.passes[pass_id];
    if !env.state.passes.contains_key(pass_id) {
        abort(Abort::PassNotFound)
    } else if pass.owner != fan {
        abort(Abort::NotPassOwner)
    } else if !pass.active {
        abort(Abort::PassNotActive)
    } else if !env.state.tiers.contains_key(pass.tier_id) {
        abort(Abort::TierNotFound)
    } else if env.state.token is None {
        abort(Abort::TokenNotSet)
    } else {
        None
    }
}

/// The later of two times.
pub open spec fn later(a: u64, b: u64) -> u64 {
    if a > b {
        a
    } else {
        b
    }
}

/// When a renewed pass expires: one tier duration after its present expiry, or
/// after now if it has expired.
pub open spec fn renewed_expiry(env: EnvView, pass_id: u64) -> int {
    let pass = env.state.passes[pass_id];
    later(pass.expires_at, env.now) + env.state.tiers[pass.tier_id].duration
}

/// Why a pass is not renewed, given the oracle's answer.
pub open spec fn renew_refusal(
    env: EnvView,
    fan: Address,
    pass_id: u64,
    quote: Option<Quote>,
) -> Option<Failure> {
    let tier = env.state.tiers[env.state.passes[pass_id].tier_id];
    match renewal_refusal(env, fan, pass_id) {
        Some(reason) => Some(reason),
        None => match price_amount(env, tier.price, quote) {
            Err(reason) => Some(reason),
            Ok(amount) => match payment_refusal(env, tier.creator, amount) {
                Some(reason) => Some(reason),
                None => if renewed_expiry(env, pass_id) > u64::MAX {
                    abort(Abort::ArithmeticOverflow)
                } else {
                    None
                },
            },
        },
    }
}

/// The ledger after a fan has renewed a pass: the payment is asked for, the
/// creator's part is in escrow and in the profile, and the pass lasts longer.
pub open spec fn renewed(
    env: EnvView,
    fan: Address,
    pass_id: u64,
    quote: Option<Quote>,
) -> EnvView {
    let pass = env.state.passes[pass_id];
    let tier = env.state.tiers[pass.tier_id];
    let token = env.state.token->0;
    let amount = price_amount(env, tier.price, quote)->Ok_0;
    let earned = creator_amount(amount as int, fee_in_force(env)) as i128;
    let earning = new_earning(env, tier.creator, token, earned);
    let profile = env.state.creators[tier.creator];
    let expires_at = renewed_expiry(env, pass_id) as u64;
    EnvView {
        state: StorageView {
            earning_counts: env.state.earning_counts.insert(
                tier.creator,
                (earning.earning_id + 1) as u64,
            ),
            earnings: env.state.earnings.insert(
                EarningKey { creator: tier.creator, earning_id: earning.earning_id },
                earning,
            ),
            creators: env.state.creators.insert(
                tier.creator,
                Creator { total_earned: (profile.total_earned + earned) as i128, ..profile },
            ),
            passes: env.state.passes.insert(pass_id, PassView { expires_at, ..pass }),
            writes: env.state.writes + seq![
                DataKey::PendingEarningCount(tier.creator),
                DataKey::PendingEarning(tier.creator, earning.earning_id),
                DataKey::Creator(tier.creator),
                DataKey::Pass(pass_id),
            ],
            ..env.state
        },
        effects: env.effects + seq![
            Effect::RequireAuth(fan),
            Effect::Transfer { token, from: fan, to: env.contract, amount },
            earning_event(earning),
            Effect::Publish(Event::PassRenewed { pass_id, fan, expires_at }),
        ],
        ..env
    }
}

// ------------------------------------------------------------
// Pausing and resuming
// ------------------------------------------------------------

/// Why a fan cannot pause a pass.
pub open spec fn pause_refusal(env: EnvView, fan: Address, pass_id: u64) -> Option<Failure> {
    let pass = env.state.passes[pass_id];
    if !env.state.passes.contains_key(pass_id) {
        abort(Abort::PassNotFound)
    } else if pass.owner != fan {
        abort(Abort::NotPassOwner)
    } else if !pass.active {
        abort(Abort::PassNotActive)
    } else if pass.paused {
        abort(Abort::PassAlreadyPaused)
    } else if pass.expires_at <= env.now {
        abort(Abort::PassExpired)
    } else {
        None
    }
}

/// The ledger with a pass replaced and two effects added: the change of a pass
/// that its owner signs for.
pub open spec fn pass_changed(
    env: EnvView,
    fan: Address,
    pass_id: u64,
    pass: PassView,
    event: Event,
) -> EnvView {
    EnvView {
        state: StorageView {
            passes: env.state.passes.insert(pass_id, pass),
            writes: env.state.writes.push(DataKey::Pass(pass_id)),
            ..env.state
        },
        effects: env.effects + seq![Effect::RequireAuth(fan), Effect::Publish(event)],
        ..env
    }
}

/// The ledger after a fan has paused a pass.
pub open spec fn paused(env: EnvView, fan: Address, pass_id: u64) -> EnvView {
    pass_changed(
        env,
        fan,
        pass_id,
        PassView { paused: true, paused_at: env.now, ..env.state.passes[pass_id] },
        Event::PassPaused { pass_id, fan, timestamp: env.now },
    )
}

/// Why a fan cannot resume a pass.
pub open spec fn resume_refusal(env: EnvView, fan: Address, pass_id: u64) -> Option<Failure> {
    let pass = env.state.passes[pass_id];
    if !env.state.passes.contains_key(pass_id) {
        abort(Abort::PassNotFound)
    } else if pass.owner != fan {
        abort(Abort::NotPassOwner)
    } else if !pass.paused {
        abort(Abort::PassNotPaused)
    } else if !pass.active {
        abort(Abort::PassNotActive)
    } else if env.now < pass.paused_at {
        abort(Abort::ArithmeticOverflow)
    } else {
        None
    }
}

/// The ledger after a fan has resumed a pass: its expiry is put off by the time
/// that it was paused.
pub open spec fn resumed(env: EnvView, fan: Address, pass_id: u64) -> EnvView {
    let pass = env.state.passes[pass_id];
    let paused_duration = (env.now - pass.paused_at) as u64;
    pass_changed(
        env,
        fan,
        pass_id,
        PassView {
            expires_at: saturating_sum(pass.expires_at, paused_duration),
            total_paused_seconds: saturating_sum(pass.total_paused_seconds, paused_duration),
            paused: false,
            paused_at: 0,
            ..pass
        },
        Event::PassResumed { pass_id, fan, timestamp: env.now, paused_duration },
    )
}

impl StarPassContract {
    /// Checks that a pass of the tier can be sold.
    fn check_sale(env: &Env, tier_id: u32, pass_permissions: &Vec<Symbol>) -> (found: Result<
        (Tier, Address),
        Failure,
    >)
        ensures
            match found {
                Ok((tier, token)) => {
                    &&& sale_refusal(env@, tier_id, texts(pass_permissions@)) is None
                    &&& env@.state.tiers.contains_key(tier_id)
                    &&& tier@ == env@.state.tiers[tier_id]
                    &&& env@.state.token == Some(token)
                },
                Err(reason) => sale_refusal(env@, tier_id, texts(pass_permissions@)) == Some(
                    reason,
                ),
            },
    {
        let tier = match env.storage.tier(tier_id) {
            Some(tier) => tier,
            None => return Err(Failure::Abort(Abort::TierNotFound)),
        };
        if !tier.active {
            return Err(Failure::Abort(Abort::TierNotActive));
        }
        if tier.max_supply != 0 && tier.minted >= tier.max_supply {
            return Err(Failure::Abort(Abort::TierSoldOut));
        }
        if !all_listed(pass_permissions, &tier.permissions) {
            return Err(Failure::Abort(Abort::PermissionNotInTier));
        }
        match env.storage.token() {
            Some(token) => Ok((tier, token)),
            None => Err(Failure::Abort(Abort::TokenNotSet)),
        }
    }

    /// Checks that a payment of `amount` to `creator` can be taken. Returns the
    /// creator's part of it and the creator's profile with that part added.
    fn check_payment(env: &Env, creator: Address, amount: i128) -> (found: Result<
        (i128, Creator),
        Failure,
    >)
        ensures
            match found {
                Ok((earned, profile)) => {
                    &&& payment_refusal(env@, creator, amount) is None
                    &&& earned == creator_amount(amount as int, fee_in_force(env@))
                    &&& env@.state.creators.contains_key(creator)
                    &&& profile == (Creator {
                        total_earned: (env@.state.creators[creator].total_earned + earned) as i128,
                        ..env@.state.creators[creator]
                    })
                    &&& next_earning_id(env@, creator) < u64::MAX
                },
                Err(reason) => payment_refusal(env@, creator, amount) == Some(reason),
            },
    {
        let fee_bps: u32 = match env.storage.protocol_fee_bps() {
            Some(fee_bps) => fee_bps,
            None => 0,
        };
        let (_, earned) = match split_price(amount, fee_bps) {
            Ok(parts) => parts,
            Err(reason) => return Err(reason),
        };
        let count: u64 = match env.storage.earning_count(creator) {
            Some(count) => count,
            None => 0,
        };
        if count == u64::MAX {
            return Err(Failure::Abort(Abort::ArithmeticOverflow));
        }
        let profile = match env.storage.creator(creator) {
            Some(profile) => profile,
            None => return Err(Failure::Abort(Abort::CreatorNotFound)),
        };
        match profile.total_earned.checked_add(earned) {
            Some(total_earned) => Ok((earned, Creator { total_earned, ..profile })),
            None => Err(Failure::Abort(Abort::ArithmeticOverflow)),
        }
    }

    /// Sells a pass of a tier to a fan, who signs and pays the tier's price.
    /// The creator's part, after the protocol fee, goes into escrow. Returns
    /// the pass's number.
    ///
    /// `quote` is the oracle's answer, where one was asked for: see
    /// [`StarPassContract::mint_pass`].
    pub fn mint_pass_quoted(
        env: &mut Env,
        fan: Address,
        tier_id: u32,
        pass_permissions: Vec<Symbol>,
        quote: Option<Quote>,
    ) -> (result: Result<u64, Failure>)
        ensures
            settles(
                mint_refusal(old(env)@, tier_id, texts(pass_permissions@), quote),
                next_pass_id(old(env)@),
                minted(old(env)@, fan, tier_id, texts(pass_permissions@), quote),
                old(env)@,
                result,
                final(env)@,
            ),
    {
        let ghost permissions = texts(pass_permissions@);
        let (mut tier, token) = match Self::check_sale(env, tier_id, &pass_permissions) {
            Ok(found) => found,
            Err(reason) => return Err(reason),
        };
        let amount: i128 = match resolve_price_amount(env, &tier, quote) {
            Ok(amount) => amount,
            Err(reason) => return Err(reason),
        };
        let creator = tier.creator;
        let (earned, mut profile) = match Self::check_payment(env, creator, amount) {
            Ok(found) => found,
            Err(reason) => return Err(reason),
        };
        let pass_count: u64 = match env.storage.pass_count() {
            Some(count) => count,
            None => 0,
        };
        let now: u64 = env.timestamp;
        if profile.pass_count == u64::MAX || pass_count == u64::MAX || tier.minted == u32::MAX {
            return Err(Failure::Abort(Abort::ArithmeticOverflow));
        }
        let expires_at: u64 = match now.checked_add(tier.duration) {
            Some(expires_at) => expires_at,
            None => return Err(Failure::Abort(Abort::ArithmeticOverflow)),
        };
        let pass_id: u64 = pass_count + 1;

        env.require_auth(fan);
        env.transfer(token, fan, env.contract, amount);
        escrow(env, creator, token, earned);

        profile.pass_count = profile.pass_count + 1;
        env.storage.set_creator(creator, profile);

        let pass = Pass {
            pass_id,
            tier_id,
            creator,
            owner: fan,
            token,
            purchased_at: now,
            expires_at,
            active: true,
            paused: false,
            paused_at: 0,
            total_paused_seconds: 0,
            pass_permissions,
        };
        env.storage.set_pass(pass_id, pass);
        env.storage.set_pass_count(pass_id);

        tier.minted = tier.minted + 1;
        env.storage.set_tier(tier_id, tier);

        let mut passes: Vec<u64> = match env.storage.passes_of_fan(fan) {
            Some(passes) => passes,
            None => Vec::new(),
        };
        passes.push(pass_id);
        env.storage.set_passes_of_fan(fan, passes);

        env.publish(Event::PassMinted { pass_id, tier_id, fan, expires_at });
        assert(env@ =~= minted(old(env)@, fan, tier_id, permissions, quote));
        Ok(pass_id)
    }

    /// Sells a pass of a tier to a fan, asking the configured oracle for a
    /// quote if the tier is priced in USD.
    pub fn mint_pass<O: OracleInterface>(
        env: &mut Env,
        oracle: &O,
        fan: Address,
        tier_id: u32,
        pass_permissions: Vec<Symbol>,
    ) -> (result: Result<u64, Failure>)
        ensures
            match sale_refusal(old(env)@, tier_id, texts(pass_permissions@)) {
                Some(reason) => result == Err::<u64, Failure>(reason) && final(env)@ == old(env)@,
                None => exists|quote: Option<Quote>| #[trigger]
                    answers(
                        oracle,
                        quote_request(old(env)@, old(env)@.state.tiers[tier_id].price),
                        quote,
                    ) && settles(
                        mint_refusal(old(env)@, tier_id, texts(pass_permissions@), quote),
                        next_pass_id(old(env)@),
                        minted(old(env)@, fan, tier_id, texts(pass_permissions@), quote),
                        old(env)@,
                        result,
                        final(env)@,
                    ),
            },
    {
        let (tier, _) = match Self::check_sale(env, tier_id, &pass_permissions) {
            Ok(found) => found,
            Err(reason) => return Err(reason),
        };
        let quote = ask_oracle(env, oracle, tier.price);
        Self::mint_pass_quoted(env, fan, tier_id, pass_permissions, quote)
    }

    /// Checks that a fan can renew a pass.
    fn check_renewal(env: &Env, fan: Address, pass_id: u64) -> (found: Result<
        (Pass, Tier, Address),
        Failure,
    >)
        ensures
            match found {
                Ok((pass, tier, token)) => {
                    &&& renewal_refusal(env@, fan, pass_id) is None
                    &&& pass@ == env@.state.passes[pass_id]
                    &&& tier@ == env@.state.tiers[pass@.tier_id]
                    &&& env@.state.token == Some(token)
                },
                Err(reason) => renewal_refusal(env@, fan, pass_id) == Some(reason),
            },
    {
        let pass = match env.storage.pass(pass_id) {
            Some(pass) => pass,
            None => return Err(Failure::Abort(Abort::PassNotFound)),
        };
        if pass.owner != fan {
            return Err(Failure::Abort(Abort::NotPassOwner));
        }
        if !pass.active {
            return Err(Failure::Abort(Abort::PassNotActive));
        }
        let tier = match env.storage.tier(pass.tier_id) {
            Some(tier) => tier,
            None => return Err(Failure::Abort(Abort::TierNotFound)),
        };
        match env.storage.token() {
            Some(token) => Ok((pass, tier, token)),
            None => Err(Failure::Abort(Abort::TokenNotSet)),
        }
    }

    /// Renews a fan's pass: the fan signs and pays the tier's price again, split
    /// as at minting, and the pass lasts one tier duration longer, from its
    /// expiry or from now, whichever is later. Returns the new expiry.
    ///
    /// `quote` is the oracle's answer, where one was asked for: see
    /// [`StarPassContract::renew_pass`].
    pub fn renew_pass_quoted(
        env: &mut Env,
        fan: Address,
        pass_id: u64,
        quote: Option<Quote>,
    ) -> (result: Result<u64, Failure>)
        ensures
            settles(
                renew_refusal(old(env)@, fan, pass_id, quote),
                renewed_expiry(old(env)@, pass_id) as u64,
                renewed(old(env)@, fan, pass_id, quote),
                old(env)@,
                result,
                final(env)@,
            ),
    {
        let (mut pass, tier, token) = match Self::check_renewal(env, fan, pass_id) {
            Ok(found) => found,
            Err(reason) => return Err(reason),
        };
        let amount: i128 = match resolve_price_amount(env, &tier, quote) {
            Ok(amount) => amount,
            Err(reason) => return Err(reason),
        };
        let creator = tier.creator;
        let (earned, profile) = match Self::check_payment(env, creator, amount) {
            Ok(found) => found,
            Err(reason) => return Err(reason),
        };
        let now: u64 = env.timestamp;
        let extend_from: u64 = if pass.expires_at > now {
            pass.expires_at
        } else {
            now
        };
        let expires_at: u64 = match extend_from.checked_add(tier.duration) {
            Some(expires_at) => expires_at,
            None => return Err(Failure::Abort(Abort::ArithmeticOverflow)),
        };

        env.require_auth(fan);
        env.transfer(token, fan, env.contract, amount);
        escrow(env, creator, token, earned);
        env.storage.set_creator(creator, profile);

        pass.expires_at = expires_at;
        env.storage.set_pass(pass_id, pass);

        env.publish(Event::PassRenewed { pass_id, fan, expires_at });
        assert(env@ =~= renewed(old(env)@, fan, pass_id, quote));
        Ok(expires_at)
    }

    /// Renews a fan's pass, asking the configured oracle for a quote if the
    /// tier is priced in USD.
    pub fn renew_pass<O: OracleInterface>(
        env: &mut Env,
        oracle: &O,
        fan: Address,
        pass_id: u64,
    ) -> (result: Result<u64, Failure>)
        ensures
            match renewal_refusal(old(env)@, fan, pass_id) {
                Some(reason) => result == Err::<u64, Failure>(reason) && final(env)@ == old(env)@,
                None => exists|quote: Option<Quote>| #[trigger]
                    answers(
                        oracle,
                        quote_request(
                            old(env)@,
                            old(env)@.state.tiers[old(env)@.state.passes[pass_id].tier_id].price,
                        ),
                        quote,
                    ) && settles(
                        renew_refusal(old(env)@, fan, pass_id, quote),
                        renewed_expiry(old(env)@, pass_id) as u64,
                        renewed(old(env)@, fan, pass_id, quote),
                        old(env)@,
                        result,
                        final(env)@,
                    ),
            },
    {
        let (_, tier, _) = match Self::check_renewal(env, fan, pass_id) {
            Ok(found) => found,
            Err(reason) => return Err(reason),
        };
        let quote = ask_oracle(env, oracle, tier.price);
        Self::renew_pass_quoted(env, fan, pass_id, quote)
    }

    /// Pauses an active pass that has not expired. Its owner signs. While it is
    /// paused the pass gives no access and its time does not run.
    pub fn pause_pass(env: &mut Env, fan: Address, pass_id: u64) -> (result: Result<(), Failure>)
        ensures
            settles(
                pause_refusal(old(env)@, fan, pass_id),
                (),
                paused(old(env)@, fan, pass_id),
                old(env)@,
                result,
                final(env)@,
            ),
    {
        let mut pass = match env.storage.pass(pass_id) {
            Some(pass) => pass,
            None => return Err(Failure::Abort(Abort::PassNotFound)),
        };
        if pass.owner != fan {
            return Err(Failure::Abort(Abort::NotPassOwner));
        }
        if !pass.active {
            return Err(Failure::Abort(Abort::PassNotActive));
        }
        if pass.paused {
            return Err(Failure::Abort(Abort::PassAlreadyPaused));
        }
        let now: u64 = env.timestamp;
        if pass.expires_at <= now {
            return Err(Failure::Abort(Abort::PassExpired));
        }
        pass.paused = true;
        pass.paused_at = now;

        env.require_auth(fan);
        env.storage.set_pass(pass_id, pass);
        env.publish(Event::PassPaused { pass_id, fan, timestamp: now });
        assert(env@ =~= paused(old(env)@, fan, pass_id));
        Ok(())
    }

    /// Resumes a paused pass. Its owner signs. The time that it was paused is
    /// added to its expiry and to its total of paused seconds.
    pub fn resume_pass(env: &mut Env, fan: Address, pass_id: u64) -> (result: Result<(), Failure>)
        ensures
            settles(
                resume_refusal(old(env)@, fan, pass_id),
                (),
                resumed(old(env)@, fan, pass_id),
                old(env)@,
                result,
                final(env)@,
            ),
    {
        let mut pass = match env.storage.pass(pass_id) {
            Some(pass) => pass,
            None => return Err(Failure::Abort(Abort::PassNotFound)),
        };
        if pass.owner != fan {
            return Err(Failure::Abort(Abort::NotPassOwner));
        }
        if !pass.paused {
            return Err(Failure::Abort(Abort::PassNotPaused));
        }
        if !pass.active {
            return Err(Failure::Abort(Abort::PassNotActive));
        }
        let now: u64 = env.timestamp;
        if now < pass.paused_at {
            return Err(Failure::Abort(Abort::ArithmeticOverflow));
        }
        let paused_duration: u64 = now - pass.paused_at;
        pass.expires_at = pass.expires_at.saturating_add(paused_duration);
        pass.total_paused_seconds = pass.total_paused_seconds.saturating_add(paused_duration);
        pass.paused = false;
        pass.paused_at = 0;

        env.require_auth(fan);
        env.storage.set_pass(pass_id, pass);
        env.publish(Event::PassResumed { pass_id, fan, timestamp: now, paused_duration });
        assert(env@ =~= resumed(old(env)@, fan, pass_id));
        Ok(())
    }
}

} // verus!
