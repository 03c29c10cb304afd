//! Sales and renewals, condition by condition and field by field.

use vstd::prelude::*;

use crate::address::Address;
use crate::earnings::due_now;
use crate::effect::{Effect, Event};
use crate::env::EnvView;
use crate::failure::{Abort, Failure};
use crate::laws::terms::{
    law_due_is_unreleased_and_unlocked, law_fee_is_its_share_rounded_down,
};
use crate::passes::{
    mint_refusal, minted, next_earning_id, next_pass_id, payment_refusal, renew_refusal, renewed,
    renewed_expiry, renewal_refusal, sale_refusal,
};
use crate::pricing::{creator_amount, price_amount, Quote};
use crate::storage::StorageView;
use crate::types::{Creator, DataKey, EarningKey, PassView, TierView};

verus! {

// ------------------------------------------------------------
// Conditions
// ------------------------------------------------------------

/// A pass of an active tier that is not sold out can be sold with any of the tier's
/// permissions once the payment token is set. Each reason for a refusal comes
/// exactly if its condition is the first that fails.
pub proof fn law_active_tier_is_for_sale(
    env: EnvView,
    tier_id: u32,
    permissions: Seq<Seq<char>>,
)
    ensures
        ({
            let refusal = sale_refusal(env, tier_id, permissions);
            let tier = env.state.tiers[tier_id];
            let found = env.state.tiers.contains_key(tier_id);
            let active = found && tier.active;
            let left = active && (tier.max_supply == 0 || tier.minted < tier.max_supply);
            let listed = left && forall|i: int|
                0 <= i < permissions.len() ==> tier.permissions.contains(#[trigger] permissions[i]);
            &&& refusal is None <==> listed && env.state.token is Some
            &&& refusal == Some(Failure::Abort(Abort::TierNotFound)) <==> !found
            &&& refusal == Some(Failure::Abort(Abort::TierNotActive)) <==> found && !active
            &&& refusal == Some(Failure::Abort(Abort::TierSoldOut)) <==> active && !left
            &&& refusal == Some(Failure::Abort(Abort::PermissionNotInTier)) <==> left && !listed
            &&& refusal == Some(Failure::Abort(Abort::TokenNotSet)) <==> listed
                && env.state.token is None
        }),
{
}

/// The owner of an active pass can renew it, paused or expired or not, and whether
/// or not its tier is still sold, once the payment token is set. Each reason for a
/// refusal comes exactly if its condition is the first that fails.
pub proof fn law_owner_can_renew_an_active_pass(env: EnvView, fan: Address, pass_id: u64)
    ensures
        ({
            let refusal = renewal_refusal(env, fan, pass_id);
            let pass = env.state.passes[pass_id];
            let found = env.state.passes.contains_key(pass_id);
            let owned = found && pass.owner == fan;
            let active = owned && pass.active;
            let offered = active && env.state.tiers.contains_key(pass.tier_id);
            &&& refusal is None <==> offered && env.state.token is Some
            &&& refusal == Some(Failure::Abort(Abort::PassNotFound)) <==> !found
            &&& refusal == Some(Failure::Abort(Abort::NotPassOwner)) <==> found && !owned
            &&& refusal == Some(Failure::Abort(Abort::PassNotActive)) <==> owned && !active
            &&& refusal == Some(Failure::Abort(Abort::TierNotFound)) <==> active && !offered
            &&& refusal == Some(Failure::Abort(Abort::TokenNotSet)) <==> offered
                && env.state.token is None
        }),
{
}

/// A payment to a registered creator can be taken if its parts, the creator's next
/// total and the creator's next number of earnings fit. Each reason for a refusal
/// comes exactly if its condition is the first that fails.
pub proof fn law_payment_can_be_taken_if_it_fits(env: EnvView, creator: Address, amount: i128)
    ensures
        ({
            let refusal = payment_refusal(env, creator, amount);
            let fee_bps = match env.state.protocol_fee_bps {
                Some(fee_bps) => fee_bps,
                None => 0,
            };
            let earned = creator_amount(amount as int, fee_bps as int);
            let total = env.state.creators[creator].total_earned + earned;
            let last = env.state.earning_counts.contains_key(creator)
                && env.state.earning_counts[creator] == 0xffff_ffff_ffff_ffff;
            let numbered = i128::MIN <= amount * fee_bps <= i128::MAX && i128::MIN <= earned
                <= i128::MAX && !last;
            let known = numbered && env.state.creators.contains_key(creator);
            &&& refusal is None <==> known && i128::MIN <= total <= i128::MAX
            &&& refusal == Some(Failure::Abort(Abort::CreatorNotFound)) <==> numbered && !known
            &&& refusal == Some(Failure::Abort(Abort::ArithmeticOverflow)) <==> !numbered || (known
                && !(i128::MIN <= total <= i128::MAX))
        }),
{
}

/// A sale goes through exactly if the tier is for sale, its price can be resolved,
/// the payment can be taken, and the counts of passes and the expiry fit; else the
/// first of these that fails gives the reason.
pub proof fn law_sale_goes_through_if_all_agrees(
    env: EnvView,
    tier_id: u32,
    permissions: Seq<Seq<char>>,
    quote: Option<Quote>,
)
    ensures
        ({
            let refusal = mint_refusal(env, tier_id, permissions, quote);
            let tier = env.state.tiers[tier_id];
            let offer = sale_refusal(env, tier_id, permissions);
            let owed = price_amount(env, tier.price, quote);
            let payment = payment_refusal(env, tier.creator, owed->Ok_0);
            let fits = {
                &&& env.state.creators[tier.creator].pass_count < 0xffff_ffff_ffff_ffff
                &&& env.state.pass_count != Some(0xffff_ffff_ffff_ffffu64)
                &&& env.now + tier.duration <= 0xffff_ffff_ffff_ffff
                &&& tier.minted < 0xffff_ffff
            };
            &&& refusal is None <==> offer is None && owed is Ok && payment is None && fits
            &&& offer is Some ==> refusal == offer
            &&& offer is None && owed is Err ==> refusal == Some(owed->Err_0)
            &&& offer is None && owed is Ok && payment is Some ==> refusal == payment
            &&& offer is None && owed is Ok && payment is None && !fits ==> refusal == Some(
                Failure::Abort(Abort::ArithmeticOverflow),
            )
        }),
{
}

/// A renewal goes through exactly if the owner can renew the pass, its tier's price
/// can be resolved, the payment can be taken, and the new expiry fits; else the
/// first of these that fails gives the reason.
pub proof fn law_renewal_goes_through_if_all_agrees(
    env: EnvView,
    fan: Address,
    pass_id: u64,
    quote: Option<Quote>,
)
    ensures
        ({
            let refusal = renew_refusal(env, fan, pass_id, quote);
            let pass = env.state.passes[pass_id];
            let tier = env.state.tiers[pass.tier_id];
            let offer = renewal_refusal(env, fan, pass_id);
            let owed = price_amount(env, tier.price, quote);
            let payment = payment_refusal(env, tier.creator, owed->Ok_0);
            let fits = pass.expires_at + tier.duration <= 0xffff_ffff_ffff_ffff && env.now
                + tier.duration <= 0xffff_ffff_ffff_ffff;
            &&& refusal is None <==> offer is None && owed is Ok && payment is None && fits
            &&& offer is Some ==> refusal == offer
            &&& offer is None && owed is Err ==> refusal == Some(owed->Err_0)
            &&& offer is None && owed is Ok && payment is Some ==> refusal == payment
            &&& offer is None && owed is Ok && payment is None && !fits ==> refusal == Some(
                Failure::Abort(Abort::ArithmeticOverflow),
            )
        }),
{
}

// ------------------------------------------------------------
// What is recorded
// ------------------------------------------------------------

/// Of a payment, the protocol keeps the fee's share rounded down, and exactly the
/// rest goes into escrow and into the creator's total, both at a sale and at a
/// renewal.
pub proof fn law_escrow_gets_all_but_the_fee(
    env: EnvView,
    fan: Address,
    tier_id: u32,
    permissions: Seq<Seq<char>>,
    pass_id: u64,
    quote: Option<Quote>,
)
    ensures
        ({
            let tier = env.state.tiers[tier_id];
            let fee_bps = match env.state.protocol_fee_bps {
                Some(fee_bps) => fee_bps,
                None => 0,
            };
            let number = next_earning_id(env, tier.creator);
            let amount = price_amount(env, tier.price, quote)->Ok_0;
            mint_refusal(env, tier_id, permissions, quote) is None && amount >= 0 ==> {
                let after = minted(env, fan, tier_id, permissions, quote).state;
                let earning = after.earnings[EarningKey {
                    creator: tier.creator,
                    earning_id: number,
                }];
                let fee = amount - earning.amount;
                &&& fee * 10_000 <= amount * fee_bps < (fee + 1) * 10_000
                &&& after.creators[tier.creator].total_earned
                    == env.state.creators[tier.creator].total_earned + (amount - fee)
            }
        }),
        ({
            let tier = env.state.tiers[env.state.passes[pass_id].tier_id];
            let fee_bps = match env.state.protocol_fee_bps {
                Some(fee_bps) => fee_bps,
                None => 0,
            };
            let number = next_earning_id(env, tier.creator);
            let amount = price_amount(env, tier.price, quote)->Ok_0;
            renew_refusal(env, fan, pass_id, quote) is None && amount >= 0 ==> {
                let after = renewed(env, fan, pass_id, quote).state;
                let earning = after.earnings[EarningKey {
                    creator: tier.creator,
                    earning_id: number,
                }];
                let fee = amount - earning.amount;
                &&& fee * 10_000 <= amount * fee_bps < (fee + 1) * 10_000
                &&& after.creators[tier.creator].total_earned
                    == env.state.creators[tier.creator].total_earned + (amount - fee)
            }
        }),
{
    let fee_bps = match env.state.protocol_fee_bps {
        Some(fee_bps) => fee_bps,
        None => 0u32,
    };
    let sold = price_amount(env, env.state.tiers[tier_id].price, quote)->Ok_0;
    let again = price_amount(
        env,
        env.state.tiers[env.state.passes[pass_id].tier_id].price,
        quote,
    )->Ok_0;
    if sold >= 0 {
        law_fee_is_its_share_rounded_down(sold as int, fee_bps);
    }
    if again >= 0 {
        law_fee_is_its_share_rounded_down(again as int, fee_bps);
    }
}

/// What is recorded of a sale. The fan pays exactly what is owed, to the contract,
/// and gets the next pass: of the tier, with the permissions chosen, bought now and
/// expiring one tier duration from now, active, and never paused. The tier has
/// minted one more, the creator has sold one more, and the pass ends the fan's list.
/// Nothing else changes but the creator's earnings. The fan signs, and earning and
/// pass are published.
pub proof fn law_sale_is_recorded_as_agreed(
    env: EnvView,
    fan: Address,
    tier_id: u32,
    permissions: Seq<Seq<char>>,
    quote: Option<Quote>,
)
    requires
        mint_refusal(env, tier_id, permissions, quote) is None,
    ensures
        ({
            let tier = env.state.tiers[tier_id];
            let owed = price_amount(env, tier.price, quote);
            let after = minted(env, fan, tier_id, permissions, quote);
            let number = next_pass_id(env);
            let pass = after.state.passes[number];
            let list = after.state.fan_passes[fan];
            let profile = after.state.creators[tier.creator];
            let earning_id = next_earning_id(env, tier.creator);
            let key = EarningKey { creator: tier.creator, earning_id };
            let earning = after.state.earnings[key];
            &&& env.state.pass_count matches Some(last) ==> number == last + 1
            &&& env.state.pass_count is None ==> number == 1
            &&& after.now == env.now && after.contract == env.contract
            &&& after.state == (StorageView {
                passes: after.state.passes,
                pass_count: after.state.pass_count,
                tiers: after.state.tiers,
                fan_passes: after.state.fan_passes,
                creators: after.state.creators,
                earning_counts: after.state.earning_counts,
                earnings: after.state.earnings,
                writes: after.state.writes,
                ..env.state
            })
            &&& after.state.pass_count == Some(number)
            &&& after.state.passes == env.state.passes.insert(number, pass)
            &&& pass.pass_id == number
            &&& pass.tier_id == tier_id
            &&& pass.creator == tier.creator
            &&& pass.owner == fan
            &&& Some(pass.token) == env.state.token
            &&& pass.purchased_at == env.now
            &&& pass.expires_at == env.now + tier.duration
            &&& pass.active
            &&& !pass.paused
            &&& pass.paused_at == 0
            &&& pass.total_paused_seconds == 0
            &&& pass.pass_permissions == permissions
            &&& after.state.tiers == env.state.tiers.insert(tier_id, after.state.tiers[tier_id])
            &&& after.state.tiers[tier_id].minted == tier.minted + 1
            &&& after.state.tiers[tier_id] == (TierView {
                minted: after.state.tiers[tier_id].minted,
                ..tier
            })
            &&& after.state.fan_passes == env.state.fan_passes.insert(fan, list)
            &&& env.state.fan_passes.contains_key(fan) ==> list == env.state.fan_passes[fan].push(
                number,
            )
            &&& !env.state.fan_passes.contains_key(fan) ==> list == seq![number]
            &&& after.state.creators == env.state.creators.insert(tier.creator, profile)
            &&& profile.pass_count == env.state.creators[tier.creator].pass_count + 1
            &&& profile == (Creator {
                pass_count: profile.pass_count,
                total_earned: profile.total_earned,
                ..env.state.creators[tier.creator]
            })
            &&& after.state.earnings == env.state.earnings.insert(key, earning)
            &&& after.state.earning_counts == env.state.earning_counts.insert(
                tier.creator,
                after.state.earning_counts[tier.creator],
            )
            &&& after.state.earning_counts[tier.creator] == earning_id + 1
            &&& owed is Ok
            &&& after.effects == env.effects.push(Effect::RequireAuth(fan)).push(
                Effect::Transfer {
                    token: env.state.token->0,
                    from: fan,
                    to: env.contract,
                    amount: owed->Ok_0,
                },
            ).push(
                Effect::Publish(
                    Event::EarningPending {
                        creator: tier.creator,
                        earning_id,
                        amount: earning.amount,
                        unlocks_at: earning.unlocks_at,
                    },
                ),
            ).push(
                Effect::Publish(
                    Event::PassMinted {
                        pass_id: number,
                        tier_id,
                        fan,
                        expires_at: pass.expires_at,
                    },
                ),
            )
            &&& after.state.writes == env.state.writes.push(
                DataKey::PendingEarningCount(tier.creator),
            ).push(DataKey::PendingEarning(tier.creator, earning_id)).push(
                DataKey::Creator(tier.creator),
            ).push(DataKey::Pass(number)).push(DataKey::PassCount).push(
                DataKey::Tier(tier_id),
            ).push(DataKey::FanPasses(fan))
        }),
{
}

/// What is recorded of a renewal. The fan pays exactly what is owed, to the
/// contract, and the pass lasts one tier duration longer than it would have, or than
/// now if it has expired; the new expiry is what the call returns. Nothing else
/// changes but the creator's earnings. The fan signs, and earning and renewal are
/// published.
pub proof fn law_renewal_is_recorded_as_agreed(
    env: EnvView,
    fan: Address,
    pass_id: u64,
    quote: Option<Quote>,
)
    requires
        renew_refusal(env, fan, pass_id, quote) is None,
    ensures
        ({
            let before = env.state.passes[pass_id];
            let tier = env.state.tiers[before.tier_id];
            let owed = price_amount(env, tier.price, quote);
            let after = renewed(env, fan, pass_id, quote);
            let pass = after.state.passes[pass_id];
            let profile = after.state.creators[tier.creator];
            let earning_id = next_earning_id(env, tier.creator);
            let key = EarningKey { creator: tier.creator, earning_id };
            let earning = after.state.earnings[key];
            &&& after.now == env.now && after.contract == env.contract
            &&& after.state == (StorageView {
                passes: after.state.passes,
                creators: after.state.creators,
                earning_counts: after.state.earning_counts,
                earnings: after.state.earnings,
                writes: after.state.writes,
                ..env.state
            })
            &&& after.state.passes == env.state.passes.insert(pass_id, pass)
            &&& before.expires_at > env.now ==> pass.expires_at == before.expires_at + tier.duration
            &&& before.expires_at <= env.now ==> pass.expires_at == env.now + tier.duration
            &&& renewed_expiry(env, pass_id) == pass.expires_at
            &&& pass == (PassView { expires_at: pass.expires_at, ..before })
            &&& after.state.creators == env.state.creators.insert(tier.creator, profile)
            &&& profile == (Creator {
                total_earned: profile.total_earned,
                ..env.state.creators[tier.creator]
            })
            &&& after.state.earnings == env.state.earnings.insert(key, earning)
            &&& after.state.earning_counts == env.state.earning_counts.insert(
                tier.creator,
                after.state.earning_counts[tier.creator],
            )
            &&& after.state.earning_counts[tier.creator] == earning_id + 1
            &&& owed is Ok
            &&& after.effects == env.effects.push(Effect::RequireAuth(fan)).push(
                Effect::Transfer {
                    token: env.state.token->0,
                    from: fan,
                    to: env.contract,
                    amount: owed->Ok_0,
                },
            ).push(
                Effect::Publish(
                    Event::EarningPending {
                        creator: tier.creator,
                        earning_id,
                        amount: earning.amount,
                        unlocks_at: earning.unlocks_at,
                    },
                ),
            ).push(
                Effect::Publish(
                    Event::PassRenewed { pass_id, fan, expires_at: pass.expires_at },
                ),
            )
            &&& after.state.writes == env.state.writes.push(
                DataKey::PendingEarningCount(tier.creator),
            ).push(DataKey::PendingEarning(tier.creator, earning_id)).push(
                DataKey::Creator(tier.creator),
            ).push(DataKey::Pass(pass_id))
        }),
{
}

/// The earning of a sale at a time, with a lock period, is the creator's, in the
/// payment token, not released, and due at every time later than the lock period
/// after the sale and at no other time: it is locked for the lock period and no
/// longer.
pub proof fn law_earning_of_a_sale_is_locked_for_the_period(
    env: EnvView,
    fan: Address,
    tier_id: u32,
    permissions: Seq<Seq<char>>,
    quote: Option<Quote>,
    at: u64,
)
    requires
        mint_refusal(env, tier_id, permissions, quote) is None,
    ensures
        ({
            let creator = env.state.tiers[tier_id].creator;
            let period = match env.state.lock_period_seconds {
                Some(period) => period,
                None => 0,
            };
            let after = minted(env, fan, tier_id, permissions, quote);
            let earning_id = next_earning_id(env, creator);
            let earning = after.state.earnings[EarningKey { creator, earning_id }];
            &&& earning.creator == creator
            &&& earning.earning_id == earning_id
            &&& Some(earning.token) == env.state.token
            &&& !earning.released
            &&& env.now + period <= u64::MAX ==> earning.unlocks_at == env.now + period
            &&& earning.due(at) <==> at > env.now + period
            &&& due_now(EnvView { now: at, ..after }, creator).contains(earning_id) <==> at
                > env.now + period
        }),
{
    let creator = env.state.tiers[tier_id].creator;
    let after = minted(env, fan, tier_id, permissions, quote);
    lemma_due_exactly_if_unlocked(
        EnvView { now: at, ..after },
        creator,
        next_earning_id(env, creator),
    );
}

/// The earning of a renewal at a time, with a lock period, is the creator's, in the
/// payment token, not released, and due at every time later than the lock period
/// after the renewal and at no other time: it is locked for the lock period and no
/// longer.
pub proof fn law_earning_of_a_renewal_is_locked_for_the_period(
    env: EnvView,
    fan: Address,
    pass_id: u64,
    quote: Option<Quote>,
    at: u64,
)
    requires
        renew_refusal(env, fan, pass_id, quote) is None,
    ensures
        ({
            let creator = env.state.tiers[env.state.passes[pass_id].tier_id].creator;
            let period = match env.state.lock_period_seconds {
                Some(period) => period,
                None => 0,
            };
            let after = renewed(env, fan, pass_id, quote);
            let earning_id = next_earning_id(env, creator);
            let earning = after.state.earnings[EarningKey { creator, earning_id }];
            &&& earning.creator == creator
            &&& earning.earning_id == earning_id
            &&& Some(earning.token) == env.state.token
            &&& !earning.released
            &&& env.now + period <= u64::MAX ==> earning.unlocks_at == env.now + period
            &&& earning.due(at) <==> at > env.now + period
            &&& due_now(EnvView { now: at, ..after }, creator).contains(earning_id) <==> at
                > env.now + period
        }),
{
    let creator = env.state.tiers[env.state.passes[pass_id].tier_id].creator;
    let after = renewed(env, fan, pass_id, quote);
    lemma_due_exactly_if_unlocked(
        EnvView { now: at, ..after },
        creator,
        next_earning_id(env, creator),
    );
}

/// An earning on record is released by the next processing exactly if it is due.
proof fn lemma_due_exactly_if_unlocked(env: EnvView, creator: Address, id: u64)
    requires
        id < next_earning_id(env, creator),
        env.state.earnings.contains_key(EarningKey { creator, earning_id: id }),
    ensures
        due_now(env, creator).contains(id) <==> env.state.earnings[EarningKey {
            creator,
            earning_id: id,
        }].due(env.now),
{
    law_due_is_unreleased_and_unlocked(env, creator, id);
}

} // verus!
