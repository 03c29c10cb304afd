//! The contract's changing functions, each tied to what is said of its call: when it
//! is refused and why, what it returns, and the ledger that it leaves.

use vstd::prelude::*;

use crate::address::{Address, Bytes32};
use crate::admin::{
    admin_refusal, fee_set, fees_refusal, fees_withdrawn, initialize_refusal, initialized,
    lock_period_refusal, lock_period_updated, migrated, migration_refusal, min_withdrawal_refusal,
    min_withdrawal_updated, oracle_set, set_fee_refusal, upgraded,
};
use crate::contract::StarPassContract;
use crate::earnings::{
    approval_refusal, approved, due_now, proposal_refusal, proposed, release_refusal, released,
    withdrawal_refusal, withdrawn,
};
use crate::env::Env;
use crate::failure::Failure;
use crate::passes::{
    answers, mint_refusal, minted, next_pass_id, pause_refusal, paused, quote_request,
    renew_refusal, renewal_refusal, renewed, renewed_expiry, resume_refusal, resumed, sale_refusal,
};
use crate::permissions::{grant_refusal, granted, revocation_refusal, revoked};
use crate::pricing::{OracleInterface, Quote};
use crate::tiers::{
    deactivated, deactivation_refusal, next_tier_id, registered, registration_refusal, repriced,
    repricing_refusal, tier_created, tier_refusal,
};
use crate::types::{texts, Symbol, TierPriceMode};

verus! {

/// Setting up ends as is said of it: refused for the reason given and with nothing
/// changed, or done.
pub proof fn law_initialize_ends_as_said(
    env: &mut Env,
    admin: Address,
    token: Address,
    fee_bps: u32,
    lock_period_seconds: u64,
    result: Result<(), Failure>,
)
    requires
        call_ensures(
            StarPassContract::initialize,
            (env, admin, token, fee_bps, lock_period_seconds),
            result,
        ),
    ensures
        ({
            let refusal = initialize_refusal(fee_bps, lock_period_seconds);
            let after = initialized(old(env)@, admin, token, fee_bps, lock_period_seconds);
            &&& result is Ok <==> refusal is None
            &&& result matches Err(reason) ==> refusal == Some(reason) && final(env)@ == old(env)@
            &&& result is Ok ==> final(env)@ == after
        }),
{
}

/// Setting the fee ends as is said of it: refused for the reason given and with
/// nothing changed, or done.
pub proof fn law_set_fee_ends_as_said(env: &mut Env, fee_bps: u32, result: Result<(), Failure>)
    requires
        call_ensures(StarPassContract::set_fee, (env, fee_bps), result),
    ensures
        ({
            let refusal = set_fee_refusal(old(env)@, fee_bps);
            let after = fee_set(old(env)@, fee_bps);
            &&& result is Ok <==> refusal is None
            &&& result matches Err(reason) ==> refusal == Some(reason) && final(env)@ == old(env)@
            &&& result is Ok ==> final(env)@ == after
        }),
{
}

/// Setting the lock period ends as is said of it: refused for the reason given and
/// with nothing changed, or done.
pub proof fn law_update_lock_period_ends_as_said(
    env: &mut Env,
    admin: Address,
    new_period_seconds: u64,
    result: Result<(), Failure>,
)
    requires
        call_ensures(
            StarPassContract::update_lock_period,
            (env, admin, new_period_seconds),
            result,
        ),
    ensures
        ({
            let refusal = lock_period_refusal(old(env)@, admin, new_period_seconds);
            let after = lock_period_updated(old(env)@, admin, new_period_seconds);
            &&& result is Ok <==> refusal is None
            &&& result matches Err(reason) ==> refusal == Some(reason) && final(env)@ == old(env)@
            &&& result is Ok ==> final(env)@ == after
        }),
{
}

/// Setting the oracle ends as is said of it: refused for the reason given and with
/// nothing changed, or done.
pub proof fn law_set_oracle_ends_as_said(
    env: &mut Env,
    admin: Address,
    oracle: Address,
    result: Result<(), Failure>,
)
    requires
        call_ensures(StarPassContract::set_oracle, (env, admin, oracle), result),
    ensures
        ({
            let refusal = admin_refusal(old(env)@, admin);
            let after = oracle_set(old(env)@, admin, oracle);
            &&& result is Ok <==> refusal is None
            &&& result matches Err(reason) ==> refusal == Some(reason) && final(env)@ == old(env)@
            &&& result is Ok ==> final(env)@ == after
        }),
{
}

/// Sending fees ends as is said of it: refused for the reason given and with
/// nothing changed, or done.
pub proof fn law_withdraw_fees_ends_as_said(
    env: &mut Env,
    recipient: Address,
    amount: i128,
    result: Result<(), Failure>,
)
    requires
        call_ensures(StarPassContract::withdraw_fees, (env, recipient, amount), result),
    ensures
        ({
            let refusal = fees_refusal(old(env)@, amount);
            let after = fees_withdrawn(old(env)@, recipient, amount);
            &&& result is Ok <==> refusal is None
            &&& result matches Err(reason) ==> refusal == Some(reason) && final(env)@ == old(env)@
            &&& result is Ok ==> final(env)@ == after
        }),
{
}

/// Setting the least withdrawal ends as is said of it: refused for the reason given
/// and with nothing changed, or done.
pub proof fn law_update_min_withdrawal_ends_as_said(
    env: &mut Env,
    admin: Address,
    new_min: i128,
    result: Result<(), Failure>,
)
    requires
        call_ensures(StarPassContract::update_min_withdrawal, (env, admin, new_min), result),
    ensures
        ({
            let refusal = min_withdrawal_refusal(old(env)@, admin, new_min);
            let after = min_withdrawal_updated(old(env)@, admin, new_min);
            &&& result is Ok <==> refusal is None
            &&& result matches Err(reason) ==> refusal == Some(reason) && final(env)@ == old(env)@
            &&& result is Ok ==> final(env)@ == after
        }),
{
}

/// Upgrading ends as is said of it: refused for the reason given and with nothing
/// changed, or done.
pub proof fn law_upgrade_ends_as_said(
    env: &mut Env,
    admin: Address,
    code_hash: Bytes32,
    result: Result<(), Failure>,
)
    requires
        call_ensures(StarPassContract::upgrade, (env, admin, code_hash), result),
    ensures
        ({
            let refusal = admin_refusal(old(env)@, admin);
            let after = upgraded(old(env)@, admin, code_hash);
            &&& result is Ok <==> refusal is None
            &&& result matches Err(reason) ==> refusal == Some(reason) && final(env)@ == old(env)@
            &&& result is Ok ==> final(env)@ == after
        }),
{
}

/// Migrating ends as is said of it: refused for the reason given and with nothing
/// changed, or done.
pub proof fn law_migrate_ends_as_said(env: &mut Env, admin: Address, result: Result<(), Failure>)
    requires
        call_ensures(StarPassContract::migrate, (env, admin), result),
    ensures
        ({
            let refusal = migration_refusal(old(env)@, admin);
            let after = migrated(old(env)@, admin);
            &&& result is Ok <==> refusal is None
            &&& result matches Err(reason) ==> refusal == Some(reason) && final(env)@ == old(env)@
            &&& result is Ok ==> final(env)@ == after
        }),
{
}

/// Registering ends as is said of it: refused for the reason given and with nothing
/// changed, or done.
pub proof fn law_register_creator_ends_as_said(
    env: &mut Env,
    creator: Address,
    result: Result<(), Failure>,
)
    requires
        call_ensures(StarPassContract::register_creator, (env, creator), result),
    ensures
        ({
            let refusal = registration_refusal(old(env)@, creator);
            let after = registered(old(env)@, creator);
            &&& result is Ok <==> refusal is None
            &&& result matches Err(reason) ==> refusal == Some(reason) && final(env)@ == old(env)@
            &&& result is Ok ==> final(env)@ == after
        }),
{
}

/// Defining a tier with a fixed price ends as is said of it: refused for the reason
/// given and with nothing changed, or done.
pub proof fn law_create_tier_ends_as_said(
    env: &mut Env,
    creator: Address,
    name: Vec<u8>,
    price: i128,
    duration: u64,
    max_supply: u32,
    permissions: Vec<Symbol>,
    result: Result<u32, Failure>,
)
    requires
        call_ensures(
            StarPassContract::create_tier,
            (env, creator, name, price, duration, max_supply, permissions),
            result,
        ),
    ensures
        ({
            let refusal = tier_refusal(
                old(env)@,
                creator,
                name@,
                TierPriceMode::Fixed(price),
                duration,
            );
            let after = tier_created(
                old(env)@,
                creator,
                name@,
                TierPriceMode::Fixed(price),
                duration,
                max_supply,
                texts(permissions@),
            );
            &&& result is Ok <==> refusal is None
            &&& result matches Err(reason) ==> refusal == Some(reason) && final(env)@ == old(env)@
            &&& result matches Ok(value) ==> value == next_tier_id(old(env)@)
                && final(env)@ == after
        }),
{
}

/// Defining a tier with a price in USD ends as is said of it: refused for the
/// reason given and with nothing changed, or done.
pub proof fn law_create_tier_usd_ends_as_said(
    env: &mut Env,
    creator: Address,
    name: Vec<u8>,
    cents: i128,
    duration: u64,
    max_supply: u32,
    permissions: Vec<Symbol>,
    result: Result<u32, Failure>,
)
    requires
        call_ensures(
            StarPassContract::create_tier_usd,
            (env, creator, name, cents, duration, max_supply, permissions),
            result,
        ),
    ensures
        ({
            let refusal = tier_refusal(
                old(env)@,
                creator,
                name@,
                TierPriceMode::USDDenominated(cents),
                duration,
            );
            let after = tier_created(
                old(env)@,
                creator,
                name@,
                TierPriceMode::USDDenominated(cents),
                duration,
                max_supply,
                texts(permissions@),
            );
            &&& result is Ok <==> refusal is None
            &&& result matches Err(reason) ==> refusal == Some(reason) && final(env)@ == old(env)@
            &&& result matches Ok(value) ==> value == next_tier_id(old(env)@)
                && final(env)@ == after
        }),
{
}

/// Ending the sale of a tier ends as is said of it: refused for the reason given
/// and with nothing changed, or done.
pub proof fn law_deactivate_tier_ends_as_said(
    env: &mut Env,
    creator: Address,
    tier_id: u32,
    result: Result<(), Failure>,
)
    requires
        call_ensures(StarPassContract::deactivate_tier, (env, creator, tier_id), result),
    ensures
        ({
            let refusal = deactivation_refusal(old(env)@, creator, tier_id);
            let after = deactivated(old(env)@, creator, tier_id);
            &&& result is Ok <==> refusal is None
            &&& result matches Err(reason) ==> refusal == Some(reason) && final(env)@ == old(env)@
            &&& result is Ok ==> final(env)@ == after
        }),
{
}

/// Giving a tier a new fixed price ends as is said of it: refused for the reason
/// given and with nothing changed, or done.
pub proof fn law_update_tier_price_ends_as_said(
    env: &mut Env,
    creator: Address,
    tier_id: u32,
    price: i128,
    result: Result<(), Failure>,
)
    requires
        call_ensures(StarPassContract::update_tier_price, (env, creator, tier_id, price), result),
    ensures
        ({
            let refusal = repricing_refusal(
                old(env)@,
                creator,
                tier_id,
                TierPriceMode::Fixed(price),
            );
            let after = repriced(old(env)@, creator, tier_id, TierPriceMode::Fixed(price));
            &&& result is Ok <==> refusal is None
            &&& result matches Err(reason) ==> refusal == Some(reason) && final(env)@ == old(env)@
            &&& result is Ok ==> final(env)@ == after
        }),
{
}

/// Giving a tier a new price in USD ends as is said of it: refused for the reason
/// given and with nothing changed, or done.
pub proof fn law_update_tier_price_usd_ends_as_said(
    env: &mut Env,
    creator: Address,
    tier_id: u32,
    cents: i128,
    result: Result<(), Failure>,
)
    requires
        call_ensures(
            StarPassContract::update_tier_price_usd,
            (env, creator, tier_id, cents),
            result,
        ),
    ensures
        ({
            let refusal = repricing_refusal(
                old(env)@,
                creator,
                tier_id,
                TierPriceMode::USDDenominated(cents),
            );
            let after = repriced(old(env)@, creator, tier_id, TierPriceMode::USDDenominated(cents));
            &&& result is Ok <==> refusal is None
            &&& result matches Err(reason) ==> refusal == Some(reason) && final(env)@ == old(env)@
            &&& result is Ok ==> final(env)@ == after
        }),
{
}

/// Buying a pass, given the oracle's answer, ends as is said of it: refused for the
/// reason given and with nothing changed, or done.
pub proof fn law_mint_pass_quoted_ends_as_said(
    env: &mut Env,
    fan: Address,
    tier_id: u32,
    permissions: Vec<Symbol>,
    quote: Option<Quote>,
    result: Result<u64, Failure>,
)
    requires
        call_ensures(
            StarPassContract::mint_pass_quoted,
            (env, fan, tier_id, permissions, quote),
            result,
        ),
    ensures
        ({
            let refusal = mint_refusal(old(env)@, tier_id, texts(permissions@), quote);
            let after = minted(old(env)@, fan, tier_id, texts(permissions@), quote);
            &&& result is Ok <==> refusal is None
            &&& result matches Err(reason) ==> refusal == Some(reason) && final(env)@ == old(env)@
            &&& result matches Ok(value) ==> value == next_pass_id(old(env)@)
                && final(env)@ == after
        }),
{
}

/// Renewing a pass, given the oracle's answer, ends as is said of it: refused for
/// the reason given and with nothing changed, or done.
pub proof fn law_renew_pass_quoted_ends_as_said(
    env: &mut Env,
    fan: Address,
    pass_id: u64,
    quote: Option<Quote>,
    result: Result<u64, Failure>,
)
    requires
        call_ensures(StarPassContract::renew_pass_quoted, (env, fan, pass_id, quote), result),
    ensures
        ({
            let refusal = renew_refusal(old(env)@, fan, pass_id, quote);
            let after = renewed(old(env)@, fan, pass_id, quote);
            &&& result is Ok <==> refusal is None
            &&& result matches Err(reason) ==> refusal == Some(reason) && final(env)@ == old(env)@
            &&& result matches Ok(value) ==> value == renewed_expiry(old(env)@, pass_id) as u64
                && final(env)@ == after
        }),
{
}

/// Pausing ends as is said of it: refused for the reason given and with nothing
/// changed, or done.
pub proof fn law_pause_pass_ends_as_said(
    env: &mut Env,
    fan: Address,
    pass_id: u64,
    result: Result<(), Failure>,
)
    requires
        call_ensures(StarPassContract::pause_pass, (env, fan, pass_id), result),
    ensures
        ({
            let refusal = pause_refusal(old(env)@, fan, pass_id);
            let after = paused(old(env)@, fan, pass_id);
            &&& result is Ok <==> refusal is None
            &&& result matches Err(reason) ==> refusal == Some(reason) && final(env)@ == old(env)@
            &&& result is Ok ==> final(env)@ == after
        }),
{
}

/// Resuming ends as is said of it: refused for the reason given and with nothing
/// changed, or done.
pub proof fn law_resume_pass_ends_as_said(
    env: &mut Env,
    fan: Address,
    pass_id: u64,
    result: Result<(), Failure>,
)
    requires
        call_ensures(StarPassContract::resume_pass, (env, fan, pass_id), result),
    ensures
        ({
            let refusal = resume_refusal(old(env)@, fan, pass_id);
            let after = resumed(old(env)@, fan, pass_id);
            &&& result is Ok <==> refusal is None
            &&& result matches Err(reason) ==> refusal == Some(reason) && final(env)@ == old(env)@
            &&& result is Ok ==> final(env)@ == after
        }),
{
}

/// Processing ends as is said of it: refused for the reason given and with nothing
/// changed, or done.
pub proof fn law_process_unlocked_earnings_ends_as_said(
    env: &mut Env,
    creator: Address,
    result: Result<u32, Failure>,
)
    requires
        call_ensures(StarPassContract::process_unlocked_earnings, (env, creator), result),
    ensures
        ({
            let refusal = release_refusal(old(env)@, creator);
            let after = released(old(env)@, creator, due_now(old(env)@, creator));
            &&& result is Ok <==> refusal is None
            &&& result matches Err(reason) ==> refusal == Some(reason) && final(env)@ == old(env)@
            &&& result matches Ok(value) ==> value == due_now(old(env)@, creator).len() as u32
                && final(env)@ == after
        }),
{
}

/// Proposing an early release ends as is said of it: refused for the reason given
/// and with nothing changed, or done.
pub proof fn law_propose_early_release_ends_as_said(
    env: &mut Env,
    admin: Address,
    creator: Address,
    earning_id: u64,
    result: Result<(), Failure>,
)
    requires
        call_ensures(
            StarPassContract::propose_early_release,
            (env, admin, creator, earning_id),
            result,
        ),
    ensures
        ({
            let refusal = proposal_refusal(old(env)@, admin, creator, earning_id);
            let after = proposed(old(env)@, admin, creator, earning_id);
            &&& result is Ok <==> refusal is None
            &&& result matches Err(reason) ==> refusal == Some(reason) && final(env)@ == old(env)@
            &&& result is Ok ==> final(env)@ == after
        }),
{
}

/// Approving an early release ends as is said of it: refused for the reason given
/// and with nothing changed, or done.
pub proof fn law_approve_early_release_ends_as_said(
    env: &mut Env,
    creator: Address,
    earning_id: u64,
    result: Result<(), Failure>,
)
    requires
        call_ensures(StarPassContract::approve_early_release, (env, creator, earning_id), result),
    ensures
        ({
            let refusal = approval_refusal(old(env)@, creator, earning_id);
            let after = approved(old(env)@, creator, earning_id);
            &&& result is Ok <==> refusal is None
            &&& result matches Err(reason) ==> refusal == Some(reason) && final(env)@ == old(env)@
            &&& result is Ok ==> final(env)@ == after
        }),
{
}

/// Withdrawing ends as is said of it: refused for the reason given and with nothing
/// changed, or done.
pub proof fn law_withdraw_ends_as_said(env: &mut Env, creator: Address, result: Result<(), Failure>)
    requires
        call_ensures(StarPassContract::withdraw, (env, creator), result),
    ensures
        ({
            let refusal = withdrawal_refusal(old(env)@, creator);
            let after = withdrawn(old(env)@, creator);
            &&& result is Ok <==> refusal is None
            &&& result matches Err(reason) ==> refusal == Some(reason) && final(env)@ == old(env)@
            &&& result is Ok ==> final(env)@ == after
        }),
{
}

/// Lending permissions ends as is said of it: refused for the reason given and with
/// nothing changed, or done.
pub proof fn law_grant_permission_ends_as_said(
    env: &mut Env,
    creator: Address,
    fan: Address,
    tier_id: u32,
    permissions: Vec<Symbol>,
    duration: u64,
    result: Result<(), Failure>,
)
    requires
        call_ensures(
            StarPassContract::grant_permission,
            (env, creator, fan, tier_id, permissions, duration),
            result,
        ),
    ensures
        ({
            let refusal = grant_refusal(old(env)@, creator, tier_id, texts(permissions@));
            let after = granted(old(env)@, creator, fan, tier_id, texts(permissions@), duration);
            &&& result is Ok <==> refusal is None
            &&& result matches Err(reason) ==> refusal == Some(reason) && final(env)@ == old(env)@
            &&& result is Ok ==> final(env)@ == after
        }),
{
}

/// Taking back a loan ends as is said of it: refused for the reason given and with
/// nothing changed, or done.
pub proof fn law_revoke_permission_grant_ends_as_said(
    env: &mut Env,
    creator: Address,
    fan: Address,
    tier_id: u32,
    result: Result<(), Failure>,
)
    requires
        call_ensures(
            StarPassContract::revoke_permission_grant,
            (env, creator, fan, tier_id),
            result,
        ),
    ensures
        ({
            let refusal = revocation_refusal(old(env)@, creator, fan, tier_id);
            let after = revoked(old(env)@, creator, fan, tier_id);
            &&& result is Ok <==> refusal is None
            &&& result matches Err(reason) ==> refusal == Some(reason) && final(env)@ == old(env)@
            &&& result is Ok ==> final(env)@ == after
        }),
{
}

/// Buying a pass asks an oracle only if the tier is for sale, and then ends as is
/// said of a sale with some answer that the oracle could give.
pub proof fn law_mint_pass_ends_as_said<O: OracleInterface>(
    env: &mut Env,
    oracle: &O,
    fan: Address,
    tier_id: u32,
    permissions: Vec<Symbol>,
    result: Result<u64, Failure>,
)
    requires
        call_ensures(
            StarPassContract::mint_pass::<O>,
            (env, oracle, fan, tier_id, permissions),
            result,
        ),
    ensures
        sale_refusal(old(env)@, tier_id, texts(permissions@)) matches Some(reason) ==> result
            == Err::<u64, Failure>(reason) && final(env)@ == old(env)@,
        sale_refusal(old(env)@, tier_id, texts(permissions@)) is None ==> exists|
            quote: Option<Quote>,
        | #[trigger]
            answers(
                oracle,
                quote_request(old(env)@, old(env)@.state.tiers[tier_id].price),
                quote,
            ) && match mint_refusal(old(env)@, tier_id, texts(permissions@), quote) {
                Some(reason) => result == Err::<u64, Failure>(reason) && final(env)@ == old(env)@,
                None => result == Ok::<u64, Failure>(next_pass_id(old(env)@)) && final(env)@
                    == minted(old(env)@, fan, tier_id, texts(permissions@), quote),
            },
{
}

/// Renewing a pass asks an oracle only if the pass can be renewed, and then ends as
/// is said of a renewal with some answer that the oracle could give.
pub proof fn law_renew_pass_ends_as_said<O: OracleInterface>(
    env: &mut Env,
    oracle: &O,
    fan: Address,
    pass_id: u64,
    result: Result<u64, Failure>,
)
    requires
        call_ensures(StarPassContract::renew_pass::<O>, (env, oracle, fan, pass_id), result),
    ensures
        renewal_refusal(old(env)@, fan, pass_id) matches Some(reason) ==> result == Err::<
            u64,
            Failure,
        >(reason) && final(env)@ == old(env)@,
        renewal_refusal(old(env)@, fan, pass_id) is None ==> exists|quote: Option<Quote>| #[trigger]
            answers(
                oracle,
                quote_request(
                    old(env)@,
                    old(env)@.state.tiers[old(env)@.state.passes[pass_id].tier_id].price,
                ),
                quote,
            ) && match renew_refusal(old(env)@, fan, pass_id, quote) {
                Some(reason) => result == Err::<u64, Failure>(reason) && final(env)@ == old(env)@,
                None => result == Ok::<u64, Failure>(renewed_expiry(old(env)@, pass_id) as u64)
                    && final(env)@ == renewed(old(env)@, fan, pass_id, quote),
            },
{
}

} // verus!
