//! What a pass costs, and who gets how much of it.

use vstd::prelude::*;

use crate::address::Address;
use crate::env::{Env, EnvView};
use crate::failure::{Abort, Failure};
use crate::types::{Tier, TierPriceMode};

verus! {

/// Oracle data older than this is not used.
pub const ORACLE_STALENESS_THRESHOLD_SECONDS: u64 = 300;

/// The scale of prices in the payment token: seven decimals.
pub const TOKEN_SCALE: i128 = 10_000_000;

/// Basis points in the whole.
pub const BPS_WHOLE: i128 = 10_000;

/// The highest protocol fee, in basis points: 10%.
pub const MAX_FEE_BPS: u32 = 1000;

/// The price of one base unit of a token in USD cents, and the ledger time at
/// which it was observed: an oracle's answer.
pub type Quote = (i128, u64);

/// The interface of a price oracle contract.
pub trait OracleInterface {
    /// Asks the oracle contract at `oracle` for the USD-cents price of one base
    /// unit of `token`, with the ledger time of the observation.
    fn get_price(&self, oracle: Address, token: Address) -> Quote;
}

/// What an entry holds, or `default` if there is none.
pub open spec fn value_or<T>(entry: Option<T>, default: T) -> T {
    match entry {
        Some(value) => value,
        None => default,
    }
}

/// Whether `n` is an `i128`.
pub open spec fn fits_i128(n: int) -> bool {
    i128::MIN <= n <= i128::MAX
}

/// `n` divided by a positive `d`, rounded toward zero.
pub open spec fn quotient(n: int, d: int) -> int {
    if n >= 0 {
        n / d
    } else {
        -((-n) / d)
    }
}

/// The payment owed for a price: a fixed price as it stands, a USD price
/// converted by a fresh positive quote of a configured oracle.
pub open spec fn price_amount(env: EnvView, price: TierPriceMode, quote: Option<Quote>) -> Result<
    i128,
    Failure,
> {
    match price {
        TierPriceMode::Fixed(amount) => Ok(amount),
        TierPriceMode::USDDenominated(cents) => match (env.state.oracle, quote) {
            (Some(_), Some((unit_cents, observed_at))) => if env.now - observed_at
                > ORACLE_STALENESS_THRESHOLD_SECONDS || unit_cents <= 0 {
                Err(Failure::Abort(Abort::OracleUnavailable))
            } else if !fits_i128(cents * TOKEN_SCALE) {
                Err(Failure::Abort(Abort::TokenAmountOverflow))
            } else {
                Ok(quotient(cents * TOKEN_SCALE, unit_cents as int) as i128)
            },
            _ => Err(Failure::Abort(Abort::OracleUnavailable)),
        },
    }
}

/// The protocol's part of a payment.
pub open spec fn protocol_fee(price: int, fee_bps: int) -> int {
    quotient(price * fee_bps, BPS_WHOLE as int)
}

/// The creator's part of a payment: what the protocol leaves.
pub open spec fn creator_amount(price: int, fee_bps: int) -> int {
    price - protocol_fee(price, fee_bps)
}

/// Whether the two parts of a payment can be computed.
pub open spec fn splits(price: int, fee_bps: int) -> bool {
    fits_i128(price * fee_bps) && fits_i128(creator_amount(price, fee_bps))
}

/// Dividing the magnitude of a number keeps within the number's range.
proof fn lemma_quotient_bound(n: int, d: int)
    requires
        d > 0,
    ensures
        n >= 0 ==> 0 <= quotient(n, d) <= n,
        n < 0 ==> n <= quotient(n, d) <= 0,
{
    if n >= 0 {
        assert(0 <= n / d <= n) by (nonlinear_arith)
            requires
                n >= 0,
                d > 0,
        ;
    } else {
        let m = -n;
        assert(0 <= m / d <= m) by (nonlinear_arith)
            requires
                m >= 0,
                d > 0,
        ;
    }
}

/// Resolves the payment owed for `tier`, in base units of the payment token.
/// `quote` is the oracle's answer, where one was asked for.
pub fn resolve_price_amount(env: &Env, tier: &Tier, quote: Option<Quote>) -> (amount: Result<
    i128,
    Failure,
>)
    ensures
        amount == price_amount(env@, tier.price, quote),
{
    match tier.price {
        TierPriceMode::Fixed(amount) => Ok(amount),
        TierPriceMode::USDDenominated(cents) => {
            if env.storage.oracle().is_none() {
                return Err(Failure::Abort(Abort::OracleUnavailable));
            }
            let (unit_cents, observed_at) = match quote {
                Some(answer) => answer,
                None => return Err(Failure::Abort(Abort::OracleUnavailable)),
            };
            if env.timestamp.saturating_sub(observed_at) > ORACLE_STALENESS_THRESHOLD_SECONDS {
                return Err(Failure::Abort(Abort::OracleUnavailable));
            }
            if unit_cents <= 0 {
                return Err(Failure::Abort(Abort::OracleUnavailable));
            }
            match cents.checked_mul(TOKEN_SCALE) {
                Some(scaled) => {
                    proof {
                        lemma_quotient_bound(scaled as int, unit_cents as int);
                    }
                    Ok(scaled / unit_cents)
                },
                None => Err(Failure::Abort(Abort::TokenAmountOverflow)),
            }
        },
    }
}

/// What is owed for a positive price is not negative.
pub proof fn lemma_payment_not_negative(
    env: EnvView,
    price: TierPriceMode,
    quote: Option<Quote>,
    amount: i128,
)
    requires
        price.stored_amount() > 0,
        price_amount(env, price, quote) == Ok::<i128, Failure>(amount),
    ensures
        amount >= 0,
{
    if let TierPriceMode::USDDenominated(cents) = price {
        lemma_quotient_bound(cents * TOKEN_SCALE, (quote->0).0 as int);
    }
}

/// Splits a payment into the protocol's part and the creator's part.
pub fn split_price(price: i128, fee_bps: u32) -> (parts: Result<(i128, i128), Failure>)
    ensures
        splits(price as int, fee_bps as int) ==> parts == Ok::<(i128, i128), Failure>(
            (
                protocol_fee(price as int, fee_bps as int) as i128,
                creator_amount(price as int, fee_bps as int) as i128,
            ),
        ) && fits_i128(protocol_fee(price as int, fee_bps as int)),
        !splits(price as int, fee_bps as int) ==> parts == Err::<(i128, i128), Failure>(
            Failure::Abort(Abort::ArithmeticOverflow),
        ),
{
    let product: i128 = match price.checked_mul(fee_bps as i128) {
        Some(product) => product,
        None => return Err(Failure::Abort(Abort::ArithmeticOverflow)),
    };
    proof {
        lemma_quotient_bound(product as int, BPS_WHOLE as int);
    }
    let fee: i128 = product / BPS_WHOLE;
    match price.checked_sub(fee) {
        Some(rest) => Ok((fee, rest)),
        None => Err(Failure::Abort(Abort::ArithmeticOverflow)),
    }
}

/// The two parts of a payment make up the payment, and with a fee within the
/// limit the protocol takes at most a tenth of it.
pub proof fn law_parts_make_up_the_price(price: i128, fee_bps: u32)
    requires
        price >= 0,
        fee_bps <= MAX_FEE_BPS,
    ensures
        protocol_fee(price as int, fee_bps as int) + creator_amount(price as int, fee_bps as int)
            == price,
        0 <= protocol_fee(price as int, fee_bps as int) <= price / 10,
        0 <= creator_amount(price as int, fee_bps as int) <= price,
{
    let product = price * fee_bps;
    assert(0 <= product <= price * 1000) by (nonlinear_arith)
        requires
            product == price * fee_bps,
            price >= 0,
            fee_bps <= 1000,
    ;
}

} // verus!
