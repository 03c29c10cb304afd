//! The words and numbers that callers are told.

use vstd::prelude::*;

use crate::decimal::{digits, i128_to_decimal, signed_digits, u64_to_decimal};
use crate::effect::Event;
use crate::failure::{abort, error, Abort, Error, Failure};
use crate::metadata::{
    active_text, ascii, attribute, expiry_text, pass_json, pass_metadata, status_text, supply_text,
    tier_json, tier_metadata,
};
use crate::types::{Pass, PassView, Tier, TierPriceMode, TierView};

verus! {

// ------------------------------------------------------------
// Errors and events
// ------------------------------------------------------------

/// The errors are numbered from one to seven, each by its own number, in the order
/// in which they are listed here.
pub proof fn law_errors_are_numbered(reason: Error)
    ensures
        1 <= reason.number() <= 7,
        reason is InvalidLockPeriod <==> reason.number() == 1,
        reason is EarningNotFound <==> reason.number() == 2,
        reason is EarningAlreadyReleased <==> reason.number() == 3,
        reason is ProposalAlreadyExists <==> reason.number() == 4,
        reason is NoProposalFound <==> reason.number() == 5,
        reason is UnauthorizedApproval <==> reason.number() == 6,
        reason is EarningNotMatured <==> reason.number() == 7,
{
}

/// A refusal carries its reason.
pub proof fn law_refusals_carry_their_reasons(reason: Abort, answer: Error)
    ensures
        abort(reason) == Some(Failure::Abort(reason)),
        error(answer) == Some(Failure::Error(answer)),
{
}

/// What a caller is told of each fault.
pub proof fn law_faults_are_told_apart(reason: Abort)
    ensures
        reason is FeeTooHigh ==> reason.text() == "Fee cannot exceed 10%"@,
        reason is NotInitialized ==> reason.text() == "Not initialized"@,
        reason is NotAuthorized ==> reason.text() == "Not authorized"@,
        reason is AmountNotPositive ==> reason.text() == "Amount must be greater than zero"@,
        reason is TokenNotSet ==> reason.text() == "Token not set"@,
        reason is CreatorAlreadyRegistered ==> reason.text() == "Creator already registered"@,
        reason is CreatorNotRegistered ==> reason.text() == "Must register as creator first"@,
        reason is PriceNotPositive ==> reason.text() == "Price must be greater than zero"@,
        reason is DurationZero ==> reason.text() == "Duration must be greater than zero"@,
        reason is NameEmpty ==> reason.text() == "Name cannot be empty"@,
        reason is NameTooLong ==> reason.text() == "Name cannot exceed 64 bytes"@,
        reason is TierNotFound ==> reason.text() == "Tier not found"@,
        reason is NotTierCreator ==> reason.text() == "Not the tier creator"@,
        reason is TierAlreadyInactive ==> reason.text() == "Tier already inactive"@,
        reason is TierNotActive ==> reason.text() == "Tier is not active"@,
        reason is TierIsUsdDenominated ==> reason.text()
            == "Tier is USD-denominated; use update_tier_price_usd"@,
        reason is TierIsFixedPrice ==> reason.text()
            == "Tier is fixed-price; use update_tier_price"@,
        reason is TierSoldOut ==> reason.text() == "Tier is sold out"@,
        reason is PermissionNotInTier ==> reason.text() == "Permission not in tier definition"@,
        reason is OracleUnavailable ==> reason.text() == "Oracle data unavailable or stale"@,
        reason is TokenAmountOverflow ==> reason.text() == "Overflow computing token amount"@,
        reason is CreatorNotFound ==> reason.text() == "Creator not found"@,
        reason is PassNotFound ==> reason.text() == "Pass not found"@,
        reason is NotPassOwner ==> reason.text() == "Not the pass owner"@,
        reason is PassNotActive ==> reason.text() == "Pass is not active"@,
        reason is PassAlreadyPaused ==> reason.text() == "Pass is already paused"@,
        reason is PassExpired ==> reason.text() == "Pass has expired"@,
        reason is PassNotPaused ==> reason.text() == "Pass is not paused"@,
        reason is NoBalance ==> reason.text() == "No balance to withdraw"@,
        reason is BelowMinWithdrawal ==> reason.text()
            == "Withdrawal amount below minimum threshold"@,
        reason is AdminNotSet ==> reason.text() == "Admin not set"@,
        reason is Unauthorized ==> reason.text() == "Unauthorized"@,
        reason is NegativeMinWithdrawal ==> reason.text()
            == "Minimum withdrawal cannot be negative"@,
        reason is GrantNotFound ==> reason.text() == "Grant not found"@,
        reason is AlreadyMigrated ==> reason.text() == "Already migrated"@,
        reason is LimitTooLarge ==> reason.text() == "limit cannot exceed 20"@,
        reason is ArithmeticOverflow ==> reason.text() == "attempt to compute with overflow"@,
{
}

/// Under which topic each event is published.
pub proof fn law_events_have_their_topics(event: Event)
    ensures
        event is Initialized ==> event.topic_text() == "initialized"@,
        event is LockPeriodUpdated ==> event.topic_text() == "lock_period_updated"@,
        event is OracleSet ==> event.topic_text() == "oracle_set"@,
        event is FeesWithdrawn ==> event.topic_text() == "fees_withdrawn"@,
        event is CreatorRegistered ==> event.topic_text() == "creator_registered"@,
        event is TierCreated ==> event.topic_text() == "tier_created"@,
        event is TierDeactivated ==> event.topic_text() == "tier_deactivated"@,
        event is TierPriceUpdated ==> event.topic_text() == "tier_price_updated"@,
        event is EarningPending ==> event.topic_text() == "earning_pending"@,
        event is PassMinted ==> event.topic_text() == "pass_minted"@,
        event is PassRenewed ==> event.topic_text() == "pass_renewed"@,
        event is PassPaused ==> event.topic_text() == "pass_paused"@,
        event is PassResumed ==> event.topic_text() == "pass_resumed"@,
        event is CreatorWithdrew ==> event.topic_text() == "creator_withdrew"@,
        event is EarningReleased ==> event.topic_text() == "earning_released"@,
        event is EarlyReleaseProposed ==> event.topic_text() == "early_release_proposed"@,
        event is EarlyReleaseExecuted ==> event.topic_text() == "early_release_executed"@,
        event is PermissionGranted ==> event.topic_text() == "permission_granted"@,
        event is PermissionRevoked ==> event.topic_text() == "permission_revoked"@,
        event is Migrated ==> event.topic_text() == "migrated"@,
{
}

/// The numbers, messages and topics that are said of errors, faults and events are
/// those that callers get.
pub proof fn law_callers_are_told_what_is_said(
    reason: Error,
    code: u32,
    fault: Abort,
    message: &'static str,
    event: Event,
    topic: &'static str,
)
    requires
        call_ensures(Error::code, (&reason,), code),
        call_ensures(Abort::message, (&fault,), message),
        call_ensures(Event::topic, (&event,), topic),
    ensures
        code == reason.number(),
        message@ == fault.text(),
        topic@ == event.topic_text(),
{
}

// ------------------------------------------------------------
// Numbers
// ------------------------------------------------------------

/// A number is written in tens: a number below ten by one digit, ten times a number
/// plus a digit by that number's text with the digit after it. A negative number is
/// written as its magnitude after a minus sign.
pub proof fn law_numbers_are_written_in_tens(n: nat, digit: nat)
    requires
        digit < 10,
    ensures
        digits(digit) == seq![(48 + digit) as u8],
        n > 0 ==> digits(10 * n + digit) == digits(n).push((48 + digit) as u8),
        signed_digits(n as int) == digits(n),
        n > 0 ==> signed_digits(-n) == seq![45u8] + digits(n),
{
    if n > 0 {
        assert((10 * n + digit) / 10 == n && (10 * n + digit) % 10 == digit);
    }
}

/// Numbers are written into their buffers as is said of them, at the front, and what
/// is returned is that text.
pub proof fn law_numbers_are_written_as_said(
    n: u64,
    buf: &mut [u8; 20],
    text: &[u8],
    signed: i128,
    signed_buf: &mut [u8; 40],
    signed_text: &[u8],
)
    requires
        call_ensures(u64_to_decimal, (n, buf), text),
        call_ensures(i128_to_decimal, (signed, signed_buf), signed_text),
    ensures
        text@ == digits(n as nat),
        final(buf)@.take(text@.len() as int) == text@,
        signed_text@ == signed_digits(signed as int),
        final(signed_buf)@.take(signed_text@.len() as int) == signed_text@,
{
    assert(final(buf)@.take(text@.len() as int) =~= text@);
    assert(final(signed_buf)@.take(signed_text@.len() as int) =~= signed_text@);
}

/// The bytes of an ASCII text are its characters, one for one.
pub proof fn law_ascii_bytes_are_the_characters(text: Seq<char>, i: int)
    requires
        0 <= i < text.len(),
    ensures
        ascii(text).len() == text.len(),
        ascii(text)[i] == text[i] as u8,
{
}

// ------------------------------------------------------------
// Metadata
// ------------------------------------------------------------

/// The expiry is told in decimal, or as never if it is zero; the supply in decimal,
/// or as unlimited if it is zero; and whether a tier is active, as true or false.
pub proof fn law_values_are_told_in_words_or_digits(n: u64, supply: u32)
    ensures
        n > 0 ==> expiry_text(n) == digits(n as nat),
        expiry_text(0) == ascii("never"@),
        supply > 0 ==> supply_text(supply) == digits(supply as nat),
        supply_text(0) == ascii("unlimited"@),
        active_text(true) == "true"@,
        active_text(false) == "false"@,
{
}

/// A pass that is not active is told to be inactive; of those that are, one that has
/// expired is told to be expired, and any other, paused or not, to be active.
pub proof fn law_status_is_told_by_activity_and_expiry(pass: PassView, now: u64)
    ensures
        !pass.active ==> status_text(pass, now) == "inactive"@,
        pass.active && now >= pass.expires_at ==> status_text(pass, now) == "expired"@,
        pass.active && now < pass.expires_at ==> status_text(pass, now) == "active"@,
{
}

/// The metadata of a pass, written out: name and description, then the tier, the
/// creator, the expiry and the status, each with its value in quotes.
pub proof fn law_pass_metadata_spells_out_the_pass(
    pass: PassView,
    name: Seq<u8>,
    creator: Seq<u8>,
    now: u64,
)
    ensures
        pass_json(pass, name, creator, now) == ascii("{\"name\":\""@)
            + name
            + ascii(
                " Pass\",\"description\":\"StarPass access pass\",\"attributes\":[{\"trait_type\":\"Tier\",\"value\":\""@,
            )
            + name
            + ascii("\"},{\"trait_type\":\"Creator\",\"value\":\""@)
            + creator
            + ascii("\"},{\"trait_type\":\"Expires\",\"value\":\""@)
            + expiry_text(pass.expires_at)
            + ascii("\"},{\"trait_type\":\"Status\",\"value\":\""@)
            + ascii(status_text(pass, now))
            + ascii("\"}]}"@),
{
    let t0 = ascii("{\"name\":\""@) + name;
    assert(" Pass\",\"description\":\"StarPass access pass\",\"attributes\":[{\"trait_type\":\"Tier\",\"value\":\""@
        =~= " Pass\",\"description\":\"StarPass access pass\",\"attributes\":["@
        + "{\"trait_type\":\""@ + "Tier"@ + "\",\"value\":\""@) by {
        reveal_strlit(
            " Pass\",\"description\":\"StarPass access pass\",\"attributes\":[{\"trait_type\":\"Tier\",\"value\":\"",
        );
        reveal_strlit(" Pass\",\"description\":\"StarPass access pass\",\"attributes\":[");
        reveal_strlit("{\"trait_type\":\"");
        reveal_strlit("Tier");
        reveal_strlit("\",\"value\":\"");
    }
    lemma_first_attribute(
        t0,
        " Pass\",\"description\":\"StarPass access pass\",\"attributes\":["@,
        "Tier"@,
        name,
        " Pass\",\"description\":\"StarPass access pass\",\"attributes\":[{\"trait_type\":\"Tier\",\"value\":\""@,
    );
    let t1 = t0
        + ascii(" Pass\",\"description\":\"StarPass access pass\",\"attributes\":[{\"trait_type\":\"Tier\",\"value\":\""@)
        + name;
    assert("\"},{\"trait_type\":\"Creator\",\"value\":\""@
        =~= "\"}"@ + ","@ + "{\"trait_type\":\""@ + "Creator"@ + "\",\"value\":\""@) by {
        reveal_strlit("\"},{\"trait_type\":\"Creator\",\"value\":\"");
        reveal_strlit("\"}");
        reveal_strlit(",");
        reveal_strlit("{\"trait_type\":\"");
        reveal_strlit("Creator");
        reveal_strlit("\",\"value\":\"");
    }
    lemma_next_attribute(t1, "Creator"@, creator, "\"},{\"trait_type\":\"Creator\",\"value\":\""@);
    let t2 = t1 + ascii("\"},{\"trait_type\":\"Creator\",\"value\":\""@) + creator;
    assert("\"},{\"trait_type\":\"Expires\",\"value\":\""@
        =~= "\"}"@ + ","@ + "{\"trait_type\":\""@ + "Expires"@ + "\",\"value\":\""@) by {
        reveal_strlit("\"},{\"trait_type\":\"Expires\",\"value\":\"");
        reveal_strlit("\"}");
        reveal_strlit(",");
        reveal_strlit("{\"trait_type\":\"");
        reveal_strlit("Expires");
        reveal_strlit("\",\"value\":\"");
    }
    lemma_next_attribute(
        t2,
        "Expires"@,
        expiry_text(pass.expires_at),
        "\"},{\"trait_type\":\"Expires\",\"value\":\""@,
    );
    let t3 = t2
        + ascii("\"},{\"trait_type\":\"Expires\",\"value\":\""@)
        + expiry_text(pass.expires_at);
    assert("\"},{\"trait_type\":\"Status\",\"value\":\""@
        =~= "\"}"@ + ","@ + "{\"trait_type\":\""@ + "Status"@ + "\",\"value\":\""@) by {
        reveal_strlit("\"},{\"trait_type\":\"Status\",\"value\":\"");
        reveal_strlit("\"}");
        reveal_strlit(",");
        reveal_strlit("{\"trait_type\":\"");
        reveal_strlit("Status");
        reveal_strlit("\",\"value\":\"");
    }
    lemma_next_attribute(
        t3,
        "Status"@,
        ascii(status_text(pass, now)),
        "\"},{\"trait_type\":\"Status\",\"value\":\""@,
    );
    let t4 = t3
        + ascii("\"},{\"trait_type\":\"Status\",\"value\":\""@)
        + ascii(status_text(pass, now));
    assert("\"}]}"@ =~= "\"}"@ + "]}"@) by {
        reveal_strlit("\"}]}");
        reveal_strlit("\"}");
        reveal_strlit("]}");
    }
    lemma_last_attribute(t4, "\"}]}"@);
}

/// The metadata of a tier, written out: name and description, then the creator, the
/// price, the duration, the supply, how many were minted, and whether it is active,
/// each with its value in quotes.
pub proof fn law_tier_metadata_spells_out_the_tier(tier: TierView, creator: Seq<u8>)
    ensures
        ({
            let amount = match tier.price {
                TierPriceMode::Fixed(amount) => amount,
                TierPriceMode::USDDenominated(cents) => cents,
            };
            tier_json(tier, creator) == ascii("{\"name\":\""@)
                + tier.name
                + ascii("\",\"description\":\"StarPass tier collection by "@)
                + creator
                + ascii("\",\"attributes\":[{\"trait_type\":\"Creator\",\"value\":\""@)
                + creator
                + ascii("\"},{\"trait_type\":\"Price\",\"value\":\""@)
                + signed_digits(amount as int)
                + ascii("\"},{\"trait_type\":\"Duration\",\"value\":\""@)
                + digits(tier.duration as nat)
                + ascii("\"},{\"trait_type\":\"MaxSupply\",\"value\":\""@)
                + supply_text(tier.max_supply)
                + ascii("\"},{\"trait_type\":\"Minted\",\"value\":\""@)
                + digits(tier.minted as nat)
                + ascii("\"},{\"trait_type\":\"Active\",\"value\":\""@)
                + ascii(active_text(tier.active))
                + ascii("\"}]}"@)
        }),
{
    let amount = match tier.price {
        TierPriceMode::Fixed(amount) => amount,
        TierPriceMode::USDDenominated(cents) => cents,
    };
    let t0 = ascii("{\"name\":\""@)
        + tier.name
        + ascii("\",\"description\":\"StarPass tier collection by "@)
        + creator;
    assert("\",\"attributes\":[{\"trait_type\":\"Creator\",\"value\":\""@
        =~= "\",\"attributes\":["@ + "{\"trait_type\":\""@ + "Creator"@ + "\",\"value\":\""@) by {
        reveal_strlit("\",\"attributes\":[{\"trait_type\":\"Creator\",\"value\":\"");
        reveal_strlit("\",\"attributes\":[");
        reveal_strlit("{\"trait_type\":\"");
        reveal_strlit("Creator");
        reveal_strlit("\",\"value\":\"");
    }
    lemma_first_attribute(
        t0,
        "\",\"attributes\":["@,
        "Creator"@,
        creator,
        "\",\"attributes\":[{\"trait_type\":\"Creator\",\"value\":\""@,
    );
    let t1 = t0 + ascii("\",\"attributes\":[{\"trait_type\":\"Creator\",\"value\":\""@) + creator;
    assert("\"},{\"trait_type\":\"Price\",\"value\":\""@
        =~= "\"}"@ + ","@ + "{\"trait_type\":\""@ + "Price"@ + "\",\"value\":\""@) by {
        reveal_strlit("\"},{\"trait_type\":\"Price\",\"value\":\"");
        reveal_strlit("\"}");
        reveal_strlit(",");
        reveal_strlit("{\"trait_type\":\"");
        reveal_strlit("Price");
        reveal_strlit("\",\"value\":\"");
    }
    lemma_next_attribute(
        t1,
        "Price"@,
        signed_digits(amount as int),
        "\"},{\"trait_type\":\"Price\",\"value\":\""@,
    );
    let t2 = t1
        + ascii("\"},{\"trait_type\":\"Price\",\"value\":\""@)
        + signed_digits(amount as int);
    assert("\"},{\"trait_type\":\"Duration\",\"value\":\""@
        =~= "\"}"@ + ","@ + "{\"trait_type\":\""@ + "Duration"@ + "\",\"value\":\""@) by {
        reveal_strlit("\"},{\"trait_type\":\"Duration\",\"value\":\"");
        reveal_strlit("\"}");
        reveal_strlit(",");
        reveal_strlit("{\"trait_type\":\"");
        reveal_strlit("Duration");
        reveal_strlit("\",\"value\":\"");
    }
    lemma_next_attribute(
        t2,
        "Duration"@,
        digits(tier.duration as nat),
        "\"},{\"trait_type\":\"Duration\",\"value\":\""@,
    );
    let t3 = t2
        + ascii("\"},{\"trait_type\":\"Duration\",\"value\":\""@)
        + digits(tier.duration as nat);
    assert("\"},{\"trait_type\":\"MaxSupply\",\"value\":\""@
        =~= "\"}"@ + ","@ + "{\"trait_type\":\""@ + "MaxSupply"@ + "\",\"value\":\""@) by {
        reveal_strlit("\"},{\"trait_type\":\"MaxSupply\",\"value\":\"");
        reveal_strlit("\"}");
        reveal_strlit(",");
        reveal_strlit("{\"trait_type\":\"");
        reveal_strlit("MaxSupply");
        reveal_strlit("\",\"value\":\"");
    }
    lemma_next_attribute(
        t3,
        "MaxSupply"@,
        supply_text(tier.max_supply),
        "\"},{\"trait_type\":\"MaxSupply\",\"value\":\""@,
    );
    let t4 = t3
        + ascii("\"},{\"trait_type\":\"MaxSupply\",\"value\":\""@)
        + supply_text(tier.max_supply);
    assert("\"},{\"trait_type\":\"Minted\",\"value\":\""@
        =~= "\"}"@ + ","@ + "{\"trait_type\":\""@ + "Minted"@ + "\",\"value\":\""@) by {
        reveal_strlit("\"},{\"trait_type\":\"Minted\",\"value\":\"");
        reveal_strlit("\"}");
        reveal_strlit(",");
        reveal_strlit("{\"trait_type\":\"");
        reveal_strlit("Minted");
        reveal_strlit("\",\"value\":\"");
    }
    lemma_next_attribute(
        t4,
        "Minted"@,
        digits(tier.minted as nat),
        "\"},{\"trait_type\":\"Minted\",\"value\":\""@,
    );
    let t5 = t4
        + ascii("\"},{\"trait_type\":\"Minted\",\"value\":\""@)
        + digits(tier.minted as nat);
    assert("\"},{\"trait_type\":\"Active\",\"value\":\""@
        =~= "\"}"@ + ","@ + "{\"trait_type\":\""@ + "Active"@ + "\",\"value\":\""@) by {
        reveal_strlit("\"},{\"trait_type\":\"Active\",\"value\":\"");
        reveal_strlit("\"}");
        reveal_strlit(",");
        reveal_strlit("{\"trait_type\":\"");
        reveal_strlit("Active");
        reveal_strlit("\",\"value\":\"");
    }
    lemma_next_attribute(
        t5,
        "Active"@,
        ascii(active_text(tier.active)),
        "\"},{\"trait_type\":\"Active\",\"value\":\""@,
    );
    let t6 = t5
        + ascii("\"},{\"trait_type\":\"Active\",\"value\":\""@)
        + ascii(active_text(tier.active));
    assert("\"}]}"@ =~= "\"}"@ + "]}"@) by {
        reveal_strlit("\"}]}");
        reveal_strlit("\"}");
        reveal_strlit("]}");
    }
    lemma_last_attribute(t6, "\"}]}"@);
}

/// The texts that are said to be the metadata of a pass and of a tier are those that
/// are made.
pub proof fn law_metadata_is_made_as_said(
    pass: &Pass,
    name: &[u8],
    creator: &[u8],
    now: u64,
    of_pass: Vec<u8>,
    tier: &Tier,
    of_tier: Vec<u8>,
)
    requires
        call_ensures(pass_metadata, (pass, name, creator, now), of_pass),
        call_ensures(tier_metadata, (tier, creator), of_tier),
    ensures
        of_pass@ == pass_json(pass@, name@, creator@, now),
        of_tier@ == tier_json(tier@, creator@),
{
}

/// The first trait after some text.
proof fn lemma_first_attribute(
    text: Seq<u8>,
    lead: Seq<char>,
    kind: Seq<char>,
    value: Seq<u8>,
    joint: Seq<char>,
)
    requires
        joint == lead + "{\"trait_type\":\""@ + kind + "\",\"value\":\""@,
    ensures
        text + ascii(lead) + attribute(kind, value) == text + ascii(joint) + value + ascii("\"}"@),
{
    assert(ascii(joint) =~= ascii(lead) + ascii("{\"trait_type\":\""@) + ascii(kind) + ascii(
        "\",\"value\":\""@,
    ));
    assert(text + ascii(lead) + attribute(kind, value) =~= text + ascii(joint) + value + ascii(
        "\"}"@,
    ));
}

/// One more trait after another.
proof fn lemma_next_attribute(text: Seq<u8>, kind: Seq<char>, value: Seq<u8>, joint: Seq<char>)
    requires
        joint == "\"}"@ + ","@ + "{\"trait_type\":\""@ + kind + "\",\"value\":\""@,
    ensures
        text + ascii("\"}"@) + ascii(","@) + attribute(kind, value) == text + ascii(joint) + value
            + ascii("\"}"@),
{
    lemma_first_attribute(text, "\"}"@ + ","@, kind, value, joint);
    assert(text + ascii("\"}"@ + ","@) =~= text + ascii("\"}"@) + ascii(","@));
}

/// The end of the last trait and of the text.
proof fn lemma_last_attribute(text: Seq<u8>, joint: Seq<char>)
    requires
        joint == "\"}"@ + "]}"@,
    ensures
        text + ascii("\"}"@) + ascii("]}"@) == text + ascii(joint),
{
    assert(text + ascii("\"}"@) + ascii("]}"@) =~= text + ascii(joint));
}

} // verus!
