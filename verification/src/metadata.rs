//! Metadata of passes and tiers as JSON text.

use vstd::prelude::*;

use crate::address::{strkey, STRKEY_LEN};
use crate::contract::StarPassContract;
use crate::decimal::{
    append, digits, i128_to_decimal, lemma_i128_digits_len, lemma_u64_digits_len, signed_digits,
    u64_to_decimal,
};
use crate::env::{Env, EnvView};
use crate::failure::{abort, Abort, Failure};
use crate::types::{Pass, PassView, Tier, TierView};

verus! {

/// The longest tier name that metadata can be made for, in bytes.
pub const MAX_NAME_LEN: usize = 64;

/// Room for the metadata of a pass, in bytes.
pub const PASS_METADATA_ROOM: usize = 512;

/// Room for the metadata of a tier, in bytes.
pub const TIER_METADATA_ROOM: usize = 768;

/// How many bytes the naming of a trait takes beside the trait and its value.
const ATTRIBUTE_FRAME: usize = 28;

/// The bytes of an ASCII text.
pub open spec fn ascii(text: Seq<char>) -> Seq<u8> {
    Seq::new(text.len(), |i: int| text[i] as u8)
}

/// A JSON object that names a trait and its value.
pub open spec fn attribute(kind: Seq<char>, value: Seq<u8>) -> Seq<u8> {
    ascii("{\"trait_type\":\""@) + ascii(kind) + ascii("\",\"value\":\""@) + value + ascii(
        "\"}"@,
    )
}

/// When a pass expires: a time, or never.
pub open spec fn expiry_text(expires_at: u64) -> Seq<u8> {
    if expires_at == 0 {
        ascii("never"@)
    } else {
        digits(expires_at as nat)
    }
}

/// The status of a pass: switched off, run out, or neither.
pub open spec fn status_text(pass: PassView, now: u64) -> Seq<char> {
    if !pass.active {
        "inactive"@
    } else if pass.expires_at <= now {
        "expired"@
    } else {
        "active"@
    }
}

/// The metadata of a pass: a JSON object of the tier's name, the creator's
/// strkey, the expiry and the status.
pub open spec fn pass_json(
    pass: PassView,
    tier_name: Seq<u8>,
    creator_strkey: Seq<u8>,
    now: u64,
) -> Seq<u8> {
    ascii("{\"name\":\""@) + tier_name + ascii(
        " Pass\",\"description\":\"StarPass access pass\",\"attributes\":["@,
    ) + attribute("Tier"@, tier_name) + ascii(","@) + attribute("Creator"@, creator_strkey) + ascii(
        ","@,
    ) + attribute("Expires"@, expiry_text(pass.expires_at)) + ascii(","@) + attribute(
        "Status"@,
        ascii(status_text(pass, now)),
    ) + ascii("]}"@)
}

/// How many passes of a tier there can be: a number, or any.
pub open spec fn supply_text(max_supply: u32) -> Seq<u8> {
    if max_supply == 0 {
        ascii("unlimited"@)
    } else {
        digits(max_supply as nat)
    }
}

/// Whether a tier is active, in a word.
pub open spec fn active_text(active: bool) -> Seq<char> {
    if active {
        "true"@
    } else {
        "false"@
    }
}

/// The metadata of a tier: a JSON object of its name, its creator's strkey, its
/// price (stroops, or cents of a USD price), duration, supply, and whether it is
/// active.
pub open spec fn tier_json(tier: TierView, creator_strkey: Seq<u8>) -> Seq<u8> {
    ascii("{\"name\":\""@) + tier.name + ascii(
        "\",\"description\":\"StarPass tier collection by "@,
    ) + creator_strkey + ascii("\",\"attributes\":["@) + attribute("Creator"@, creator_strkey)
        + ascii(","@) + attribute("Price"@, signed_digits(tier.price.stored_amount() as int))
        + ascii(","@) + attribute("Duration"@, digits(tier.duration as nat)) + ascii(","@)
        + attribute("MaxSupply"@, supply_text(tier.max_supply)) + ascii(","@) + attribute(
        "Minted"@,
        digits(tier.minted as nat),
    ) + ascii(","@) + attribute("Active"@, ascii(active_text(tier.active))) + ascii("]}"@)
}

/// Why there is no metadata of a pass.
pub open spec fn pass_metadata_refusal(env: EnvView, pass_id: u64) -> Option<Failure> {
    let tier_id = env.state.passes[pass_id].tier_id;
    if !env.state.passes.contains_key(pass_id) {
        abort(Abort::PassNotFound)
    } else if !env.state.tiers.contains_key(tier_id) {
        abort(Abort::TierNotFound)
    } else if env.state.tiers[tier_id].name.len() > MAX_NAME_LEN {
        abort(Abort::NameTooLong)
    } else {
        None
    }
}

/// Why there is no metadata of a tier.
pub open spec fn tier_metadata_refusal(env: EnvView, tier_id: u32) -> Option<Failure> {
    if !env.state.tiers.contains_key(tier_id) {
        abort(Abort::TierNotFound)
    } else if env.state.tiers[tier_id].name.len() > MAX_NAME_LEN {
        abort(Abort::NameTooLong)
    } else {
        None
    }
}

/// Adds bytes to the text in `buf` before `cursor`.
fn put(buf: &mut [u8], cursor: &mut usize, src: &[u8])
    requires
        *old(cursor) + src@.len() <= old(buf)@.len(),
    ensures
        *final(cursor) == *old(cursor) + src@.len(),
        final(buf)@.len() == old(buf)@.len(),
        final(buf)@.take(*final(cursor) as int) == old(buf)@.take(*old(cursor) as int) + src@,
{
    let ghost start = *cursor as int;
    let ghost before = buf@;
    append(buf, cursor, src);
    assert(buf@.take(*cursor as int) =~= before.take(start) + src@);
}

/// The bytes of an ASCII text.
fn ascii_bytes(text: &str) -> (bytes: &[u8])
    requires
        vstd::string::is_ascii(text),
    ensures
        bytes@ == ascii(text@),
{
    proof {
        vstd::string::is_ascii_spec_bytes(text);
    }
    let bytes = text.as_bytes();
    assert(bytes@ =~= ascii(text@));
    bytes
}

/// Adds an ASCII text to the text in `buf` before `cursor`.
fn put_text(buf: &mut [u8], cursor: &mut usize, text: &str)
    requires
        vstd::string::is_ascii(text),
        *old(cursor) + text@.len() <= old(buf)@.len(),
    ensures
        *final(cursor) == *old(cursor) + text@.len(),
        final(buf)@.len() == old(buf)@.len(),
        final(buf)@.take(*final(cursor) as int) == old(buf)@.take(*old(cursor) as int) + ascii(
            text@,
        ),
{
    put(buf, cursor, ascii_bytes(text));
}

/// Adds the naming of a trait to the text in `buf` before `cursor`.
fn put_attribute(buf: &mut [u8], cursor: &mut usize, kind: &str, value: &[u8])
    requires
        vstd::string::is_ascii(kind),
        *old(cursor) + kind@.len() + value@.len() + ATTRIBUTE_FRAME <= old(buf)@.len(),
    ensures
        *final(cursor) == *old(cursor) + kind@.len() + value@.len() + ATTRIBUTE_FRAME,
        final(buf)@.len() == old(buf)@.len(),
        final(buf)@.take(*final(cursor) as int) == old(buf)@.take(*old(cursor) as int) + attribute(
            kind@,
            value@,
        ),
{
    proof {
        reveal_strlit("{\"trait_type\":\"");
        reveal_strlit("\",\"value\":\"");
        reveal_strlit("\"}");
    }
    let ghost start = buf@.take(*cursor as int);
    put_text(buf, cursor, "{\"trait_type\":\"");
    put_text(buf, cursor, kind);
    put_text(buf, cursor, "\",\"value\":\"");
    put(buf, cursor, value);
    put_text(buf, cursor, "\"}");
    assert(buf@.take(*cursor as int) =~= start + attribute(kind@, value@));
}

/// A copy of the first bytes of `buf`.
fn first_bytes(buf: &[u8], len: usize) -> (text: Vec<u8>)
    requires
        len <= buf@.len(),
    ensures
        text@ == buf@.take(len as int),
{
    let mut text: Vec<u8> = Vec::new();
    let mut i: usize = 0;
    while i < len
        invariant
            i <= len <= buf@.len(),
            text@ == buf@.take(i as int),
        decreases len - i,
    {
        text.push(buf[i]);
        i = i + 1;
        assert(text@ =~= buf@.take(i as int));
    }
    text
}

/// The metadata of a pass, given its tier's name and its creator's strkey.
pub fn pass_metadata(pass: &Pass, tier_name: &[u8], creator_strkey: &[u8], now: u64) -> (text: Vec<
    u8,
>)
    requires
        tier_name@.len() <= MAX_NAME_LEN,
        creator_strkey@.len() == STRKEY_LEN,
    ensures
        text@ == pass_json(pass@, tier_name@, creator_strkey@, now),
{
    proof {
        reveal_strlit("inactive");
        reveal_strlit("expired");
        reveal_strlit("active");
        reveal_strlit("never");
        reveal_strlit("{\"name\":\"");
        reveal_strlit(" Pass\",\"description\":\"StarPass access pass\",\"attributes\":[");
        reveal_strlit("Tier");
        reveal_strlit("Creator");
        reveal_strlit("Expires");
        reveal_strlit("Status");
        reveal_strlit(",");
        reveal_strlit("]}");
        lemma_u64_digits_len(pass.expires_at);
    }
    let status: &str = if !pass.active {
        "inactive"
    } else if pass.expires_at <= now {
        "expired"
    } else {
        "active"
    };
    let mut expires_buf = [0u8;20];
    let expires: &[u8] = if pass.expires_at == 0 {
        ascii_bytes("never")
    } else {
        u64_to_decimal(pass.expires_at, &mut expires_buf)
    };

    let mut buf = [0u8;PASS_METADATA_ROOM];
    let mut cursor: usize = 0;
    put_text(&mut buf, &mut cursor, "{\"name\":\"");
    put(&mut buf, &mut cursor, tier_name);
    put_text(
        &mut buf,
        &mut cursor,
        " Pass\",\"description\":\"StarPass access pass\",\"attributes\":[",
    );
    put_attribute(&mut buf, &mut cursor, "Tier", tier_name);
    put_text(&mut buf, &mut cursor, ",");
    put_attribute(&mut buf, &mut cursor, "Creator", creator_strkey);
    put_text(&mut buf, &mut cursor, ",");
    put_attribute(&mut buf, &mut cursor, "Expires", expires);
    put_text(&mut buf, &mut cursor, ",");
    put_attribute(&mut buf, &mut cursor, "Status", ascii_bytes(status));
    put_text(&mut buf, &mut cursor, "]}");
    first_bytes(&buf, cursor)
}

/// The metadata of a tier, given its creator's strkey.
pub fn tier_metadata(tier: &Tier, creator_strkey: &[u8]) -> (text: Vec<u8>)
    requires
        tier@.name.len() <= MAX_NAME_LEN,
        creator_strkey@.len() == STRKEY_LEN,
    ensures
        text@ == tier_json(tier@, creator_strkey@),
{
    proof {
        reveal_strlit("unlimited");
        reveal_strlit("true");
        reveal_strlit("false");
        reveal_strlit("{\"name\":\"");
        reveal_strlit("\",\"description\":\"StarPass tier collection by ");
        reveal_strlit("\",\"attributes\":[");
        reveal_strlit("Creator");
        reveal_strlit("Price");
        reveal_strlit("Duration");
        reveal_strlit("MaxSupply");
        reveal_strlit("Minted");
        reveal_strlit("Active");
        reveal_strlit(",");
        reveal_strlit("]}");
        lemma_i128_digits_len(tier.price.stored_amount());
        lemma_u64_digits_len(tier.duration);
        lemma_u64_digits_len(tier.max_supply as u64);
        lemma_u64_digits_len(tier.minted as u64);
    }
    let mut price_buf = [0u8;40];
    let price: &[u8] = i128_to_decimal(tier.price.amount(), &mut price_buf);
    let mut duration_buf = [0u8;20];
    let duration: &[u8] = u64_to_decimal(tier.duration, &mut duration_buf);
    let mut supply_buf = [0u8;20];
    let supply: &[u8] = if tier.max_supply == 0 {
        ascii_bytes("unlimited")
    } else {
        u64_to_decimal(tier.max_supply as u64, &mut supply_buf)
    };
    let mut minted_buf = [0u8;20];
    let minted: &[u8] = u64_to_decimal(tier.minted as u64, &mut minted_buf);
    let active: &str = if tier.active {
        "true"
    } else {
        "false"
    };

    let mut buf = [0u8;TIER_METADATA_ROOM];
    let mut cursor: usize = 0;
    put_text(&mut buf, &mut cursor, "{\"name\":\"");
    put(&mut buf, &mut cursor, &tier.name);
    put_text(&mut buf, &mut cursor, "\",\"description\":\"StarPass tier collection by ");
    put(&mut buf, &mut cursor, creator_strkey);
    put_text(&mut buf, &mut cursor, "\",\"attributes\":[");
    put_attribute(&mut buf, &mut cursor, "Creator", creator_strkey);
    put_text(&mut buf, &mut cursor, ",");
    put_attribute(&mut buf, &mut cursor, "Price", price);
    put_text(&mut buf, &mut cursor, ",");
    put_attribute(&mut buf, &mut cursor, "Duration", duration);
    put_text(&mut buf, &mut cursor, ",");
    put_attribute(&mut buf, &mut cursor, "MaxSupply", supply);
    put_text(&mut buf, &mut cursor, ",");
    put_attribute(&mut buf, &mut cursor, "Minted", minted);
    put_text(&mut buf, &mut cursor, ",");
    put_attribute(&mut buf, &mut cursor, "Active", ascii_bytes(active));
    put_text(&mut buf, &mut cursor, "]}");
    first_bytes(&buf, cursor)
}

/// The metadata of a pass is an object's text: it starts with an opening brace and
/// ends with a closing one. It fits the room that there is for it.
pub proof fn law_pass_metadata_is_framed(
    pass: PassView,
    tier_name: Seq<u8>,
    creator_strkey: Seq<u8>,
    now: u64,
)
    requires
        tier_name.len() <= MAX_NAME_LEN,
        creator_strkey.len() == STRKEY_LEN,
    ensures
        ({
            let text = pass_json(pass, tier_name, creator_strkey, now);
            &&& 0 < text.len() <= PASS_METADATA_ROOM
            &&& text[0] == '{' as u8
            &&& text.last() == '}' as u8
        }),
{
    reveal_strlit("inactive");
    reveal_strlit("expired");
    reveal_strlit("active");
    reveal_strlit("never");
    reveal_strlit("{\"name\":\"");
    reveal_strlit(" Pass\",\"description\":\"StarPass access pass\",\"attributes\":[");
    reveal_strlit("{\"trait_type\":\"");
    reveal_strlit("\",\"value\":\"");
    reveal_strlit("\"}");
    reveal_strlit("Tier");
    reveal_strlit("Creator");
    reveal_strlit("Expires");
    reveal_strlit("Status");
    reveal_strlit(",");
    reveal_strlit("]}");
    lemma_u64_digits_len(pass.expires_at);
}

/// The metadata of a tier is framed in the same way, and fits its room.
pub proof fn law_tier_metadata_is_framed(tier: TierView, creator_strkey: Seq<u8>)
    requires
        tier.name.len() <= MAX_NAME_LEN,
        creator_strkey.len() == STRKEY_LEN,
    ensures
        ({
            let text = tier_json(tier, creator_strkey);
            &&& 0 < text.len() <= TIER_METADATA_ROOM
            &&& text[0] == '{' as u8
            &&& text.last() == '}' as u8
        }),
{
    reveal_strlit("unlimited");
    reveal_strlit("true");
    reveal_strlit("false");
    reveal_strlit("{\"name\":\"");
    reveal_strlit("\",\"description\":\"StarPass tier collection by ");
    reveal_strlit("\",\"attributes\":[");
    reveal_strlit("{\"trait_type\":\"");
    reveal_strlit("\",\"value\":\"");
    reveal_strlit("\"}");
    reveal_strlit("Creator");
    reveal_strlit("Price");
    reveal_strlit("Duration");
    reveal_strlit("MaxSupply");
    reveal_strlit("Minted");
    reveal_strlit("Active");
    reveal_strlit(",");
    reveal_strlit("]}");
    lemma_i128_digits_len(tier.price.stored_amount());
    lemma_u64_digits_len(tier.duration);
    lemma_u64_digits_len(tier.max_supply as u64);
    lemma_u64_digits_len(tier.minted as u64);
}

impl StarPassContract {
    /// The metadata of a pass, for marketplaces and wallets.
    pub fn get_pass_metadata(env: &Env, pass_id: u64) -> (result: Result<Vec<u8>, Failure>)
        ensures
            match result {
                Ok(text) => {
                    let pass = env@.state.passes[pass_id];
                    &&& pass_metadata_refusal(env@, pass_id) is None
                    &&& text@ == pass_json(
                        pass,
                        env@.state.tiers[pass.tier_id].name,
                        pass.creator.strkey(),
                        env@.now,
                    )
                },
                Err(reason) => pass_metadata_refusal(env@, pass_id) == Some(reason),
            },
    {
        let pass = match env.storage.pass(pass_id) {
            Some(pass) => pass,
            None => return Err(Failure::Abort(Abort::PassNotFound)),
        };
        let tier = match env.storage.tier(pass.tier_id) {
            Some(tier) => tier,
            None => return Err(Failure::Abort(Abort::TierNotFound)),
        };
        if tier.name.len() > MAX_NAME_LEN {
            return Err(Failure::Abort(Abort::NameTooLong));
        }
        let creator_strkey: Vec<u8> = strkey(pass.creator);
        Ok(pass_metadata(&pass, &tier.name, &creator_strkey, env.timestamp))
    }

    /// The metadata of a tier, for marketplaces that show it as a collection.
    pub fn get_tier_collection_metadata(env: &Env, tier_id: u32) -> (result: Result<
        Vec<u8>,
        Failure,
    >)
        ensures
            match result {
                Ok(text) => {
                    let tier = env@.state.tiers[tier_id];
                    &&& tier_metadata_refusal(env@, tier_id) is None
                    &&& text@ == tier_json(tier, tier.creator.strkey())
                },
                Err(reason) => tier_metadata_refusal(env@, tier_id) == Some(reason),
            },
    {
        let tier = match env.storage.tier(tier_id) {
            Some(tier) => tier,
            None => return Err(Failure::Abort(Abort::TierNotFound)),
        };
        if tier.name.len() > MAX_NAME_LEN {
            return Err(Failure::Abort(Abort::NameTooLong));
        }
        let creator_strkey: Vec<u8> = strkey(tier.creator);
        Ok(tier_metadata(&tier, &creator_strkey))
    }
}

} // verus!
