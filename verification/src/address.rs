//! Ledger addresses and their textual form.

use soroban_sdk::xdr::{FromXdr, PublicKeyType, ScAddressType, ScValType};
use soroban_sdk::{Bytes, Env};
use vstd::prelude::*;

verus! {

/// Thirty-two bytes: an account key, a contract id or the hash of a contract's
/// code. `high` holds the first sixteen bytes and `low` the last sixteen, each
/// big-endian.
#[derive(Clone, Copy, Debug, PartialEq, Eq, Structural)]
pub struct Bytes32 {
    pub high: u128,
    pub low: u128,
}

/// A party known to the ledger: an account, named by its public key, or a
/// contract, named by its id.
#[derive(Clone, Copy, Debug, PartialEq, Eq, Structural)]
pub enum Address {
    Account(Bytes32),
    Contract(Bytes32),
}

/// The strkey of an address: what `soroban_sdk::Address::to_string` makes of
/// the account (`account`) or contract (not `account`) with the given key bytes.
pub uninterp spec fn strkey_text(account: bool, high: u128, low: u128) -> Seq<u8>;

/// How long every strkey of an account or a contract is.
pub const STRKEY_LEN: usize = 56;

impl Address {
    /// The strkey of this address.
    pub open spec fn strkey(self) -> Seq<u8> {
        match self {
            Address::Account(id) => strkey_text(true, id.high, id.low),
            Address::Contract(id) => strkey_text(false, id.high, id.low),
        }
    }
}

/// Calls `soroban_sdk::Address::to_string`, on the host address that the kind and
/// the key bytes spell in XDR. The strkey depends on the address alone. It is the unpadded
/// base-32 text of thirty-five bytes (a version byte, the key, a checksum of
/// two bytes), hence always fifty-six bytes long.
#[verifier::external_body]
fn address_to_strkey(account: bool, high: u128, low: u128) -> (text: Vec<u8>)
    ensures
        text@ == strkey_text(account, high, low),
        text@.len() == STRKEY_LEN,
{
    let env = Env::default();
    let mut xdr = Bytes::from_array(&env, &(ScValType::Address as i32).to_be_bytes());
    match account {
        true => {
            xdr.extend_from_array(&(ScAddressType::Account as i32).to_be_bytes());
            xdr.extend_from_array(&(PublicKeyType::PublicKeyTypeEd25519 as i32).to_be_bytes());
        },
        false => xdr.extend_from_array(&(ScAddressType::Contract as i32).to_be_bytes()),
    }
    xdr.extend_from_array(&high.to_be_bytes());
    xdr.extend_from_array(&low.to_be_bytes());
    let strkey = soroban_sdk::Address::from_xdr(&env, &xdr).unwrap().to_string();
    let mut text = vec![0u8; strkey.len() as usize];
    strkey.copy_into_slice(&mut text);
    text
}

/// The strkey of `address`.
pub fn strkey(address: Address) -> (text: Vec<u8>)
    ensures
        text@ == address.strkey(),
        text@.len() == STRKEY_LEN,
{
    match address {
        Address::Account(id) => address_to_strkey(true, id.high, id.low),
        Address::Contract(id) => address_to_strkey(false, id.high, id.low),
    }
}

} // verus!
