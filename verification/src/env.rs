//! The ledger as one call of the contract sees it.

use vstd::prelude::*;

use crate::address::{Address, Bytes32};
use crate::effect::{Effect, Event};
use crate::failure::Failure;
use crate::storage::{Storage, StorageView};

verus! {

/// The ledger as a call sees it: the time, the contract's own address, its
/// entries, and what earlier steps asked of the ledger.
#[derive(Debug)]
pub struct Env {
    /// The ledger time, in seconds.
    pub timestamp: u64,
    /// The address of this contract.
    pub contract: Address,
    /// The contract's ledger entries.
    pub storage: Storage,
    /// What the ledger has to carry out, in order.
    pub effects: Vec<Effect>,
}

/// What an [`Env`] holds.
#[verifier::ext_equal]
pub struct EnvView {
    pub now: u64,
    pub contract: Address,
    pub state: StorageView,
    pub effects: Seq<Effect>,
}

impl View for Env {
    type V = EnvView;

    open spec fn view(&self) -> EnvView {
        EnvView {
            now: self.timestamp,
            contract: self.contract,
            state: self.storage@,
            effects: self.effects@,
        }
    }
}

/// How a call ends: refused, with nothing changed, or with `value` as its
/// result and the ledger as `applied`.
pub open spec fn settles<T>(
    refusal: Option<Failure>,
    value: T,
    applied: EnvView,
    before: EnvView,
    result: Result<T, Failure>,
    after: EnvView,
) -> bool {
    match refusal {
        Some(reason) => result == Err::<T, Failure>(reason) && after == before,
        None => result == Ok::<T, Failure>(value) && after == applied,
    }
}

impl Env {
    /// A ledger at the given time, without entries, for the contract at the
    /// given address.
    pub fn new(timestamp: u64, contract: Address) -> (env: Self)
        ensures
            env@ == (EnvView {
                now: timestamp,
                contract,
                state: StorageView::empty(),
                effects: Seq::empty(),
            }),
    {
        Env { timestamp, contract, storage: Storage::new(), effects: Vec::new() }
    }

    /// Asks for the signature of `address`.
    pub fn require_auth(&mut self, address: Address)
        ensures
            final(self)@ == (EnvView {
                effects: old(self)@.effects.push(Effect::RequireAuth(address)),
                ..old(self)@
            }),
    {
        self.effects.push(Effect::RequireAuth(address));
    }

    /// Asks for a transfer of tokens.
    pub fn transfer(&mut self, token: Address, from: Address, to: Address, amount: i128)
        ensures
            final(self)@ == (EnvView {
                effects: old(self)@.effects.push(Effect::Transfer { token, from, to, amount }),
                ..old(self)@
            }),
    {
        self.effects.push(Effect::Transfer { token, from, to, amount });
    }

    /// Asks for new contract code.
    pub fn replace_code(&mut self, code_hash: Bytes32)
        ensures
            final(self)@ == (EnvView {
                effects: old(self)@.effects.push(Effect::ReplaceCode(code_hash)),
                ..old(self)@
            }),
    {
        self.effects.push(Effect::ReplaceCode(code_hash));
    }

    /// Asks for an event to be published.
    pub fn publish(&mut self, event: Event)
        ensures
            final(self)@ == (EnvView {
                effects: old(self)@.effects.push(Effect::Publish(event)),
                ..old(self)@
            }),
    {
        self.effects.push(Effect::Publish(event));
    }
}

} // verus!
