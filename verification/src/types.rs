//! The records that the contract keeps, and the keys they are kept under.

use vstd::prelude::*;

use crate::address::Address;
use crate::table::{Record, TableKey};

verus! {

/// A permission's name.
#[derive(Clone, Debug, PartialEq, Eq)]
pub struct Symbol {
    text: String,
}

impl View for Symbol {
    type V = Seq<char>;

    closed spec fn view(&self) -> Seq<char> {
        self.text@
    }
}

impl Symbol {
    /// The symbol with the given text.
    pub fn new(text: String) -> (symbol: Self)
        ensures
            symbol@ == text@,
    {
        Symbol { text }
    }

    /// The symbol's text.
    pub fn as_str(&self) -> (text: &str)
        ensures
            text@ == self@,
    {
        self.text.as_str()
    }

    /// Whether two symbols have one text.
    pub fn same(&self, other: &Symbol) -> (same: bool)
        ensures
            same == (self@ == other@),
    {
        self.text == other.text
    }
}

impl Record for Symbol {
    fn duplicate(&self) -> (copy: Self) {
        Symbol { text: self.text.clone() }
    }
}

/// The texts of a list of symbols.
pub open spec fn texts(symbols: Seq<Symbol>) -> Seq<Seq<char>> {
    symbols.map_values(|symbol: Symbol| symbol@)
}

/// A copy of a list of symbols.
pub fn duplicate_symbols(symbols: &Vec<Symbol>) -> (copy: Vec<Symbol>)
    ensures
        texts(copy@) == texts(symbols@),
{
    let mut copy: Vec<Symbol> = Vec::new();
    let mut i: usize = 0;
    while i < symbols.len()
        invariant
            i <= symbols@.len(),
            texts(copy@) == texts(symbols@).take(i as int),
        decreases symbols@.len() - i,
    {
        let ghost before = copy@;
        copy.push(symbols[i].duplicate());
        assert(texts(copy@) == texts(before).push(copy@.last()@));
        assert(texts(symbols@).take(i + 1) == texts(symbols@).take(i as int).push(
            symbols@[i as int]@,
        ));
        i = i + 1;
    }
    assert(texts(symbols@).take(symbols@.len() as int) == texts(symbols@));
    copy
}

/// How a tier's price is denominated.
#[derive(Clone, Copy, Debug, PartialEq, Eq, Structural)]
pub enum TierPriceMode {
    /// A fixed price in the payment token's base units (stroops).
    Fixed(i128),
    /// A price in USD cents, converted to base units of the payment token at
    /// mint or renewal time by the configured oracle's current rate.
    USDDenominated(i128),
}

impl TierPriceMode {
    /// The stored amount: stroops of a fixed price, cents of a USD price.
    pub open spec fn stored_amount(self) -> i128 {
        match self {
            TierPriceMode::Fixed(amount) => amount,
            TierPriceMode::USDDenominated(cents) => cents,
        }
    }

    /// The stored amount: stroops of a fixed price, cents of a USD price.
    pub fn amount(&self) -> (amount: i128)
        ensures
            amount == self.stored_amount(),
    {
        match self {
            TierPriceMode::Fixed(amount) => *amount,
            TierPriceMode::USDDenominated(cents) => *cents,
        }
    }
}

/// A membership tier defined by a creator.
#[derive(Clone, Debug, PartialEq, Eq)]
pub struct Tier {
    pub tier_id: u32,
    pub creator: Address,
    pub name: Vec<u8>,
    pub price: TierPriceMode,
    /// How long a pass lasts, in seconds.
    pub duration: u64,
    /// How many passes may be minted; zero stands for any number.
    pub max_supply: u32,
    pub minted: u32,
    pub active: bool,
    /// The permissions that passes of this tier can carry.
    pub permissions: Vec<Symbol>,
}

/// What a [`Tier`] holds.
#[verifier::ext_equal]
pub struct TierView {
    pub tier_id: u32,
    pub creator: Address,
    pub name: Seq<u8>,
    pub price: TierPriceMode,
    pub duration: u64,
    pub max_supply: u32,
    pub minted: u32,
    pub active: bool,
    pub permissions: Seq<Seq<char>>,
}

impl View for Tier {
    type V = TierView;

    open spec fn view(&self) -> TierView {
        TierView {
            tier_id: self.tier_id,
            creator: self.creator,
            name: self.name@,
            price: self.price,
            duration: self.duration,
            max_supply: self.max_supply,
            minted: self.minted,
            active: self.active,
            permissions: texts(self.permissions@),
        }
    }
}

impl Record for Tier {
    fn duplicate(&self) -> (copy: Self) {
        Tier {
            tier_id: self.tier_id,
            creator: self.creator,
            name: self.name.duplicate(),
            price: self.price,
            duration: self.duration,
            max_supply: self.max_supply,
            minted: self.minted,
            active: self.active,
            permissions: duplicate_symbols(&self.permissions),
        }
    }
}

/// An access pass owned by a fan.
#[derive(Clone, Debug, PartialEq, Eq)]
pub struct Pass {
    pub pass_id: u64,
    pub tier_id: u32,
    pub creator: Address,
    pub owner: Address,
    /// The token that the pass was paid in.
    pub token: Address,
    pub purchased_at: u64,
    pub expires_at: u64,
    pub active: bool,
    pub paused: bool,
    pub paused_at: u64,
    pub total_paused_seconds: u64,
    /// The permissions granted at mint, out of those of the tier.
    pub pass_permissions: Vec<Symbol>,
}

/// What a [`Pass`] holds.
#[verifier::ext_equal]
pub struct PassView {
    pub pass_id: u64,
    pub tier_id: u32,
    pub creator: Address,
    pub owner: Address,
    pub token: Address,
    pub purchased_at: u64,
    pub expires_at: u64,
    pub active: bool,
    pub paused: bool,
    pub paused_at: u64,
    pub total_paused_seconds: u64,
    pub pass_permissions: Seq<Seq<char>>,
}

impl PassView {
    /// Whether the pass gives access at `now`: it is active, not paused and
    /// not expired.
    pub open spec fn usable(self, now: u64) -> bool {
        self.active && !self.paused && self.expires_at > now
    }
}

impl View for Pass {
    type V = PassView;

    open spec fn view(&self) -> PassView {
        PassView {
            pass_id: self.pass_id,
            tier_id: self.tier_id,
            creator: self.creator,
            owner: self.owner,
            token: self.token,
            purchased_at: self.purchased_at,
            expires_at: self.expires_at,
            active: self.active,
            paused: self.paused,
            paused_at: self.paused_at,
            total_paused_seconds: self.total_paused_seconds,
            pass_permissions: texts(self.pass_permissions@),
        }
    }
}

impl Record for Pass {
    fn duplicate(&self) -> (copy: Self) {
        Pass {
            pass_id: self.pass_id,
            tier_id: self.tier_id,
            creator: self.creator,
            owner: self.owner,
            token: self.token,
            purchased_at: self.purchased_at,
            expires_at: self.expires_at,
            active: self.active,
            paused: self.paused,
            paused_at: self.paused_at,
            total_paused_seconds: self.total_paused_seconds,
            pass_permissions: duplicate_symbols(&self.pass_permissions),
        }
    }
}

impl Pass {
    /// Whether the pass gives access at `now`.
    pub fn is_usable(&self, now: u64) -> (usable: bool)
        ensures
            usable == self@.usable(now),
    {
        self.active && !self.paused && self.expires_at > now
    }
}

/// The profile of a registered creator.
#[derive(Clone, Copy, Debug, PartialEq, Eq, Structural)]
pub struct Creator {
    pub address: Address,
    pub registered_at: u64,
    pub total_earned: i128,
    pub pass_count: u64,
}

impl View for Creator {
    type V = Creator;

    open spec fn view(&self) -> Creator {
        *self
    }
}

impl Record for Creator {
    fn duplicate(&self) -> (copy: Self) {
        *self
    }
}

/// Permissions that a creator lends to a fan for a time.
#[derive(Clone, Debug, PartialEq, Eq)]
pub struct PermissionGrant {
    pub fan: Address,
    pub tier_id: u32,
    pub permissions: Vec<Symbol>,
    pub expires_at: u64,
}

/// What a [`PermissionGrant`] holds.
#[verifier::ext_equal]
pub struct GrantView {
    pub fan: Address,
    pub tier_id: u32,
    pub permissions: Seq<Seq<char>>,
    pub expires_at: u64,
}

impl View for PermissionGrant {
    type V = GrantView;

    open spec fn view(&self) -> GrantView {
        GrantView {
            fan: self.fan,
            tier_id: self.tier_id,
            permissions: texts(self.permissions@),
            expires_at: self.expires_at,
        }
    }
}

impl Record for PermissionGrant {
    fn duplicate(&self) -> (copy: Self) {
        PermissionGrant {
            fan: self.fan,
            tier_id: self.tier_id,
            permissions: duplicate_symbols(&self.permissions),
            expires_at: self.expires_at,
        }
    }
}

/// An earning held in escrow until it unlocks or is released early.
#[derive(Clone, Copy, Debug, PartialEq, Eq, Structural)]
pub struct PendingEarning {
    /// The creator that the earning belongs to.
    pub creator: Address,
    /// The amount of tokens held.
    pub amount: i128,
    /// The token held.
    pub token: Address,
    /// The ledger time after which the earning can be released.
    pub unlocks_at: u64,
    /// Whether the earning has been released. Released earnings are kept for
    /// the record and are not released again.
    pub released: bool,
    /// The earning's number, unique per creator.
    pub earning_id: u64,
}

impl PendingEarning {
    /// Whether the earning can be released at `now` without a proposal.
    pub open spec fn due(self, now: u64) -> bool {
        !self.released && now > self.unlocks_at
    }
}

impl View for PendingEarning {
    type V = PendingEarning;

    open spec fn view(&self) -> PendingEarning {
        *self
    }
}

impl Record for PendingEarning {
    fn duplicate(&self) -> (copy: Self) {
        *self
    }
}

/// The admin's half of an early release, waiting for the creator's approval.
#[derive(Clone, Copy, Debug, PartialEq, Eq, Structural)]
pub struct EarlyReleaseProposal {
    pub admin: Address,
    pub creator: Address,
    pub earning_id: u64,
    pub proposed_at: u64,
}

impl View for EarlyReleaseProposal {
    type V = EarlyReleaseProposal;

    open spec fn view(&self) -> EarlyReleaseProposal {
        *self
    }
}

impl Record for EarlyReleaseProposal {
    fn duplicate(&self) -> (copy: Self) {
        *self
    }
}

/// What tells one earning from another.
#[derive(Clone, Copy, Debug, PartialEq, Eq, Structural)]
pub struct EarningKey {
    pub creator: Address,
    pub earning_id: u64,
}

impl TableKey for EarningKey {
    fn same_key(&self, other: &Self) -> (same: bool) {
        *self == *other
    }
}

/// What tells one permission grant from another.
#[derive(Clone, Copy, Debug, PartialEq, Eq, Structural)]
pub struct GrantKey {
    pub fan: Address,
    pub tier_id: u32,
}

impl TableKey for GrantKey {
    fn same_key(&self, other: &Self) -> (same: bool) {
        *self == *other
    }
}

/// The keys of the ledger entries that the contract keeps.
#[derive(Clone, Copy, Debug, PartialEq, Eq, Structural)]
pub enum DataKey {
    Admin,
    /// The payment token's address.
    Token,
    /// The protocol fee in basis points: 250 is 2.5%.
    ProtocolFeeBps,
    /// How long earnings are locked, in seconds.
    LockPeriodSeconds,
    /// The least balance that a creator can withdraw.
    MinWithdrawal,
    /// The price oracle's address.
    OracleContract,
    Creator(Address),
    Tier(u32),
    TierCount,
    Pass(u64),
    PassCount,
    /// A creator's withdrawable balance.
    CreatorBalance(Address),
    /// The number that a creator's next earning gets.
    PendingEarningCount(Address),
    PendingEarning(Address, u64),
    /// An early release proposal, by the number of the earning.
    EarlyReleaseProposal(u64),
    /// The passes of a fan.
    FanPasses(Address),
    /// The tiers of a creator.
    CreatorTiers(Address),
    ContractVersion,
    PermissionGrant(Address, u32),
}

} // verus!
