//! The contract's ledger entries.

use vstd::prelude::*;

use crate::address::Address;
use crate::table::{lookup, viewed, Table};
use crate::types::{
    Creator, DataKey, EarlyReleaseProposal, EarningKey, GrantKey, GrantView, Pass, PassView,
    PendingEarning, PermissionGrant, Tier, TierView,
};

verus! {

/// What the contract's ledger entries hold.
#[verifier::ext_equal]
pub struct StorageView {
    /// The admin.
    pub admin: Option<Address>,
    /// The payment token.
    pub token: Option<Address>,
    /// The protocol fee in basis points.
    pub protocol_fee_bps: Option<u32>,
    /// The lock period in seconds.
    pub lock_period_seconds: Option<u64>,
    /// The least withdrawal.
    pub min_withdrawal: Option<i128>,
    /// The price oracle.
    pub oracle: Option<Address>,
    /// The number of tiers.
    pub tier_count: Option<u32>,
    /// The number of passes.
    pub pass_count: Option<u64>,
    /// The contract version.
    pub contract_version: Option<u32>,
    pub creators: Map<Address, Creator>,
    pub tiers: Map<u32, TierView>,
    pub passes: Map<u64, PassView>,
    pub creator_balances: Map<Address, i128>,
    pub earning_counts: Map<Address, u64>,
    pub earnings: Map<EarningKey, PendingEarning>,
    pub proposals: Map<u64, EarlyReleaseProposal>,
    pub fan_passes: Map<Address, Seq<u64>>,
    pub creator_tiers: Map<Address, Seq<u32>>,
    pub grants: Map<GrantKey, GrantView>,
    /// The keys written or removed since the journal was last cleared, in the
    /// order of the writes.
    pub writes: Seq<DataKey>,
}

impl StorageView {
    /// Nothing stored.
    pub open spec fn empty() -> Self {
        StorageView {
            admin: None,
            token: None,
            protocol_fee_bps: None,
            lock_period_seconds: None,
            min_withdrawal: None,
            oracle: None,
            tier_count: None,
            pass_count: None,
            contract_version: None,
            creators: Map::empty(),
            tiers: Map::empty(),
            passes: Map::empty(),
            creator_balances: Map::empty(),
            earning_counts: Map::empty(),
            earnings: Map::empty(),
            proposals: Map::empty(),
            fan_passes: Map::empty(),
            creator_tiers: Map::empty(),
            grants: Map::empty(),
            writes: Seq::empty(),
        }
    }
}

/// The contract's ledger entries, with a journal of the keys written.
#[derive(Debug)]
pub struct Storage {
    admin: Option<Address>,
    token: Option<Address>,
    protocol_fee_bps: Option<u32>,
    lock_period_seconds: Option<u64>,
    min_withdrawal: Option<i128>,
    oracle: Option<Address>,
    tier_count: Option<u32>,
    pass_count: Option<u64>,
    contract_version: Option<u32>,
    creators: Table<Address, Creator>,
    tiers: Table<u32, Tier>,
    passes: Table<u64, Pass>,
    creator_balances: Table<Address, i128>,
    earning_counts: Table<Address, u64>,
    earnings: Table<EarningKey, PendingEarning>,
    proposals: Table<u64, EarlyReleaseProposal>,
    fan_passes: Table<Address, Vec<u64>>,
    creator_tiers: Table<Address, Vec<u32>>,
    grants: Table<GrantKey, PermissionGrant>,
    writes: Vec<DataKey>,
}

impl View for Storage {
    type V = StorageView;

    closed spec fn view(&self) -> StorageView {
        StorageView {
            admin: self.admin,
            token: self.token,
            protocol_fee_bps: self.protocol_fee_bps,
            lock_period_seconds: self.lock_period_seconds,
            min_withdrawal: self.min_withdrawal,
            oracle: self.oracle,
            tier_count: self.tier_count,
            pass_count: self.pass_count,
            contract_version: self.contract_version,
            creators: self.creators@,
            tiers: self.tiers@,
            passes: self.passes@,
            creator_balances: self.creator_balances@,
            earning_counts: self.earning_counts@,
            earnings: self.earnings@,
            proposals: self.proposals@,
            fan_passes: self.fan_passes@,
            creator_tiers: self.creator_tiers@,
            grants: self.grants@,
            writes: self.writes@,
        }
    }
}

impl Storage {
    /// No entries, and an empty journal.
    pub fn new() -> (storage: Self)
        ensures
            storage@ == StorageView::empty(),
    {
        let storage = Storage {
            admin: None,
            token: None,
            protocol_fee_bps: None,
            lock_period_seconds: None,
            min_withdrawal: None,
            oracle: None,
            tier_count: None,
            pass_count: None,
            contract_version: None,
            creators: Table::new(),
            tiers: Table::new(),
            passes: Table::new(),
            creator_balances: Table::new(),
            earning_counts: Table::new(),
            earnings: Table::new(),
            proposals: Table::new(),
            fan_passes: Table::new(),
            creator_tiers: Table::new(),
            grants: Table::new(),
            writes: Vec::new(),
        };
        assert(storage@ =~= StorageView::empty());
        storage
    }

    /// The keys written or removed since the journal was last cleared.
    pub fn writes(&self) -> (writes: &Vec<DataKey>)
        ensures
            writes@ == self@.writes,
    {
        &self.writes
    }

    /// Clears the journal.
    pub fn clear_writes(&mut self)
        ensures
            final(self)@ == (StorageView { writes: Seq::empty(), ..old(self)@ }),
    {
        self.writes = Vec::new();
    }

    /// Reads the admin.
    pub fn admin(&self) -> (value: Option<Address>)
        ensures
            value == self@.admin,
    {
        self.admin
    }

    /// Writes the admin.
    pub fn set_admin(&mut self, value: Address)
        ensures
            final(self)@ == (StorageView {
                admin: Some(value),
                writes: old(self)@.writes.push(DataKey::Admin),
                ..old(self)@
            }),
    {
        self.admin = Some(value);
        self.writes.push(DataKey::Admin);
    }

    /// Reads the payment token.
    pub fn token(&self) -> (value: Option<Address>)
        ensures
            value == self@.token,
    {
        self.token
    }

    /// Writes the payment token.
    pub fn set_token(&mut self, value: Address)
        ensures
            final(self)@ == (StorageView {
                token: Some(value),
                writes: old(self)@.writes.push(DataKey::Token),
                ..old(self)@
            }),
    {
        self.token = Some(value);
        self.writes.push(DataKey::Token);
    }

    /// Reads the protocol fee in basis points.
    pub fn protocol_fee_bps(&self) -> (value: Option<u32>)
        ensures
            value == self@.protocol_fee_bps,
    {
        self.protocol_fee_bps
    }

    /// Writes the protocol fee in basis points.
    pub fn set_protocol_fee_bps(&mut self, value: u32)
        ensures
            final(self)@ == (StorageView {
                protocol_fee_bps: Some(value),
                writes: old(self)@.writes.push(DataKey::ProtocolFeeBps),
                ..old(self)@
            }),
    {
        self.protocol_fee_bps = Some(value);
        self.writes.push(DataKey::ProtocolFeeBps);
    }

    /// Reads the lock period in seconds.
    pub fn lock_period_seconds(&self) -> (value: Option<u64>)
        ensures
            value == self@.lock_period_seconds,
    {
        self.lock_period_seconds
    }

    /// Writes the lock period in seconds.
    pub fn set_lock_period_seconds(&mut self, value: u64)
        ensures
            final(self)@ == (StorageView {
                lock_period_seconds: Some(value),
                writes: old(self)@.writes.push(DataKey::LockPeriodSeconds),
                ..old(self)@
            }),
    {
        self.lock_period_seconds = Some(value);
        self.writes.push(DataKey::LockPeriodSeconds);
    }

    /// Reads the least withdrawal.
    pub fn min_withdrawal(&self) -> (value: Option<i128>)
        ensures
            value == self@.min_withdrawal,
    {
        self.min_withdrawal
    }

    /// Writes the least withdrawal.
    pub fn set_min_withdrawal(&mut self, value: i128)
        ensures
            final(self)@ == (StorageView {
                min_withdrawal: Some(value),
                writes: old(self)@.writes.push(DataKey::MinWithdrawal),
                ..old(self)@
            }),
    {
        self.min_withdrawal = Some(value);
        self.writes.push(DataKey::MinWithdrawal);
    }

    /// Reads the price oracle.
    pub fn oracle(&self) -> (value: Option<Address>)
        ensures
            value == self@.oracle,
    {
        self.oracle
    }

    /// Writes the price oracle.
    pub fn set_oracle(&mut self, value: Address)
        ensures
            final(self)@ == (StorageView {
                oracle: Some(value),
                writes: old(self)@.writes.push(DataKey::OracleContract),
                ..old(self)@
            }),
    {
        self.oracle = Some(value);
        self.writes.push(DataKey::OracleContract);
    }

    /// Reads the number of tiers.
    pub fn tier_count(&self) -> (value: Option<u32>)
        ensures
            value == self@.tier_count,
    {
        self.tier_count
    }

    /// Writes the number of tiers.
    pub fn set_tier_count(&mut self, value: u32)
        ensures
            final(self)@ == (StorageView {
                tier_count: Some(value),
                writes: old(self)@.writes.push(DataKey::TierCount),
                ..old(self)@
            }),
    {
        self.tier_count = Some(value);
        self.writes.push(DataKey::TierCount);
    }

    /// Reads the number of passes.
    pub fn pass_count(&self) -> (value: Option<u64>)
        ensures
            value == self@.pass_count,
    {
        self.pass_count
    }

    /// Writes the number of passes.
    pub fn set_pass_count(&mut self, value: u64)
        ensures
            final(self)@ == (StorageView {
                pass_count: Some(value),
                writes: old(self)@.writes.push(DataKey::PassCount),
                ..old(self)@
            }),
    {
        self.pass_count = Some(value);
        self.writes.push(DataKey::PassCount);
    }

    /// Reads the contract version.
    pub fn contract_version(&self) -> (value: Option<u32>)
        ensures
            value == self@.contract_version,
    {
        self.contract_version
    }

    /// Writes the contract version.
    pub fn set_contract_version(&mut self, value: u32)
        ensures
            final(self)@ == (StorageView {
                contract_version: Some(value),
                writes: old(self)@.writes.push(DataKey::ContractVersion),
                ..old(self)@
            }),
    {
        self.contract_version = Some(value);
        self.writes.push(DataKey::ContractVersion);
    }

    /// Reads the profile of a creator.
    pub fn creator(&self, address: Address) -> (value: Option<Creator>)
        ensures
            value == lookup(self@.creators, address),
    {
        self.creators.get(address)
    }

    /// Writes the profile of a creator.
    pub fn set_creator(&mut self, address: Address, value: Creator)
        ensures
            final(self)@ == (StorageView {
                creators: old(self)@.creators.insert(address, value),
                writes: old(self)@.writes.push(DataKey::Creator(address)),
                ..old(self)@
            }),
    {
        self.creators.set(address, value);
        self.writes.push(DataKey::Creator(address));
    }

    /// Reads a tier.
    pub fn tier(&self, tier_id: u32) -> (value: Option<Tier>)
        ensures
            viewed(value) == lookup(self@.tiers, tier_id),
    {
        self.tiers.get(tier_id)
    }

    /// Writes a tier.
    pub fn set_tier(&mut self, tier_id: u32, value: Tier)
        ensures
            final(self)@ == (StorageView {
                tiers: old(self)@.tiers.insert(tier_id, value@),
                writes: old(self)@.writes.push(DataKey::Tier(tier_id)),
                ..old(self)@
            }),
    {
        self.tiers.set(tier_id, value);
        self.writes.push(DataKey::Tier(tier_id));
    }

    /// Reads a pass.
    pub fn pass(&self, pass_id: u64) -> (value: Option<Pass>)
        ensures
            viewed(value) == lookup(self@.passes, pass_id),
    {
        self.passes.get(pass_id)
    }

    /// Writes a pass.
    pub fn set_pass(&mut self, pass_id: u64, value: Pass)
        ensures
            final(self)@ == (StorageView {
                passes: old(self)@.passes.insert(pass_id, value@),
                writes: old(self)@.writes.push(DataKey::Pass(pass_id)),
                ..old(self)@
            }),
    {
        self.passes.set(pass_id, value);
        self.writes.push(DataKey::Pass(pass_id));
    }

    /// Reads the withdrawable balance of a creator.
    pub fn creator_balance(&self, creator: Address) -> (value: Option<i128>)
        ensures
            value == lookup(self@.creator_balances, creator),
    {
        self.creator_balances.get(creator)
    }

    /// Writes the withdrawable balance of a creator.
    pub fn set_creator_balance(&mut self, creator: Address, value: i128)
        ensures
            final(self)@ == (StorageView {
                creator_balances: old(self)@.creator_balances.insert(creator, value),
                writes: old(self)@.writes.push(DataKey::CreatorBalance(creator)),
                ..old(self)@
            }),
    {
        self.creator_balances.set(creator, value);
        self.writes.push(DataKey::CreatorBalance(creator));
    }

    /// Reads how many earnings a creator has had.
    pub fn earning_count(&self, creator: Address) -> (value: Option<u64>)
        ensures
            value == lookup(self@.earning_counts, creator),
    {
        self.earning_counts.get(creator)
    }

    /// Writes how many earnings a creator has had.
    pub fn set_earning_count(&mut self, creator: Address, value: u64)
        ensures
            final(self)@ == (StorageView {
                earning_counts: old(self)@.earning_counts.insert(creator, value),
                writes: old(self)@.writes.push(DataKey::PendingEarningCount(creator)),
                ..old(self)@
            }),
    {
        self.earning_counts.set(creator, value);
        self.writes.push(DataKey::PendingEarningCount(creator));
    }

    /// Reads an earning of a creator.
    pub fn earning(&self, creator: Address, earning_id: u64) -> (value: Option<PendingEarning>)
        ensures
            value == lookup(self@.earnings, EarningKey { creator, earning_id }),
    {
        self.earnings.get(EarningKey { creator, earning_id })
    }

    /// Writes an earning of a creator.
    pub fn set_earning(&mut self, creator: Address, earning_id: u64, value: PendingEarning)
        ensures
            final(self)@ == (StorageView {
                earnings: old(self)@.earnings.insert(EarningKey { creator, earning_id }, value),
                writes: old(self)@.writes.push(DataKey::PendingEarning(creator, earning_id)),
                ..old(self)@
            }),
    {
        self.earnings.set(EarningKey { creator, earning_id }, value);
        self.writes.push(DataKey::PendingEarning(creator, earning_id));
    }

    /// Reads an early release proposal.
    pub fn proposal(&self, earning_id: u64) -> (value: Option<EarlyReleaseProposal>)
        ensures
            value == lookup(self@.proposals, earning_id),
    {
        self.proposals.get(earning_id)
    }

    /// Writes an early release proposal.
    pub fn set_proposal(&mut self, earning_id: u64, value: EarlyReleaseProposal)
        ensures
            final(self)@ == (StorageView {
                proposals: old(self)@.proposals.insert(earning_id, value),
                writes: old(self)@.writes.push(DataKey::EarlyReleaseProposal(earning_id)),
                ..old(self)@
            }),
    {
        self.proposals.set(earning_id, value);
        self.writes.push(DataKey::EarlyReleaseProposal(earning_id));
    }

    /// Removes an early release proposal.
    pub fn remove_proposal(&mut self, earning_id: u64)
        ensures
            final(self)@ == (StorageView {
                proposals: old(self)@.proposals.remove(earning_id),
                writes: old(self)@.writes.push(DataKey::EarlyReleaseProposal(earning_id)),
                ..old(self)@
            }),
    {
        self.proposals.remove(earning_id);
        self.writes.push(DataKey::EarlyReleaseProposal(earning_id));
    }

    /// Reads the numbers of the passes of a fan.
    pub fn passes_of_fan(&self, fan: Address) -> (value: Option<Vec<u64>>)
        ensures
            viewed(value) == lookup(self@.fan_passes, fan),
    {
        self.fan_passes.get(fan)
    }

    /// Writes the numbers of the passes of a fan.
    pub fn set_passes_of_fan(&mut self, fan: Address, value: Vec<u64>)
        ensures
            final(self)@ == (StorageView {
                fan_passes: old(self)@.fan_passes.insert(fan, value@),
                writes: old(self)@.writes.push(DataKey::FanPasses(fan)),
                ..old(self)@
            }),
    {
        self.fan_passes.set(fan, value);
        self.writes.push(DataKey::FanPasses(fan));
    }

    /// Reads the numbers of the tiers of a creator.
    pub fn tiers_of_creator(&self, creator: Address) -> (value: Option<Vec<u32>>)
        ensures
            viewed(value) == lookup(self@.creator_tiers, creator),
    {
        self.creator_tiers.get(creator)
    }

    /// Writes the numbers of the tiers of a creator.
    pub fn set_tiers_of_creator(&mut self, creator: Address, value: Vec<u32>)
        ensures
            final(self)@ == (StorageView {
                creator_tiers: old(self)@.creator_tiers.insert(creator, value@),
                writes: old(self)@.writes.push(DataKey::CreatorTiers(creator)),
                ..old(self)@
            }),
    {
        self.creator_tiers.set(creator, value);
        self.writes.push(DataKey::CreatorTiers(creator));
    }

    /// Reads a permission grant.
    pub fn grant(&self, fan: Address, tier_id: u32) -> (value: Option<PermissionGrant>)
        ensures
            viewed(value) == lookup(self@.grants, GrantKey { fan, tier_id }),
    {
        self.grants.get(GrantKey { fan, tier_id })
    }

    /// Writes a permission grant.
    pub fn set_grant(&mut self, fan: Address, tier_id: u32, value: PermissionGrant)
        ensures
            final(self)@ == (StorageView {
                grants: old(self)@.grants.insert(GrantKey { fan, tier_id }, value@),
                writes: old(self)@.writes.push(DataKey::PermissionGrant(fan, tier_id)),
                ..old(self)@
            }),
    {
        self.grants.set(GrantKey { fan, tier_id }, value);
        self.writes.push(DataKey::PermissionGrant(fan, tier_id));
    }

    /// Removes a permission grant.
    pub fn remove_grant(&mut self, fan: Address, tier_id: u32)
        ensures
            final(self)@ == (StorageView {
                grants: old(self)@.grants.remove(GrantKey { fan, tier_id }),
                writes: old(self)@.writes.push(DataKey::PermissionGrant(fan, tier_id)),
                ..old(self)@
            }),
    {
        self.grants.remove(GrantKey { fan, tier_id });
        self.writes.push(DataKey::PermissionGrant(fan, tier_id));
    }
}

} // verus!
