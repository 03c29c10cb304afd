//! StarPass: memberships on a ledger. Creators define tiers and sell passes for
//! them; fans hold passes; what creators earn is locked for a time and then
//! theirs to withdraw.
//!
//! Each call of [`StarPassContract`] reads and changes an [`Env`]: the
//! contract's entries as far as the call needs them, and the list of what the
//! ledger has to carry out. A call that is refused leaves the `Env` as it was.
//! Every contract of a call says when it is refused and why, and what the `Env`
//! is afterwards otherwise; [`laws`] says what follows for the whole.

pub mod address;
pub mod admin;
pub mod calls;
pub mod contract;
pub mod decimal;
pub mod earnings;
pub mod effect;
pub mod env;
pub mod failure;
pub mod laws;
pub mod metadata;
pub mod order;
pub mod passes;
pub mod permissions;
pub mod pricing;
pub mod queries;
pub mod storage;
pub mod table;
pub mod tiers;
pub mod types;

pub use crate::address::{Address, Bytes32};
pub use crate::contract::StarPassContract;
pub use crate::env::Env;
pub use crate::failure::{Abort, Error, Failure};
pub use crate::pricing::OracleInterface;
pub use crate::types::{
    Creator, DataKey, Pass, PendingEarning, PermissionGrant, Symbol, Tier, TierPriceMode,
};
