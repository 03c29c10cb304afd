//! The StarPass membership contract.
//!
//! Its calls are grouped by subject: administration, creators and their tiers,
//! passes, earnings, permissions, queries and metadata.

use vstd::prelude::*;

verus! {

/// The membership contract: creators sell passes for their tiers, fans hold
/// them.
#[derive(Clone, Copy, Debug)]
pub struct StarPassContract;

} // verus!
