//! Why a call is refused.

use vstd::prelude::*;

verus! {

/// Errors that the contract returns to its caller.
#[derive(Clone, Copy, Debug, PartialEq, Eq, Structural)]
pub enum Error {
    /// A lock period must be longer than zero seconds.
    InvalidLockPeriod,
    /// The creator has no earning with that number.
    EarningNotFound,
    /// The earning was released before.
    EarningAlreadyReleased,
    /// There is an early release proposal for that earning number.
    ProposalAlreadyExists,
    /// There is no early release proposal for that earning number.
    NoProposalFound,
    /// The proposal was made to another creator.
    UnauthorizedApproval,
    /// The earning is still locked.
    EarningNotMatured,
}

impl Error {
    /// The number by which callers know the error.
    pub open spec fn number(self) -> u32 {
        match self {
            Error::InvalidLockPeriod => 1,
            Error::EarningNotFound => 2,
            Error::EarningAlreadyReleased => 3,
            Error::ProposalAlreadyExists => 4,
            Error::NoProposalFound => 5,
            Error::UnauthorizedApproval => 6,
            Error::EarningNotMatured => 7,
        }
    }

    /// The number by which callers know the error.
    pub fn code(&self) -> (code: u32)
        ensures
            code == self.number(),
    {
        match self {
            Error::InvalidLockPeriod => 1,
            Error::EarningNotFound => 2,
            Error::EarningAlreadyReleased => 3,
            Error::ProposalAlreadyExists => 4,
            Error::NoProposalFound => 5,
            Error::UnauthorizedApproval => 6,
            Error::EarningNotMatured => 7,
        }
    }
}

/// Faults of a call that end it without a result.
#[derive(Clone, Copy, Debug, PartialEq, Eq, Structural)]
pub enum Abort {
    FeeTooHigh,
    NotInitialized,
    NotAuthorized,
    AmountNotPositive,
    TokenNotSet,
    CreatorAlreadyRegistered,
    CreatorNotRegistered,
    PriceNotPositive,
    DurationZero,
    NameEmpty,
    NameTooLong,
    TierNotFound,
    NotTierCreator,
    TierAlreadyInactive,
    TierNotActive,
    TierIsUsdDenominated,
    TierIsFixedPrice,
    TierSoldOut,
    PermissionNotInTier,
    OracleUnavailable,
    TokenAmountOverflow,
    CreatorNotFound,
    PassNotFound,
    NotPassOwner,
    PassNotActive,
    PassAlreadyPaused,
    PassExpired,
    PassNotPaused,
    NoBalance,
    BelowMinWithdrawal,
    AdminNotSet,
    Unauthorized,
    NegativeMinWithdrawal,
    GrantNotFound,
    AlreadyMigrated,
    LimitTooLarge,
    /// A count, a sum or a time does not fit its integer type.
    ArithmeticOverflow,
}

impl Abort {
    /// What the caller is told.
    pub open spec fn text(self) -> Seq<char> {
        match self {
            Abort::FeeTooHigh => "Fee cannot exceed 10%"@,
            Abort::NotInitialized => "Not initialized"@,
            Abort::NotAuthorized => "Not authorized"@,
            Abort::AmountNotPositive => "Amount must be greater than zero"@,
            Abort::TokenNotSet => "Token not set"@,
            Abort::CreatorAlreadyRegistered => "Creator already registered"@,
            Abort::CreatorNotRegistered => "Must register as creator first"@,
            Abort::PriceNotPositive => "Price must be greater than zero"@,
            Abort::DurationZero => "Duration must be greater than zero"@,
            Abort::NameEmpty => "Name cannot be empty"@,
            Abort::NameTooLong => "Name cannot exceed 64 bytes"@,
            Abort::TierNotFound => "Tier not found"@,
            Abort::NotTierCreator => "Not the tier creator"@,
            Abort::TierAlreadyInactive => "Tier already inactive"@,
            Abort::TierNotActive => "Tier is not active"@,
            Abort::TierIsUsdDenominated => "Tier is USD-denominated; use update_tier_price_usd"@,
            Abort::TierIsFixedPrice => "Tier is fixed-price; use update_tier_price"@,
            Abort::TierSoldOut => "Tier is sold out"@,
            Abort::PermissionNotInTier => "Permission not in tier definition"@,
            Abort::OracleUnavailable => "Oracle data unavailable or stale"@,
            Abort::TokenAmountOverflow => "Overflow computing token amount"@,
            Abort::CreatorNotFound => "Creator not found"@,
            Abort::PassNotFound => "Pass not found"@,
            Abort::NotPassOwner => "Not the pass owner"@,
            Abort::PassNotActive => "Pass is not active"@,
            Abort::PassAlreadyPaused => "Pass is already paused"@,
            Abort::PassExpired => "Pass has expired"@,
            Abort::PassNotPaused => "Pass is not paused"@,
            Abort::NoBalance => "No balance to withdraw"@,
            Abort::BelowMinWithdrawal => "Withdrawal amount below minimum threshold"@,
            Abort::AdminNotSet => "Admin not set"@,
            Abort::Unauthorized => "Unauthorized"@,
            Abort::NegativeMinWithdrawal => "Minimum withdrawal cannot be negative"@,
            Abort::GrantNotFound => "Grant not found"@,
            Abort::AlreadyMigrated => "Already migrated"@,
            Abort::LimitTooLarge => "limit cannot exceed 20"@,
            Abort::ArithmeticOverflow => "attempt to compute with overflow"@,
        }
    }

    /// What the caller is told.
    pub fn message(&self) -> (message: &'static str)
        ensures
            message@ == self.text(),
    {
        match self {
            Abort::FeeTooHigh => "Fee cannot exceed 10%",
            Abort::NotInitialized => "Not initialized",
            Abort::NotAuthorized => "Not authorized",
            Abort::AmountNotPositive => "Amount must be greater than zero",
            Abort::TokenNotSet => "Token not set",
            Abort::CreatorAlreadyRegistered => "Creator already registered",
            Abort::CreatorNotRegistered => "Must register as creator first",
            Abort::PriceNotPositive => "Price must be greater than zero",
            Abort::DurationZero => "Duration must be greater than zero",
            Abort::NameEmpty => "Name cannot be empty",
            Abort::NameTooLong => "Name cannot exceed 64 bytes",
            Abort::TierNotFound => "Tier not found",
            Abort::NotTierCreator => "Not the tier creator",
            Abort::TierAlreadyInactive => "Tier already inactive",
            Abort::TierNotActive => "Tier is not active",
            Abort::TierIsUsdDenominated => "Tier is USD-denominated; use update_tier_price_usd",
            Abort::TierIsFixedPrice => "Tier is fixed-price; use update_tier_price",
            Abort::TierSoldOut => "Tier is sold out",
            Abort::PermissionNotInTier => "Permission not in tier definition",
            Abort::OracleUnavailable => "Oracle data unavailable or stale",
            Abort::TokenAmountOverflow => "Overflow computing token amount",
            Abort::CreatorNotFound => "Creator not found",
            Abort::PassNotFound => "Pass not found",
            Abort::NotPassOwner => "Not the pass owner",
            Abort::PassNotActive => "Pass is not active",
            Abort::PassAlreadyPaused => "Pass is already paused",
            Abort::PassExpired => "Pass has expired",
            Abort::PassNotPaused => "Pass is not paused",
            Abort::NoBalance => "No balance to withdraw",
            Abort::BelowMinWithdrawal => "Withdrawal amount below minimum threshold",
            Abort::AdminNotSet => "Admin not set",
            Abort::Unauthorized => "Unauthorized",
            Abort::NegativeMinWithdrawal => "Minimum withdrawal cannot be negative",
            Abort::GrantNotFound => "Grant not found",
            Abort::AlreadyMigrated => "Already migrated",
            Abort::LimitTooLarge => "limit cannot exceed 20",
            Abort::ArithmeticOverflow => "attempt to compute with overflow",
        }
    }
}

/// Why a call was refused. A refused call changes nothing.
#[derive(Clone, Copy, Debug, PartialEq, Eq, Structural)]
pub enum Failure {
    /// The contract answers with an error.
    Error(Error),
    /// The call ends without an answer.
    Abort(Abort),
}

/// A refusal without an answer.
pub open spec fn abort(reason: Abort) -> Option<Failure> {
    Some(Failure::Abort(reason))
}

/// A refusal with an error.
pub open spec fn error(reason: Error) -> Option<Failure> {
    Some(Failure::Error(reason))
}

} // verus!
