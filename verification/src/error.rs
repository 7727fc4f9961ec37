//! The outcomes with which an operation can be refused.

use vstd::prelude::*;

verus! {

/// Why an operation was refused.
#[derive(Clone, Copy, Debug, PartialEq, Eq, Structural)]
pub enum ContractError {
    /// The caller is not the owner of the contract, or not the staker of the
    /// position (or there is no open position to act on).
    Unauthorized,
    /// The token was already claimed.
    Claimed,
    /// The token is already staked in this collection.
    AlreadyStakedTokenIDInCollection,
    /// Staking is switched off.
    StakingNotAllowed,
    /// The lock duration has no reward rate, or the rate is zero.
    InvalidDaysNumber,
    /// The collection is not whitelisted.
    InvalidCollection,
    /// The lock of the position has not run out yet.
    StillLocked,
    /// The reward due is more than the funded pool holds.
    InsufficientFundedTokens,
    /// The host did not accept an address.
    InvalidAddress,
    /// A royalty percentage above one hundred.
    InvalidRoyaltyPercentage,
}

/// The classes of refusal. `Timing` and `Solvency` go away by waiting (for
/// the lock to run out, for the pool to be funded); the others only when the
/// caller changes the request or obtains authority.
#[derive(Clone, Copy, Debug, PartialEq, Eq, Structural)]
pub enum ErrorKind {
    Authorization,
    Configuration,
    StateConflict,
    Timing,
    Solvency,
    Validation,
}

impl ContractError {
    /// The class of this error.
    pub open spec fn spec_kind(self) -> ErrorKind {
        match self {
            ContractError::Unauthorized => ErrorKind::Authorization,
            ContractError::Claimed => ErrorKind::StateConflict,
            ContractError::AlreadyStakedTokenIDInCollection => ErrorKind::StateConflict,
            ContractError::StakingNotAllowed => ErrorKind::Configuration,
            ContractError::InvalidDaysNumber => ErrorKind::Configuration,
            ContractError::InvalidCollection => ErrorKind::Configuration,
            ContractError::StillLocked => ErrorKind::Timing,
            ContractError::InsufficientFundedTokens => ErrorKind::Solvency,
            ContractError::InvalidAddress => ErrorKind::Validation,
            ContractError::InvalidRoyaltyPercentage => ErrorKind::Validation,
        }
    }

    /// The class of this error.
    #[verifier::when_used_as_spec(spec_kind)]
    pub fn kind(self) -> (k: ErrorKind)
        ensures
            k == self.spec_kind(),
    {
        match self {
            ContractError::Unauthorized => ErrorKind::Authorization,
            ContractError::Claimed => ErrorKind::StateConflict,
            ContractError::AlreadyStakedTokenIDInCollection => ErrorKind::StateConflict,
            ContractError::StakingNotAllowed => ErrorKind::Configuration,
            ContractError::InvalidDaysNumber => ErrorKind::Configuration,
            ContractError::InvalidCollection => ErrorKind::Configuration,
            ContractError::StillLocked => ErrorKind::Timing,
            ContractError::InsufficientFundedTokens => ErrorKind::Solvency,
            ContractError::InvalidAddress => ErrorKind::Validation,
            ContractError::InvalidRoyaltyPercentage => ErrorKind::Validation,
        }
    }

    /// Whether the same request can succeed later without being changed.
    pub fn is_recoverable_by_waiting(self) -> (b: bool)
        ensures
            b == (self.spec_kind() == ErrorKind::Timing || self.spec_kind() == ErrorKind::Solvency),
    {
        match self {
            ContractError::StillLocked => true,
            ContractError::InsufficientFundedTokens => true,
            _ => false,
        }
    }

    /// The message of this error.
    pub fn message(self) -> (s: String)
        ensures
            s@ == self.spec_message(),
    {
        match self {
            ContractError::Unauthorized => "Unauthorized".to_string(),
            ContractError::Claimed => "token_id already claimed".to_string(),
            ContractError::AlreadyStakedTokenIDInCollection =>
                "The token_id is already staked in this collection".to_string(),
            ContractError::StakingNotAllowed => "Staking is not allowed at the moment".to_string(),
            ContractError::InvalidDaysNumber => "Invalid number of days".to_string(),
            ContractError::InvalidCollection => "The collection is not supported".to_string(),
            ContractError::StillLocked => "The token is still locked".to_string(),
            ContractError::InsufficientFundedTokens => "Insufficient funded tokens".to_string(),
            ContractError::InvalidAddress => "Invalid address".to_string(),
            ContractError::InvalidRoyaltyPercentage =>
                "Royalty percentage must be between 0 and 100".to_string(),
        }
    }

    /// The message of this error, as a sequence of characters.
    pub open spec fn spec_message(self) -> Seq<char> {
        match self {
            ContractError::Unauthorized => "Unauthorized"@,
            ContractError::Claimed => "token_id already claimed"@,
            ContractError::AlreadyStakedTokenIDInCollection =>
                "The token_id is already staked in this collection"@,
            ContractError::StakingNotAllowed => "Staking is not allowed at the moment"@,
            ContractError::InvalidDaysNumber => "Invalid number of days"@,
            ContractError::InvalidCollection => "The collection is not supported"@,
            ContractError::StillLocked => "The token is still locked"@,
            ContractError::InsufficientFundedTokens => "Insufficient funded tokens"@,
            ContractError::InvalidAddress => "Invalid address"@,
            ContractError::InvalidRoyaltyPercentage =>
                "Royalty percentage must be between 0 and 100"@,
        }
    }
}

} // verus!
