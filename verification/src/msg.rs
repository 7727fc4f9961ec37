//! The requests that the contract takes and what it asks of the host in
//! return.
//!
//! An address that arrives in a request is first put before the host, which
//! alone knows the chain's address format. It reaches the contract as
//! `Some` of the text that the host accepted, or as `None` where the host
//! refused it.

use vstd::prelude::*;

verus! {

/// The request that creates the contract.
pub struct InstantiateMsg {
    pub owner: Option<String>,
    pub token_address: Option<String>,
    pub boolean: bool,
}

/// The requests that change the contract.
#[allow(inconsistent_fields)]
pub enum ExecuteMsg {
    /// Sets whether a collection is eligible.
    WhitelistCollection { collection_addr: Option<String>, boolean: bool },
    /// Sets the reward rate, in units per day, of a lock duration.
    AddRwardRate { days_number: u64, rate: u64 },
    /// Locks a token of a collection for a number of days.
    Stake { token_id: String, collection_addr: Option<String>, number_days: u64 },
    /// Pays out what a position has earned.
    Claim { token_id: String, collection_addr: String },
    /// Closes a position whose lock has run out.
    Unstake { token_id: String, collection_addr: String },
    /// Replaces the administrative record.
    UpdateConfig {
        owner: Option<String>,
        token_address: Option<String>,
        is_staking_allowed: bool,
    },
}

/// Where custody of the token has to go as part of an operation.
#[derive(Clone, Copy, Debug, PartialEq, Eq, Structural)]
pub enum Custody {
    /// The token stays where it is.
    Unchanged,
    /// From the caller to the contract.
    ToContract,
    /// From the contract back to the staker.
    ToStaker,
}

/// What the host has to carry out, as one unit with the change of state: the
/// custody move, and the payment of `payout` reward units to the caller.
#[derive(Clone, Copy, Debug, PartialEq, Eq, Structural)]
pub struct Effects {
    pub custody: Custody,
    pub payout: u128,
}

/// The view of an address as the host's verdict left it.
pub open spec fn addr_view(a: Option<String>) -> Option<Seq<char>> {
    match a {
        Some(s) => Some(s@),
        None => None,
    }
}

} // verus!
