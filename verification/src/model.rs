//! The operations of the contract as functions on the mathematical state.
//!
//! Each takes the state before the call and the request, and gives either
//! the state after the call with what the host has to carry out, or the error
//! with which the request is refused. A refused request has no state after it:
//! the state stays as it was.

use vstd::prelude::*;
use crate::error::ContractError;
use crate::state::{ConfigView, State, StakeView, Ledger};
use crate::msg::{Effects, Custody, ExecuteMsg, addr_view};
use crate::accrual::{lock_end, claim_point, unstake_point, accrued};

verus! {

/// No custody move and no payment.
pub open spec fn no_effects() -> Effects {
    Effects { custody: Custody::Unchanged, payout: 0 }
}

/// What an operation that ended with `r` and left the state `after` amounts
/// to: the state and the effects where it succeeded, the error where not.
pub open spec fn outcome(r: Result<Effects, ContractError>, after: Ledger) -> Result<
    (Ledger, Effects),
    ContractError,
> {
    match r {
        Ok(effects) => Ok((after, effects)),
        Err(e) => Err(e),
    }
}

impl Ledger {
    /// The state with which the contract begins: nothing listed, no rate, no
    /// position, all totals zero.
    pub open spec fn initial(owner: Seq<char>, token_address: Seq<char>, allowed: bool) -> Ledger {
        Ledger {
            config: ConfigView { owner, token_address, is_staking_allowed: allowed },
            state: State { total_stakes: 0, total_claims: 0, funded_tokens: 0 },
            whitelist: Map::empty(),
            rates: Map::empty(),
            stakes: Map::empty(),
        }
    }

    /// Replaces the administrative record. Only the owner may; the new
    /// owner's address is looked at before the reward token's.
    pub open spec fn update_config(
        self,
        sender: Seq<char>,
        owner: Option<Seq<char>>,
        token_address: Option<Seq<char>>,
        allowed: bool,
    ) -> Result<(Ledger, Effects), ContractError> {
        if self.config.owner != sender {
            Err(ContractError::Unauthorized)
        } else if owner is None || token_address is None {
            Err(ContractError::InvalidAddress)
        } else {
            Ok(
                (
                    Ledger {
                        config: ConfigView {
                            owner: owner->0,
                            token_address: token_address->0,
                            is_staking_allowed: allowed,
                        },
                        ..self
                    },
                    no_effects(),
                ),
            )
        }
    }

    /// Sets the eligibility of one collection. Only the owner may.
    pub open spec fn whitelist_collection(
        self,
        sender: Seq<char>,
        collection: Option<Seq<char>>,
        eligible: bool,
    ) -> Result<(Ledger, Effects), ContractError> {
        if self.config.owner != sender {
            Err(ContractError::Unauthorized)
        } else if collection is None {
            Err(ContractError::InvalidAddress)
        } else {
            Ok(
                (
                    Ledger { whitelist: self.whitelist.insert(collection->0, eligible), ..self },
                    no_effects(),
                ),
            )
        }
    }

    /// Sets the reward rate of one lock duration. Only the owner may.
    pub open spec fn add_reward_rate(self, sender: Seq<char>, days: u64, rate: u64) -> Result<
        (Ledger, Effects),
        ContractError,
    > {
        if self.config.owner != sender {
            Err(ContractError::Unauthorized)
        } else {
            Ok((Ledger { rates: self.rates.insert(days, rate), ..self }, no_effects()))
        }
    }

    /// The record that a stake made at `now` opens.
    pub open spec fn fresh_position(
        self,
        now: u64,
        sender: Seq<char>,
        token_id: Seq<char>,
        collection: Seq<char>,
        days: u64,
    ) -> StakeView {
        StakeView {
            owner: sender,
            total_earned_tokens: 0,
            token_id,
            stake_days: days,
            reward_rate: self.rate_for(days),
            stake_start: now,
            last_claim_time: now,
            staked: true,
            collection,
        }
    }

    /// Opens a position. The conditions are looked at in this order, and the
    /// first that fails decides the error: staking is switched on, the
    /// collection's address was accepted, the collection is eligible, the key
    /// has no open position, the duration has a rate other than zero.
    pub open spec fn stake(
        self,
        now: u64,
        sender: Seq<char>,
        token_id: Seq<char>,
        collection: Option<Seq<char>>,
        days: u64,
    ) -> Result<(Ledger, Effects), ContractError>
        recommends
            self.state.total_stakes < u128::MAX,
    {
        if !self.config.is_staking_allowed {
            Err(ContractError::StakingNotAllowed)
        } else if collection is None {
            Err(ContractError::InvalidAddress)
        } else if !self.is_whitelisted(collection->0) {
            Err(ContractError::InvalidCollection)
        } else if self.is_open(token_id, collection->0) {
            Err(ContractError::AlreadyStakedTokenIDInCollection)
        } else if self.rate_for(days) == 0 {
            Err(ContractError::InvalidDaysNumber)
        } else {
            Ok(
                (
                    Ledger {
                        state: State {
                            total_stakes: (self.state.total_stakes + 1) as u128,
                            ..self.state
                        },
                        stakes: self.stakes.insert(
                            (token_id, collection->0),
                            self.fresh_position(now, sender, token_id, collection->0, days),
                        ),
                        ..self
                    },
                    Effects { custody: Custody::ToContract, payout: 0 },
                ),
            )
        }
    }

    /// Whether `sender` may act on the position for `token_id` in
    /// `collection`: the position is open and `sender` staked it.
    pub open spec fn may_act(self, sender: Seq<char>, token_id: Seq<char>, collection: Seq<char>) -> bool {
        self.is_open(token_id, collection) && self.stakes[(token_id, collection)].owner == sender
    }

    /// The state after the position under `key` was settled up to `point`
    /// with `reward` paid, the position left open or closed as `staked` says.
    pub open spec fn settled(
        self,
        key: (Seq<char>, Seq<char>),
        point: u64,
        reward: int,
        staked: bool,
    ) -> Ledger {
        let p = self.stakes[key];
        Ledger {
            state: State {
                total_claims: (self.state.total_claims + reward) as u128,
                funded_tokens: (self.state.funded_tokens - reward) as u128,
                ..self.state
            },
            stakes: self.stakes.insert(
                key,
                StakeView {
                    total_earned_tokens: (p.total_earned_tokens + reward) as u128,
                    last_claim_time: point,
                    staked,
                    ..p
                },
            ),
            ..self
        }
    }

    /// The reward that a claim at `now` on the position under `key` pays.
    pub open spec fn claim_reward(self, now: u64, key: (Seq<char>, Seq<char>)) -> int {
        let p = self.stakes[key];
        accrued(
            p.last_claim_time,
            claim_point(p.stake_start, p.stake_days, p.last_claim_time, now),
            p.reward_rate,
        )
    }

    /// The reward that an unstake at `now` of the position under `key` pays.
    pub open spec fn unstake_reward(self, now: u64, key: (Seq<char>, Seq<char>)) -> int {
        let p = self.stakes[key];
        accrued(p.last_claim_time, unstake_point(p.last_claim_time, now), p.reward_rate)
    }

    /// Settles the reward of an open position up to `now`, or to the end of
    /// the lock where that came first. Only the staker may; a reward that the
    /// pool cannot pay in full is not paid at all.
    pub open spec fn claim(
        self,
        now: u64,
        sender: Seq<char>,
        token_id: Seq<char>,
        collection: Seq<char>,
    ) -> Result<(Ledger, Effects), ContractError>
        recommends
            self.valid(),
    {
        let key = (token_id, collection);
        let p = self.stakes[key];
        let reward = self.claim_reward(now, key);
        if !self.may_act(sender, token_id, collection) {
            Err(ContractError::Unauthorized)
        } else if reward > self.state.funded_tokens {
            Err(ContractError::InsufficientFundedTokens)
        } else {
            Ok(
                (
                    self.settled(
                        key,
                        claim_point(p.stake_start, p.stake_days, p.last_claim_time, now),
                        reward,
                        true,
                    ),
                    Effects { custody: Custody::Unchanged, payout: reward as u128 },
                ),
            )
        }
    }

    /// Closes an open position whose lock has run out, after a last
    /// settlement that reaches up to `now`. Only the staker may.
    pub open spec fn unstake(
        self,
        now: u64,
        sender: Seq<char>,
        token_id: Seq<char>,
        collection: Seq<char>,
    ) -> Result<(Ledger, Effects), ContractError>
        recommends
            self.valid(),
    {
        let key = (token_id, collection);
        let p = self.stakes[key];
        let reward = self.unstake_reward(now, key);
        if !self.may_act(sender, token_id, collection) {
            Err(ContractError::Unauthorized)
        } else if now < lock_end(p.stake_start, p.stake_days) {
            Err(ContractError::StillLocked)
        } else if reward > self.state.funded_tokens {
            Err(ContractError::InsufficientFundedTokens)
        } else {
            Ok(
                (
                    self.settled(key, unstake_point(p.last_claim_time, now), reward, false),
                    Effects { custody: Custody::ToStaker, payout: reward as u128 },
                ),
            )
        }
    }

    /// What a request amounts to: the operation that it names, on the
    /// request's own arguments.
    pub open spec fn dispatch(self, now: u64, sender: Seq<char>, msg: ExecuteMsg) -> Result<
        (Ledger, Effects),
        ContractError,
    > {
        match msg {
            ExecuteMsg::WhitelistCollection { collection_addr, boolean } => {
                self.whitelist_collection(sender, addr_view(collection_addr), boolean)
            },
            ExecuteMsg::AddRwardRate { days_number, rate } => {
                self.add_reward_rate(sender, days_number, rate)
            },
            ExecuteMsg::Stake { token_id, collection_addr, number_days } => {
                self.stake(now, sender, token_id@, addr_view(collection_addr), number_days)
            },
            ExecuteMsg::Claim { token_id, collection_addr } => {
                self.claim(now, sender, token_id@, collection_addr@)
            },
            ExecuteMsg::Unstake { token_id, collection_addr } => {
                self.unstake(now, sender, token_id@, collection_addr@)
            },
            ExecuteMsg::UpdateConfig { owner, token_address, is_staking_allowed } => {
                self.update_config(
                    sender,
                    addr_view(owner),
                    addr_view(token_address),
                    is_staking_allowed,
                )
            },
        }
    }
}

} // verus!
