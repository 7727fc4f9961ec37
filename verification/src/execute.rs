//! The operations that change the state.
//!
//! Each checks everything before it writes anything, so a refused request
//! leaves the state exactly as it was. What an operation does is given by the
//! function of the same purpose on the mathematical state.

use vstd::prelude::*;
use std::collections::HashMap;
use crate::error::ContractError;
use crate::state::{
    Config, State, StakeInfo, CollectionEntry, Staking, Ledger, lemma_record_replaced,
    lemma_record_added, lemma_entry_replaced, lemma_entry_added, lemma_wf_valid,
};
use crate::msg::{InstantiateMsg, ExecuteMsg, Effects, Custody, addr_view};
use crate::model::outcome;
use crate::accrual::{settle_point, lock_expired, accrue};
use crate::table::lemma_table_at;

verus! {

/// Creates the contract: nothing listed, no rate, no position, all totals
/// zero. Refused with `InvalidAddress` exactly when the host did not accept
/// the owner's or the reward token's address.
pub fn instantiate(msg: InstantiateMsg) -> (r: Result<Staking, ContractError>)
    ensures
        match r {
            Ok(s) => {
                &&& s.wf()
                &&& s@.valid()
                &&& msg.owner is Some
                &&& msg.token_address is Some
                &&& s@ == Ledger::initial(msg.owner->0@, msg.token_address->0@, msg.boolean)
            },
            Err(e) => e == ContractError::InvalidAddress && (msg.owner is None
                || msg.token_address is None),
        },
{
    broadcast use vstd::std_specs::hash::group_hash_axioms;

    let owner = match msg.owner {
        Some(a) => a,
        None => {
            return Err(ContractError::InvalidAddress);
        },
    };
    let token_address = match msg.token_address {
        Some(a) => a,
        None => {
            return Err(ContractError::InvalidAddress);
        },
    };
    let s = Staking {
        config: Config { owner, token_address, is_staking_allowed: msg.boolean },
        state: State { total_stakes: 0, total_claims: 0, funded_tokens: 0 },
        collections: Vec::new(),
        reward_rates: HashMap::new(),
        nft_stakes: Vec::new(),
    };
    proof {
        assert(s@.whitelist =~= Map::empty());
        assert(s@.stakes =~= Map::empty());
        assert(s@.rates =~= Map::empty());
    }
    Ok(s)
}

/// Carries out one request at the instant `now` on behalf of `sender`.
pub fn execute(staking: &mut Staking, now: u64, sender: &String, msg: ExecuteMsg) -> (r: Result<
    Effects,
    ContractError,
>)
    requires
        old(staking).wf(),
        msg is Stake ==> old(staking).state.total_stakes < u128::MAX,
    ensures
        final(staking).wf(),
        final(staking)@.valid(),
        r is Err ==> *final(staking) == *old(staking),
        old(staking)@.dispatch(now, sender@, msg) == outcome(r, final(staking)@),
{
    let r = match msg {
        ExecuteMsg::WhitelistCollection { collection_addr, boolean } => {
            try_whitelisting_collection(staking, sender, collection_addr, boolean)
        },
        ExecuteMsg::AddRwardRate { days_number, rate } => {
            try_adding_reward_rate(staking, sender, days_number, rate)
        },
        ExecuteMsg::Stake { token_id, collection_addr, number_days } => {
            try_staking(staking, now, sender, token_id, collection_addr, number_days)
        },
        ExecuteMsg::Claim { token_id, collection_addr } => {
            try_claim(staking, now, sender, &token_id, &collection_addr)
        },
        ExecuteMsg::Unstake { token_id, collection_addr } => {
            try_unstake(staking, now, sender, &token_id, &collection_addr)
        },
        ExecuteMsg::UpdateConfig { owner, token_address, is_staking_allowed } => {
            try_update_config(staking, sender, owner, token_address, is_staking_allowed)
        },
    };
    proof {
        lemma_wf_valid(staking);
    }
    r
}

/// Replaces owner, reward token and the staking switch in one step, for the
/// owner only.
pub fn try_update_config(
    staking: &mut Staking,
    sender: &String,
    owner: Option<String>,
    token_address: Option<String>,
    is_staking_allowed: bool,
) -> (r: Result<Effects, ContractError>)
    requires
        old(staking).wf(),
    ensures
        final(staking).wf(),
        r is Err ==> *final(staking) == *old(staking),
        old(staking)@.update_config(
            sender@,
            addr_view(owner),
            addr_view(token_address),
            is_staking_allowed,
        ) == outcome(r, final(staking)@),
{
    if staking.config.owner != *sender {
        return Err(ContractError::Unauthorized);
    }
    let owner_addr = match owner {
        Some(a) => a,
        None => {
            return Err(ContractError::InvalidAddress);
        },
    };
    let token_addr = match token_address {
        Some(a) => a,
        None => {
            return Err(ContractError::InvalidAddress);
        },
    };
    staking.config = Config { owner: owner_addr, token_address: token_addr, is_staking_allowed };
    Ok(Effects { custody: Custody::Unchanged, payout: 0 })
}

/// Sets whether a collection is eligible for staking, for the owner only.
pub fn try_whitelisting_collection(
    staking: &mut Staking,
    sender: &String,
    collection_addr: Option<String>,
    boolean: bool,
) -> (r: Result<Effects, ContractError>)
    requires
        old(staking).wf(),
    ensures
        final(staking).wf(),
        r is Err ==> *final(staking) == *old(staking),
        old(staking)@.whitelist_collection(sender@, addr_view(collection_addr), boolean)
            == outcome(r, final(staking)@),
{
    if staking.config.owner != *sender {
        return Err(ContractError::Unauthorized);
    }
    let collection = match collection_addr {
        Some(a) => a,
        None => {
            return Err(ContractError::InvalidAddress);
        },
    };
    let found = staking.find_collection(&collection);
    let entry = CollectionEntry { collection, eligible: boolean };
    match found {
        Some(i) => {
            proof {
                lemma_entry_replaced(staking.collections@, i as int, entry);
            }
            staking.collections.set(i, entry);
        },
        None => {
            proof {
                lemma_entry_added(staking.collections@, entry);
            }
            staking.collections.push(entry);
        },
    }
    Ok(Effects { custody: Custody::Unchanged, payout: 0 })
}

/// Sets the reward rate of a lock duration, for the owner only.
pub fn try_adding_reward_rate(
    staking: &mut Staking,
    sender: &String,
    number_days: u64,
    rate: u64,
) -> (r: Result<Effects, ContractError>)
    requires
        old(staking).wf(),
    ensures
        final(staking).wf(),
        r is Err ==> *final(staking) == *old(staking),
        old(staking)@.add_reward_rate(sender@, number_days, rate) == outcome(
            r,
            final(staking)@,
        ),
{
    broadcast use vstd::std_specs::hash::group_hash_axioms;

    if staking.config.owner != *sender {
        return Err(ContractError::Unauthorized);
    }
    staking.reward_rates.insert(number_days, rate);
    Ok(Effects { custody: Custody::Unchanged, payout: 0 })
}

/// Opens the position for `token_id` in the collection at the instant `now`,
/// with the rate that the duration has at this moment. The host has to move
/// the token from `sender` into the contract's custody.
pub fn try_staking(
    staking: &mut Staking,
    now: u64,
    sender: &String,
    token_id: String,
    collection_addr: Option<String>,
    number_days: u64,
) -> (r: Result<Effects, ContractError>)
    requires
        old(staking).wf(),
        old(staking).state.total_stakes < u128::MAX,
    ensures
        final(staking).wf(),
        r is Err ==> *final(staking) == *old(staking),
        old(staking)@.stake(now, sender@, token_id@, addr_view(collection_addr), number_days)
            == outcome(r, final(staking)@),
{
    if !staking.config.is_staking_allowed {
        return Err(ContractError::StakingNotAllowed);
    }
    let collection = match collection_addr {
        Some(a) => a,
        None => {
            return Err(ContractError::InvalidAddress);
        },
    };
    if !staking.is_whitelisted(&collection) {
        return Err(ContractError::InvalidCollection);
    }
    let found = staking.find_stake(&token_id, &collection);
    match found {
        Some(i) => {
            proof {
                lemma_table_at(staking.stake_keys(), staking.stake_views(), i as int);
            }
            if staking.nft_stakes[i].staked {
                return Err(ContractError::AlreadyStakedTokenIDInCollection);
            }
        },
        None => {},
    }
    let rate = staking.reward_rate(number_days);
    if rate == 0 {
        return Err(ContractError::InvalidDaysNumber);
    }
    let record = StakeInfo {
        owner: sender.clone(),
        total_earned_tokens: 0,
        token_id,
        stake_days: number_days,
        reward_rate: rate,
        stake_start: now,
        last_claim_time: now,
        staked: true,
        collection,
    };
    staking.state.total_stakes = staking.state.total_stakes + 1;
    match found {
        Some(i) => {
            proof {
                lemma_record_replaced(staking.nft_stakes@, i as int, record);
            }
            staking.nft_stakes.set(i, record);
        },
        None => {
            proof {
                lemma_record_added(staking.nft_stakes@, record);
            }
            staking.nft_stakes.push(record);
        },
    }
    Ok(Effects { custody: Custody::ToContract, payout: 0 })
}

/// Writes the settlement of the record at position `i`: `reward` more
/// earned and paid, the pool that much smaller, the record settled up to
/// `point` and open or closed as `staked` says.
fn settle(staking: &mut Staking, i: usize, point: u64, reward: u128, staked: bool)
    requires
        old(staking).wf(),
        i < old(staking).nft_stakes.len(),
        reward <= old(staking).state.funded_tokens,
    ensures
        final(staking).wf(),
        final(staking)@ == old(staking)@.settled(
            old(staking).stake_keys()[i as int],
            point,
            reward as int,
            staked,
        ),
{
    proof {
        lemma_table_at(staking.stake_keys(), staking.stake_views(), i as int);
    }
    let p = &staking.nft_stakes[i];
    let record = StakeInfo {
        owner: p.owner.clone(),
        total_earned_tokens: p.total_earned_tokens + reward,
        token_id: p.token_id.clone(),
        stake_days: p.stake_days,
        reward_rate: p.reward_rate,
        stake_start: p.stake_start,
        last_claim_time: point,
        staked,
        collection: p.collection.clone(),
    };
    proof {
        lemma_record_replaced(staking.nft_stakes@, i as int, record);
    }
    staking.state.total_claims = staking.state.total_claims + reward;
    staking.state.funded_tokens = staking.state.funded_tokens - reward;
    staking.nft_stakes.set(i, record);
}

/// Pays the staker what the position has earned since its last settlement,
/// up to `now` or to the end of the lock where that came first. The host has
/// to pay the reward to `sender`.
pub fn try_claim(
    staking: &mut Staking,
    now: u64,
    sender: &String,
    token_id: &String,
    collection_addr: &String,
) -> (r: Result<Effects, ContractError>)
    requires
        old(staking).wf(),
    ensures
        final(staking).wf(),
        r is Err ==> *final(staking) == *old(staking),
        old(staking)@.claim(now, sender@, token_id@, collection_addr@) == outcome(
            r,
            final(staking)@,
        ),
{
    let i = match staking.find_stake(token_id, collection_addr) {
        Some(i) => i,
        None => {
            return Err(ContractError::Unauthorized);
        },
    };
    proof {
        lemma_table_at(staking.stake_keys(), staking.stake_views(), i as int);
    }
    let p = &staking.nft_stakes[i];
    if !p.staked || p.owner != *sender {
        return Err(ContractError::Unauthorized);
    }
    let point = settle_point(p.stake_start, p.stake_days, p.last_claim_time, now);
    let reward = accrue(p.last_claim_time, point, p.reward_rate);
    if reward > staking.state.funded_tokens {
        return Err(ContractError::InsufficientFundedTokens);
    }
    settle(staking, i, point, reward, true);
    Ok(Effects { custody: Custody::Unchanged, payout: reward })
}

/// Closes the position once its lock has run out, after paying what it has
/// earned up to `now`. The host has to pay the reward to `sender` and to hand
/// the token back.
pub fn try_unstake(
    staking: &mut Staking,
    now: u64,
    sender: &String,
    token_id: &String,
    collection_addr: &String,
) -> (r: Result<Effects, ContractError>)
    requires
        old(staking).wf(),
    ensures
        final(staking).wf(),
        r is Err ==> *final(staking) == *old(staking),
        old(staking)@.unstake(now, sender@, token_id@, collection_addr@) == outcome(
            r,
            final(staking)@,
        ),
{
    let i = match staking.find_stake(token_id, collection_addr) {
        Some(i) => i,
        None => {
            return Err(ContractError::Unauthorized);
        },
    };
    proof {
        lemma_table_at(staking.stake_keys(), staking.stake_views(), i as int);
    }
    let p = &staking.nft_stakes[i];
    if !p.staked || p.owner != *sender {
        return Err(ContractError::Unauthorized);
    }
    if !lock_expired(p.stake_start, p.stake_days, now) {
        return Err(ContractError::StillLocked);
    }
    let point = if now <= p.last_claim_time {
        p.last_claim_time
    } else {
        now
    };
    let reward = accrue(p.last_claim_time, point, p.reward_rate);
    if reward > staking.state.funded_tokens {
        return Err(ContractError::InsufficientFundedTokens);
    }
    settle(staking, i, point, reward, false);
    Ok(Effects { custody: Custody::ToStaker, payout: reward })
}

} // verus!
