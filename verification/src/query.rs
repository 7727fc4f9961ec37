//! Reading the state: the lookups that the operations share, and the queries
//! that the contract answers. None of them changes anything.

use vstd::prelude::*;
use crate::state::{Staking, StakeInfo, State, Config};
use crate::table::{distinct, lemma_table_at};

verus! {

impl Staking {
    /// The position in the whitelist at which `collection` stands.
    pub fn find_collection(&self, collection: &String) -> (r: Option<usize>)
        ensures
            match r {
                Some(i) => i < self.collections.len() && self.collection_keys()[i as int]
                    == collection@,
                None => !self.collection_keys().contains(collection@),
            },
    {
        let mut i: usize = 0;
        while i < self.collections.len()
            invariant
                i <= self.collections.len(),
                forall|j: int| 0 <= j < i ==> self.collection_keys()[j] != collection@,
            decreases self.collections.len() - i,
        {
            if self.collections[i].collection == *collection {
                return Some(i);
            }
            i += 1;
        }
        None
    }

    /// The position in the ledger at which the record for `token_id` in
    /// `collection` stands.
    pub fn find_stake(&self, token_id: &String, collection: &String) -> (r: Option<usize>)
        ensures
            match r {
                Some(i) => i < self.nft_stakes.len() && self.stake_keys()[i as int] == (
                    token_id@,
                    collection@,
                ),
                None => !self.stake_keys().contains((token_id@, collection@)),
            },
    {
        let mut i: usize = 0;
        while i < self.nft_stakes.len()
            invariant
                i <= self.nft_stakes.len(),
                forall|j: int| 0 <= j < i ==> self.stake_keys()[j] != (token_id@, collection@),
            decreases self.nft_stakes.len() - i,
        {
            if self.nft_stakes[i].token_id == *token_id && self.nft_stakes[i].collection
                == *collection {
                return Some(i);
            }
            i += 1;
        }
        None
    }

    /// Whether no collection stands twice in the whitelist.
    pub fn collections_distinct(&self) -> (b: bool)
        ensures
            b == distinct(self.collection_keys()),
    {
        let mut i: usize = 0;
        while i < self.collections.len()
            invariant
                i <= self.collections.len(),
                forall|a: int, b: int|
                    0 <= a < b < i ==> self.collection_keys()[a] != self.collection_keys()[b],
            decreases self.collections.len() - i,
        {
            let mut j: usize = 0;
            while j < i
                invariant
                    j <= i < self.collections.len(),
                    forall|a: int|
                        0 <= a < j ==> self.collection_keys()[a] != self.collection_keys()[i as int],
                decreases i - j,
            {
                if self.collections[j].collection == self.collections[i].collection {
                    assert(self.collection_keys()[j as int] == self.collection_keys()[i as int]);
                    return false;
                }
                j += 1;
            }
            i += 1;
        }
        true
    }

    /// Whether no key stands twice in the ledger.
    pub fn stakes_distinct(&self) -> (b: bool)
        ensures
            b == distinct(self.stake_keys()),
    {
        let mut i: usize = 0;
        while i < self.nft_stakes.len()
            invariant
                i <= self.nft_stakes.len(),
                forall|a: int, b: int|
                    0 <= a < b < i ==> self.stake_keys()[a] != self.stake_keys()[b],
            decreases self.nft_stakes.len() - i,
        {
            let mut j: usize = 0;
            while j < i
                invariant
                    j <= i < self.nft_stakes.len(),
                    forall|a: int| 0 <= a < j ==> self.stake_keys()[a] != self.stake_keys()[i as int],
                decreases i - j,
            {
                if self.nft_stakes[j].token_id == self.nft_stakes[i].token_id
                    && self.nft_stakes[j].collection == self.nft_stakes[i].collection {
                    assert(self.stake_keys()[j as int] == self.stake_keys()[i as int]);
                    return false;
                }
                j += 1;
            }
            i += 1;
        }
        true
    }

    /// Whether the state meets its invariant. A state that was put together
    /// from stored parts is tested with this before an operation is run on
    /// it.
    pub fn is_well_formed(&self) -> (b: bool)
        ensures
            b == self.wf(),
    {
        if self.state.total_claims > u128::MAX - self.state.funded_tokens {
            return false;
        }
        let mut i: usize = 0;
        while i < self.nft_stakes.len()
            invariant
                i <= self.nft_stakes.len(),
                forall|j: int|
                    0 <= j < i ==> (#[trigger] self.nft_stakes[j]).total_earned_tokens
                        <= self.state.total_claims,
            decreases self.nft_stakes.len() - i,
        {
            if self.nft_stakes[i].total_earned_tokens > self.state.total_claims {
                return false;
            }
            i += 1;
        }
        self.collections_distinct() && self.stakes_distinct()
    }

    /// Whether `collection` is eligible for staking.
    pub fn is_whitelisted(&self, collection: &String) -> (b: bool)
        requires
            self.wf(),
        ensures
            b == self@.is_whitelisted(collection@),
    {
        match self.find_collection(collection) {
            Some(i) => {
                proof {
                    lemma_table_at(self.collection_keys(), self.collection_flags(), i as int);
                }
                self.collections[i].eligible
            },
            None => false,
        }
    }

    /// The reward rate of a lock of `days` days; zero where none is set.
    pub fn reward_rate(&self, days: u64) -> (rate: u64)
        ensures
            rate == self@.rate_for(days),
    {
        broadcast use vstd::std_specs::hash::group_hash_axioms;

        match self.reward_rates.get(&days) {
            Some(rate) => *rate,
            None => 0,
        }
    }

    /// The record for `token_id` in `collection`, open or closed; `None`
    /// where the key was never staked.
    pub fn stake_info(&self, token_id: &String, collection: &String) -> (r: Option<&StakeInfo>)
        requires
            self.wf(),
        ensures
            match r {
                Some(p) => self@.stakes.contains_key((token_id@, collection@)) && p@
                    == self@.stakes[(token_id@, collection@)],
                None => !self@.stakes.contains_key((token_id@, collection@)),
            },
    {
        match self.find_stake(token_id, collection) {
            Some(i) => {
                proof {
                    lemma_table_at(self.stake_keys(), self.stake_views(), i as int);
                }
                Some(&self.nft_stakes[i])
            },
            None => None,
        }
    }

    /// The running totals.
    pub fn totals(&self) -> (s: State)
        ensures
            s == self@.state,
    {
        self.state
    }

    /// The administrative record.
    pub fn config(&self) -> (c: &Config)
        ensures
            c@ == self@.config,
    {
        &self.config
    }
}

} // verus!
