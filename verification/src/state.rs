//! What the contract keeps between calls.

use vstd::prelude::*;
use std::collections::HashMap;
use crate::table::{distinct, table, lemma_table_at, lemma_table_update, lemma_table_push};

verus! {

/// The administrative record: who may administer, which token rewards are
/// paid in, and whether new stakes are taken.
#[derive(Clone, Debug, PartialEq, Eq)]
pub struct Config {
    pub owner: String,
    pub token_address: String,
    pub is_staking_allowed: bool,
}

/// A [`Config`] with its identities as character sequences.
pub struct ConfigView {
    pub owner: Seq<char>,
    pub token_address: Seq<char>,
    pub is_staking_allowed: bool,
}

impl View for Config {
    type V = ConfigView;

    open spec fn view(&self) -> ConfigView {
        ConfigView {
            owner: self.owner@,
            token_address: self.token_address@,
            is_staking_allowed: self.is_staking_allowed,
        }
    }
}

/// The running totals: stakes ever taken, reward units ever paid, and reward
/// units that the pool still holds.
#[derive(Clone, Copy, Debug, PartialEq, Eq, Structural)]
pub struct State {
    pub total_stakes: u128,
    pub total_claims: u128,
    pub funded_tokens: u128,
}

impl Default for State {
    fn default() -> (s: State)
        ensures
            s == (State { total_stakes: 0, total_claims: 0, funded_tokens: 0 }),
    {
        State { total_stakes: 0, total_claims: 0, funded_tokens: 0 }
    }
}

/// One position of the ledger, open while `staked` holds.
#[derive(Clone, Debug, PartialEq, Eq)]
pub struct StakeInfo {
    pub owner: String,
    pub total_earned_tokens: u128,
    pub token_id: String,
    pub stake_days: u64,
    pub reward_rate: u64,
    pub stake_start: u64,
    pub last_claim_time: u64,
    pub staked: bool,
    pub collection: String,
}

/// A [`StakeInfo`] with its identities as character sequences.
pub struct StakeView {
    pub owner: Seq<char>,
    pub total_earned_tokens: u128,
    pub token_id: Seq<char>,
    pub stake_days: u64,
    pub reward_rate: u64,
    pub stake_start: u64,
    pub last_claim_time: u64,
    pub staked: bool,
    pub collection: Seq<char>,
}

impl View for StakeInfo {
    type V = StakeView;

    open spec fn view(&self) -> StakeView {
        StakeView {
            owner: self.owner@,
            total_earned_tokens: self.total_earned_tokens,
            token_id: self.token_id@,
            stake_days: self.stake_days,
            reward_rate: self.reward_rate,
            stake_start: self.stake_start,
            last_claim_time: self.last_claim_time,
            staked: self.staked,
            collection: self.collection@,
        }
    }
}

impl Default for StakeInfo {
    fn default() -> (s: StakeInfo)
        ensures
            s@ == (StakeView {
                owner: Seq::<char>::empty(),
                total_earned_tokens: 0,
                token_id: Seq::<char>::empty(),
                stake_days: 0,
                reward_rate: 0,
                stake_start: 0,
                last_claim_time: 0,
                staked: false,
                collection: Seq::<char>::empty(),
            }),
    {
        StakeInfo {
            owner: String::new(),
            total_earned_tokens: 0,
            token_id: String::new(),
            stake_days: 0,
            reward_rate: 0,
            stake_start: 0,
            last_claim_time: 0,
            staked: false,
            collection: String::new(),
        }
    }
}

/// One entry of the whitelist: a collection and whether it is eligible.
#[derive(Clone, Debug, PartialEq, Eq)]
pub struct CollectionEntry {
    pub collection: String,
    pub eligible: bool,
}

/// The whole persisted state of the staking contract.
#[derive(Clone, Debug)]
pub struct Staking {
    pub config: Config,
    pub state: State,
    pub collections: Vec<CollectionEntry>,
    pub reward_rates: HashMap<u64, u64>,
    pub nft_stakes: Vec<StakeInfo>,
}

/// The state as mathematics: the whitelist, the rate table and the ledger
/// are mappings, the ledger keyed by token and collection.
pub struct Ledger {
    pub config: ConfigView,
    pub state: State,
    pub whitelist: Map<Seq<char>, bool>,
    pub rates: Map<u64, u64>,
    pub stakes: Map<(Seq<char>, Seq<char>), StakeView>,
}

/// The collections of whitelist entries, in storage order.
pub open spec fn collections_of(entries: Seq<CollectionEntry>) -> Seq<Seq<char>> {
    Seq::new(entries.len(), |i: int| entries[i].collection@)
}

/// The eligibility flags of whitelist entries, in storage order.
pub open spec fn flags_of(entries: Seq<CollectionEntry>) -> Seq<bool> {
    Seq::new(entries.len(), |i: int| entries[i].eligible)
}

/// The keys of ledger records, in storage order.
pub open spec fn keys_of(records: Seq<StakeInfo>) -> Seq<(Seq<char>, Seq<char>)> {
    Seq::new(records.len(), |i: int| (records[i].token_id@, records[i].collection@))
}

/// Ledger records as mathematics, in storage order.
pub open spec fn views_of(records: Seq<StakeInfo>) -> Seq<StakeView> {
    Seq::new(records.len(), |i: int| records[i]@)
}

impl Staking {
    /// The collections of the whitelist entries, in storage order.
    pub open spec fn collection_keys(&self) -> Seq<Seq<char>> {
        collections_of(self.collections@)
    }

    /// The eligibility flags of the whitelist entries, in storage order.
    pub open spec fn collection_flags(&self) -> Seq<bool> {
        flags_of(self.collections@)
    }

    /// The keys of the ledger's records, in storage order.
    pub open spec fn stake_keys(&self) -> Seq<(Seq<char>, Seq<char>)> {
        keys_of(self.nft_stakes@)
    }

    /// The ledger's records, in storage order.
    pub open spec fn stake_views(&self) -> Seq<StakeView> {
        views_of(self.nft_stakes@)
    }

    /// The invariant of the stored state: no collection and no position key
    /// is stored twice, no position has earned more than was ever paid out,
    /// and what was paid out plus what the pool holds fits the counter.
    pub open spec fn wf(&self) -> bool {
        &&& distinct(self.collection_keys())
        &&& distinct(self.stake_keys())
        &&& forall|i: int|
            0 <= i < self.nft_stakes.len() ==> (#[trigger] self.nft_stakes[i]).total_earned_tokens
                <= self.state.total_claims
        &&& self.state.total_claims + self.state.funded_tokens <= u128::MAX
    }
}

impl View for Staking {
    type V = Ledger;

    open spec fn view(&self) -> Ledger {
        Ledger {
            config: self.config@,
            state: self.state,
            whitelist: table(self.collection_keys(), self.collection_flags()),
            rates: self.reward_rates@,
            stakes: table(self.stake_keys(), self.stake_views()),
        }
    }
}

impl Ledger {
    /// Whether collection `c` is eligible; one without an entry is not.
    pub open spec fn is_whitelisted(self, c: Seq<char>) -> bool {
        self.whitelist.contains_key(c) && self.whitelist[c]
    }

    /// The reward rate of a lock of `days` days; zero where none is set.
    pub open spec fn rate_for(self, days: u64) -> u64 {
        if self.rates.contains_key(days) {
            self.rates[days]
        } else {
            0
        }
    }

    /// Whether the position for `token_id` in `collection` is open.
    pub open spec fn is_open(self, token_id: Seq<char>, collection: Seq<char>) -> bool {
        self.stakes.contains_key((token_id, collection)) && self.stakes[(
            token_id,
            collection,
        )].staked
    }

    /// The invariant, on the mathematical state: each record stands under its
    /// own key and has earned no more than was ever paid out, and what was
    /// paid out plus what the pool holds fits the counter.
    pub open spec fn valid(self) -> bool {
        &&& forall|k: (Seq<char>, Seq<char>)| #[trigger]
            self.stakes.contains_key(k) ==> {
                &&& self.stakes[k].token_id == k.0
                &&& self.stakes[k].collection == k.1
                &&& self.stakes[k].total_earned_tokens <= self.state.total_claims
            }
        &&& self.state.total_claims + self.state.funded_tokens <= u128::MAX
    }
}

/// Overwriting a record by one with the same key keeps the keys distinct and
/// inserts the new record under that key.
pub proof fn lemma_record_replaced(records: Seq<StakeInfo>, i: int, r: StakeInfo)
    requires
        distinct(keys_of(records)),
        0 <= i < records.len(),
        (r.token_id@, r.collection@) == keys_of(records)[i],
    ensures
        keys_of(records.update(i, r)) == keys_of(records),
        table(keys_of(records.update(i, r)), views_of(records.update(i, r))) == table(
            keys_of(records),
            views_of(records),
        ).insert((r.token_id@, r.collection@), r@),
{
    assert(keys_of(records.update(i, r)) =~= keys_of(records));
    assert(views_of(records.update(i, r)) =~= views_of(records).update(i, r@));
    lemma_table_update(keys_of(records), views_of(records), i, r@);
}

/// Appending a record whose key is new keeps the keys distinct and inserts
/// the record under its key.
pub proof fn lemma_record_added(records: Seq<StakeInfo>, r: StakeInfo)
    requires
        distinct(keys_of(records)),
        !keys_of(records).contains((r.token_id@, r.collection@)),
    ensures
        distinct(keys_of(records.push(r))),
        !table(keys_of(records), views_of(records)).contains_key((r.token_id@, r.collection@)),
        table(keys_of(records.push(r)), views_of(records.push(r))) == table(
            keys_of(records),
            views_of(records),
        ).insert((r.token_id@, r.collection@), r@),
{
    let k = (r.token_id@, r.collection@);
    assert(keys_of(records.push(r)) =~= keys_of(records).push(k));
    assert(views_of(records.push(r)) =~= views_of(records).push(r@));
    lemma_table_push(keys_of(records), views_of(records), k, r@);
}

/// Overwriting a whitelist entry by one for the same collection keeps the
/// collections distinct and inserts the new flag.
pub proof fn lemma_entry_replaced(entries: Seq<CollectionEntry>, i: int, e: CollectionEntry)
    requires
        distinct(collections_of(entries)),
        0 <= i < entries.len(),
        e.collection@ == collections_of(entries)[i],
    ensures
        collections_of(entries.update(i, e)) == collections_of(entries),
        table(collections_of(entries.update(i, e)), flags_of(entries.update(i, e))) == table(
            collections_of(entries),
            flags_of(entries),
        ).insert(e.collection@, e.eligible),
{
    assert(collections_of(entries.update(i, e)) =~= collections_of(entries));
    assert(flags_of(entries.update(i, e)) =~= flags_of(entries).update(i, e.eligible));
    lemma_table_update(collections_of(entries), flags_of(entries), i, e.eligible);
}

/// Appending a whitelist entry for a new collection keeps the collections
/// distinct and inserts its flag.
pub proof fn lemma_entry_added(entries: Seq<CollectionEntry>, e: CollectionEntry)
    requires
        distinct(collections_of(entries)),
        !collections_of(entries).contains(e.collection@),
    ensures
        distinct(collections_of(entries.push(e))),
        table(collections_of(entries.push(e)), flags_of(entries.push(e))) == table(
            collections_of(entries),
            flags_of(entries),
        ).insert(e.collection@, e.eligible),
{
    assert(collections_of(entries.push(e)) =~= collections_of(entries).push(e.collection@));
    assert(flags_of(entries.push(e)) =~= flags_of(entries).push(e.eligible));
    lemma_table_push(collections_of(entries), flags_of(entries), e.collection@, e.eligible);
}

/// A well-formed stored state is a valid mathematical state.
pub proof fn lemma_wf_valid(s: &Staking)
    requires
        s.wf(),
    ensures
        s@.valid(),
{
    let keys = s.stake_keys();
    let vals = s.stake_views();
    assert forall|k: (Seq<char>, Seq<char>)| #[trigger] s@.stakes.contains_key(k) implies {
        &&& s@.stakes[k].token_id == k.0
        &&& s@.stakes[k].collection == k.1
        &&& s@.stakes[k].total_earned_tokens <= s.state.total_claims
    } by {
        assert(keys.contains(k));
        let i = choose|i: int| 0 <= i < keys.len() && keys[i] == k;
        lemma_table_at(keys, vals, i);
        assert(vals[i] == s.nft_stakes[i]@);
    }
}

} // verus!
