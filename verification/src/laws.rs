//! What holds of the operations, whatever the state and the request.

use vstd::prelude::*;
use crate::error::{ContractError, ErrorKind};
use crate::state::{Ledger, StakeView};
use crate::msg::{Effects, ExecuteMsg};
use crate::accrual::{lock_end, reward_due, lemma_truncation};

verus! {

/// A stake for a lock duration that has no rate, or the rate zero, is
/// refused. The refusal is a configuration error unless a check of another
/// class fails before the duration is looked at: the collection's address was
/// not accepted, or the key already has an open position.
pub proof fn law_stake_needs_rate(
    l: Ledger,
    now: u64,
    sender: Seq<char>,
    token_id: Seq<char>,
    collection: Option<Seq<char>>,
    days: u64,
)
    requires
        !l.rates.contains_key(days) || l.rates[days] == 0,
    ensures
        l.stake(now, sender, token_id, collection, days) is Err,
        !l.config.is_staking_allowed || (collection is Some && !(l.is_whitelisted(collection->0)
            && l.is_open(token_id, collection->0))) ==> l.stake(
            now,
            sender,
            token_id,
            collection,
            days,
        )->Err_0.spec_kind() == ErrorKind::Configuration,
{
}

/// After a stake that succeeded, the key has an open position that holds
/// what the request said, with nothing earned yet.
pub proof fn law_stake_opens(
    l: Ledger,
    now: u64,
    sender: Seq<char>,
    token_id: Seq<char>,
    collection: Seq<char>,
    days: u64,
)
    requires
        l.stake(now, sender, token_id, Some(collection), days) is Ok,
    ensures
        ({
            let after = l.stake(now, sender, token_id, Some(collection), days)->Ok_0.0;
            &&& after.is_open(token_id, collection)
            &&& after.stakes[(token_id, collection)].owner == sender
            &&& after.stakes[(token_id, collection)].total_earned_tokens == 0
            &&& after.stakes[(token_id, collection)].reward_rate == l.rates[days]
            &&& after.stakes[(token_id, collection)].stake_start == now
            &&& after.stakes[(token_id, collection)].last_claim_time == now
            &&& after.stakes[(token_id, collection)].stake_days == days
        }),
{
}

/// While a key has an open position, a stake on it is refused: as a conflict
/// of state where staking is on and the collection eligible.
pub proof fn law_open_position_refuses_stake(
    l: Ledger,
    now: u64,
    sender: Seq<char>,
    token_id: Seq<char>,
    collection: Seq<char>,
    days: u64,
)
    requires
        l.is_open(token_id, collection),
    ensures
        l.stake(now, sender, token_id, Some(collection), days) is Err,
        l.config.is_staking_allowed && l.is_whitelisted(collection) ==> l.stake(
            now,
            sender,
            token_id,
            Some(collection),
            days,
        ) == Err::<(Ledger, Effects), ContractError>(
            ContractError::AlreadyStakedTokenIDInCollection,
        ),
{
}

/// A second stake on the key of a stake that just succeeded is refused as a
/// conflict of state, whoever asks and for whatever duration.
pub proof fn law_second_stake_refused(
    l: Ledger,
    now: u64,
    sender: Seq<char>,
    token_id: Seq<char>,
    collection: Seq<char>,
    days: u64,
    later: u64,
    other_sender: Seq<char>,
    other_days: u64,
)
    requires
        l.stake(now, sender, token_id, Some(collection), days) is Ok,
    ensures
        l.stake(now, sender, token_id, Some(collection), days)->Ok_0.0.stake(
            later,
            other_sender,
            token_id,
            Some(collection),
            other_days,
        ) == Err::<(Ledger, Effects), ContractError>(
            ContractError::AlreadyStakedTokenIDInCollection,
        ),
{
}

/// A claim leaves the position open, and leaves the switch and the whitelist
/// as they were: stakes on the key stay refused until it is unstaked.
pub proof fn law_claim_keeps_open(
    l: Ledger,
    now: u64,
    sender: Seq<char>,
    token_id: Seq<char>,
    collection: Seq<char>,
)
    requires
        l.claim(now, sender, token_id, collection) is Ok,
    ensures
        ({
            let after = l.claim(now, sender, token_id, collection)->Ok_0.0;
            &&& after.is_open(token_id, collection)
            &&& after.config == l.config
            &&& after.whitelist == l.whitelist
            &&& after.rates == l.rates
        }),
{
}

/// A claim that succeeds never lowers what the position has earned, nor the
/// instant of its last settlement; it touches nothing else in the record, and
/// no other record.
pub proof fn law_claim_monotone(
    l: Ledger,
    now: u64,
    sender: Seq<char>,
    token_id: Seq<char>,
    collection: Seq<char>,
)
    requires
        l.valid(),
        l.claim(now, sender, token_id, collection) is Ok,
    ensures
        ({
            let key = (token_id, collection);
            let after = l.claim(now, sender, token_id, collection)->Ok_0.0;
            let paid = l.claim(now, sender, token_id, collection)->Ok_0.1.payout;
            &&& after.stakes[key].total_earned_tokens == l.stakes[key].total_earned_tokens + paid
            &&& after.stakes[key].total_earned_tokens >= l.stakes[key].total_earned_tokens
            &&& after.stakes[key].last_claim_time >= l.stakes[key].last_claim_time
            &&& after.stakes[key].last_claim_time <= now || after.stakes[key].last_claim_time
                == l.stakes[key].last_claim_time
            &&& after.stakes[key] == (StakeView {
                total_earned_tokens: after.stakes[key].total_earned_tokens,
                last_claim_time: after.stakes[key].last_claim_time,
                ..l.stakes[key]
            })
            &&& forall|k: (Seq<char>, Seq<char>)|
                k != key ==> (after.stakes.contains_key(k) <==> l.stakes.contains_key(k)) && (
                l.stakes.contains_key(k) ==> after.stakes[k] == l.stakes[k])
        }),
{
    let key = (token_id, collection);
    assert(l.stakes.contains_key(key));
    lemma_reward_bounds(l, now, key);
}

/// On a position that was last settled no later than `now` and no later than
/// the end of its lock, a claim that succeeds settles up to `now`, or to the
/// end of the lock where that comes first, and pays the reward of the time
/// between the two settlements.
pub proof fn law_claim_settles(
    l: Ledger,
    now: u64,
    sender: Seq<char>,
    token_id: Seq<char>,
    collection: Seq<char>,
)
    requires
        l.valid(),
        l.claim(now, sender, token_id, collection) is Ok,
        l.stakes[(token_id, collection)].last_claim_time <= now,
        l.stakes[(token_id, collection)].last_claim_time <= lock_end(
            l.stakes[(token_id, collection)].stake_start,
            l.stakes[(token_id, collection)].stake_days,
        ),
    ensures
        ({
            let p = l.stakes[(token_id, collection)];
            let end = lock_end(p.stake_start, p.stake_days);
            let point = if now <= end {
                now as int
            } else {
                end
            };
            let after = l.claim(now, sender, token_id, collection)->Ok_0.0;
            let paid = l.claim(now, sender, token_id, collection)->Ok_0.1.payout;
            &&& after.stakes[(token_id, collection)].last_claim_time == point
            &&& paid == reward_due(point - p.last_claim_time, p.reward_rate as int)
            &&& after.state.funded_tokens == l.state.funded_tokens - paid
            &&& after.state.total_claims == l.state.total_claims + paid
            &&& after.state.total_stakes == l.state.total_stakes
        }),
{
    let key = (token_id, collection);
    assert(l.stakes.contains_key(key));
    lemma_reward_bounds(l, now, key);
    let p = l.stakes[key];
    assert(reward_due(0, p.reward_rate as int) == 0) by (nonlinear_arith);
}

/// An unstake that succeeds settles up to its own instant, beyond the end of
/// the lock, and pays the reward of all the time since the last settlement.
pub proof fn law_unstake_settles(
    l: Ledger,
    now: u64,
    sender: Seq<char>,
    token_id: Seq<char>,
    collection: Seq<char>,
)
    requires
        l.valid(),
        l.unstake(now, sender, token_id, collection) is Ok,
        l.stakes[(token_id, collection)].last_claim_time <= now,
    ensures
        ({
            let p = l.stakes[(token_id, collection)];
            let after = l.unstake(now, sender, token_id, collection)->Ok_0.0;
            let paid = l.unstake(now, sender, token_id, collection)->Ok_0.1.payout;
            &&& after.stakes[(token_id, collection)].last_claim_time == now
            &&& !after.stakes[(token_id, collection)].staked
            &&& paid == reward_due(now - p.last_claim_time, p.reward_rate as int)
            &&& after.stakes[(token_id, collection)].total_earned_tokens == p.total_earned_tokens
                + paid
            &&& after.state.funded_tokens == l.state.funded_tokens - paid
            &&& after.state.total_claims == l.state.total_claims + paid
        }),
{
    let key = (token_id, collection);
    assert(l.stakes.contains_key(key));
    lemma_reward_bounds(l, now, key);
    let p = l.stakes[key];
    assert(reward_due(0, p.reward_rate as int) == 0) by (nonlinear_arith);
}

/// A claim made again at the same instant pays nothing.
pub proof fn law_claim_again_pays_nothing(
    l: Ledger,
    now: u64,
    sender: Seq<char>,
    token_id: Seq<char>,
    collection: Seq<char>,
)
    requires
        l.valid(),
        l.claim(now, sender, token_id, collection) is Ok,
    ensures
        ({
            let after = l.claim(now, sender, token_id, collection)->Ok_0.0;
            &&& after.claim(now, sender, token_id, collection) is Ok
            &&& after.claim(now, sender, token_id, collection)->Ok_0.1.payout == 0
        }),
{
    let key = (token_id, collection);
    assert(l.stakes.contains_key(key));
    lemma_reward_bounds(l, now, key);
}

/// The rewards of a claim and of an unstake are no less than zero.
pub proof fn lemma_reward_bounds(l: Ledger, now: u64, key: (Seq<char>, Seq<char>))
    ensures
        0 <= l.claim_reward(now, key),
        0 <= l.unstake_reward(now, key),
{
    let p = l.stakes[key];
    let c = crate::accrual::claim_point(p.stake_start, p.stake_days, p.last_claim_time, now);
    let u = crate::accrual::unstake_point(p.last_claim_time, now);
    if c > p.last_claim_time {
        assert((c - p.last_claim_time) * p.reward_rate >= 0) by (nonlinear_arith)
            requires
                c - p.last_claim_time >= 0,
                p.reward_rate >= 0,
        ;
        lemma_truncation((c - p.last_claim_time) * p.reward_rate);
    }
    if u > p.last_claim_time {
        assert((u - p.last_claim_time) * p.reward_rate >= 0) by (nonlinear_arith)
            requires
                u - p.last_claim_time >= 0,
                p.reward_rate >= 0,
        ;
        lemma_truncation((u - p.last_claim_time) * p.reward_rate);
    }
}

/// The staker of an open position is refused with a timing error as long as
/// the lock runs, and from the instant at which it ends the unstake succeeds
/// whenever the pool can pay the reward. It then closes the position and
/// hands the token back.
pub proof fn law_unstake_timing(
    l: Ledger,
    now: u64,
    sender: Seq<char>,
    token_id: Seq<char>,
    collection: Seq<char>,
)
    requires
        l.may_act(sender, token_id, collection),
    ensures
        ({
            let p = l.stakes[(token_id, collection)];
            let r = l.unstake(now, sender, token_id, collection);
            &&& now < lock_end(p.stake_start, p.stake_days) ==> r == Err::<
                (Ledger, Effects),
                ContractError,
            >(ContractError::StillLocked)
            &&& now >= lock_end(p.stake_start, p.stake_days) && l.unstake_reward(
                now,
                (token_id, collection),
            ) <= l.state.funded_tokens ==> r is Ok && !r->Ok_0.0.is_open(token_id, collection)
            &&& r is Ok ==> now >= lock_end(p.stake_start, p.stake_days)
        }),
{
}

/// The reward is the whole part of `elapsed * rate / 86400`: what is left
/// over is less than one unit, and it is dropped, never rounded up. The same
/// elapsed time and rate always give the same reward.
pub proof fn law_reward_truncates(elapsed: int, rate: int)
    requires
        elapsed >= 0,
        rate >= 0,
    ensures
        0 <= reward_due(elapsed, rate),
        reward_due(elapsed, rate) * 86400 <= elapsed * rate,
        elapsed * rate < (reward_due(elapsed, rate) + 1) * 86400,
        forall|e: int, r: int| e == elapsed && r == rate ==> reward_due(e, r) == reward_due(
            elapsed,
            rate,
        ),
{
    assert(elapsed * rate >= 0) by (nonlinear_arith)
        requires
            elapsed >= 0,
            rate >= 0,
    ;
    lemma_truncation(elapsed * rate);
}

/// Whole days earn the rate once per day: nothing is lost to truncation.
pub proof fn law_whole_days(days: int, rate: int)
    requires
        days >= 0,
        rate >= 0,
    ensures
        reward_due(days * 86400, rate) == days * rate,
{
    assert((days * 86400) * rate == (days * rate) * 86400) by (nonlinear_arith);
    assert(((days * rate) * 86400) / 86400 == days * rate) by (nonlinear_arith);
}

/// One request on a valid state: where it succeeds, the state stays valid,
/// the payout comes out of the pool and was there to be paid, and what was
/// paid out plus what the pool holds is what it was. Where the reward of a
/// claim is more than the pool holds, the staker's claim is refused as a
/// matter of solvency.
pub proof fn law_request_solvent(l: Ledger, now: u64, sender: Seq<char>, msg: ExecuteMsg)
    requires
        l.valid(),
    ensures
        match l.dispatch(now, sender, msg) {
            Ok((after, effects)) => {
                &&& after.valid()
                &&& effects.payout <= l.state.funded_tokens
                &&& after.state.funded_tokens == l.state.funded_tokens - effects.payout
                &&& after.state.total_claims == l.state.total_claims + effects.payout
            },
            Err(_) => true,
        },
        msg is Claim && l.may_act(sender, msg->Claim_token_id@, msg->Claim_collection_addr@)
            && l.claim_reward(now, (msg->Claim_token_id@, msg->Claim_collection_addr@))
            > l.state.funded_tokens ==> l.dispatch(now, sender, msg) == Err::<
            (Ledger, Effects),
            ContractError,
        >(ContractError::InsufficientFundedTokens),
{
    match msg {
        ExecuteMsg::Claim { token_id, collection_addr } => {
            let key = (token_id@, collection_addr@);
            lemma_reward_bounds(l, now, key);
            if l.claim(now, sender, token_id@, collection_addr@) is Ok {
                assert(l.stakes.contains_key(key));
                let after = l.claim(now, sender, token_id@, collection_addr@)->Ok_0.0;
                assert forall|k: (Seq<char>, Seq<char>)| #[trigger]
                    after.stakes.contains_key(k) implies {
                    &&& after.stakes[k].token_id == k.0
                    &&& after.stakes[k].collection == k.1
                    &&& after.stakes[k].total_earned_tokens <= after.state.total_claims
                } by {
                    if k != key {
                        assert(l.stakes.contains_key(k));
                    }
                }
            }
        },
        ExecuteMsg::Unstake { token_id, collection_addr } => {
            let key = (token_id@, collection_addr@);
            lemma_reward_bounds(l, now, key);
            if l.unstake(now, sender, token_id@, collection_addr@) is Ok {
                assert(l.stakes.contains_key(key));
                let after = l.unstake(now, sender, token_id@, collection_addr@)->Ok_0.0;
                assert forall|k: (Seq<char>, Seq<char>)| #[trigger]
                    after.stakes.contains_key(k) implies {
                    &&& after.stakes[k].token_id == k.0
                    &&& after.stakes[k].collection == k.1
                    &&& after.stakes[k].total_earned_tokens <= after.state.total_claims
                } by {
                    if k != key {
                        assert(l.stakes.contains_key(k));
                    }
                }
            }
        },
        ExecuteMsg::Stake { token_id, collection_addr, number_days } => {
            let r = l.stake(now, sender, token_id@, crate::msg::addr_view(collection_addr), number_days);
            if r is Ok {
                let after = r->Ok_0.0;
                let key = (token_id@, collection_addr->0@);
                assert forall|k: (Seq<char>, Seq<char>)| #[trigger]
                    after.stakes.contains_key(k) implies {
                    &&& after.stakes[k].token_id == k.0
                    &&& after.stakes[k].collection == k.1
                    &&& after.stakes[k].total_earned_tokens <= after.state.total_claims
                } by {
                    if k != key {
                        assert(l.stakes.contains_key(k));
                    }
                }
            }
        },
        _ => {},
    }
}

/// One request that arrives at the instant `now` from `sender`.
pub struct Request {
    pub now: u64,
    pub sender: Seq<char>,
    pub msg: ExecuteMsg,
}

/// The state after the requests were served one after the other, a refused
/// request leaving the state as it was.
pub open spec fn after_requests(l: Ledger, requests: Seq<Request>) -> Ledger
    decreases requests.len(),
{
    if requests.len() == 0 {
        l
    } else {
        let before = after_requests(l, requests.drop_last());
        let last = requests.last();
        match before.dispatch(last.now, last.sender, last.msg) {
            Ok((after, _)) => after,
            Err(_) => before,
        }
    }
}

/// No sequence of requests overdraws the pool: after any of them the state
/// is valid, the pool holds no more than before, and what left the pool is
/// exactly what was added to the total of claims.
pub proof fn law_pool_never_overdrawn(l: Ledger, requests: Seq<Request>)
    requires
        l.valid(),
    ensures
        after_requests(l, requests).valid(),
        0 <= after_requests(l, requests).state.funded_tokens <= l.state.funded_tokens,
        after_requests(l, requests).state.funded_tokens + after_requests(
            l,
            requests,
        ).state.total_claims == l.state.funded_tokens + l.state.total_claims,
    decreases requests.len(),
{
    if requests.len() > 0 {
        law_pool_never_overdrawn(l, requests.drop_last());
        let before = after_requests(l, requests.drop_last());
        let last = requests.last();
        law_request_solvent(before, last.now, last.sender, last.msg);
    }
}

} // verus!
