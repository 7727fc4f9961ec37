//! Reward arithmetic: whole units only, remainders dropped.

use vstd::prelude::*;

verus! {

/// The length of a day on the host's clock, which counts seconds.
pub const SECONDS_PER_DAY: u64 = 86400;

/// The instant at which a lock of `stake_days` days that began at
/// `stake_start` runs out.
pub open spec fn lock_end(stake_start: u64, stake_days: u64) -> int {
    stake_start + stake_days * 86400
}

/// The instant up to which a claim made at `now` settles: `now`, or the
/// lock's end where that comes first, and never earlier than the last
/// settlement.
pub open spec fn claim_point(stake_start: u64, stake_days: u64, last_claim_time: u64, now: u64) -> u64 {
    let end = lock_end(stake_start, stake_days);
    let capped = if now <= end {
        now as int
    } else {
        end
    };
    if capped <= last_claim_time {
        last_claim_time
    } else {
        capped as u64
    }
}

/// The instant up to which the final settlement of an unstake at `now`
/// reaches: `now` itself, and never earlier than the last settlement.
pub open spec fn unstake_point(last_claim_time: u64, now: u64) -> u64 {
    if now <= last_claim_time {
        last_claim_time
    } else {
        now
    }
}

/// The reward for `elapsed` seconds at `rate` units per day: the whole part
/// of `elapsed * rate / 86400`.
pub open spec fn reward_due(elapsed: int, rate: int) -> int {
    (elapsed * rate) / 86400
}

/// The reward that accrues between `last_claim_time` and `point`.
pub open spec fn accrued(last_claim_time: u64, point: u64, rate: u64) -> int {
    if point <= last_claim_time {
        0
    } else {
        reward_due(point - last_claim_time, rate as int)
    }
}

/// Whether the lock that began at `stake_start` has run out at `now`.
pub fn lock_expired(stake_start: u64, stake_days: u64, now: u64) -> (b: bool)
    ensures
        b == (now >= lock_end(stake_start, stake_days)),
{
    let end: u128 = stake_start as u128 + stake_days as u128 * 86400u128;
    now as u128 >= end
}

/// Computes [`claim_point`].
pub fn settle_point(stake_start: u64, stake_days: u64, last_claim_time: u64, now: u64) -> (p: u64)
    ensures
        p == claim_point(stake_start, stake_days, last_claim_time, now),
        p >= last_claim_time,
        last_claim_time <= now <= lock_end(stake_start, stake_days) ==> p == now,
        last_claim_time <= lock_end(stake_start, stake_days) <= now ==> p == lock_end(
            stake_start,
            stake_days,
        ),
{
    let end: u128 = stake_start as u128 + stake_days as u128 * 86400u128;
    if now <= last_claim_time {
        last_claim_time
    } else if now as u128 <= end {
        now
    } else if last_claim_time as u128 <= end {
        end as u64
    } else {
        last_claim_time
    }
}

/// The reward for the time from `last_claim_time` to `point` at `rate` units
/// per day, with the fraction of a unit dropped.
pub fn accrue(last_claim_time: u64, point: u64, rate: u64) -> (reward: u128)
    ensures
        reward == accrued(last_claim_time, point, rate),
        point <= last_claim_time ==> reward == 0,
        point >= last_claim_time ==> {
            &&& reward * 86400 <= (point - last_claim_time) * rate
            &&& (point - last_claim_time) * rate < (reward + 1) * 86400
        },
{
    if point <= last_claim_time {
        0
    } else {
        let elapsed: u64 = point - last_claim_time;
        proof {
            assert(0 <= elapsed * rate <= 0xffff_ffff_ffff_ffff * 0xffff_ffff_ffff_ffff)
                by (nonlinear_arith)
                requires
                    0 <= elapsed <= 0xffff_ffff_ffff_ffff,
                    0 <= rate <= 0xffff_ffff_ffff_ffff,
            ;
            lemma_truncation(elapsed * rate);
        }
        let product: u128 = elapsed as u128 * rate as u128;
        product / 86400u128
    }
}

/// Division by the length of a day drops the remainder and nothing else.
pub proof fn lemma_truncation(product: int)
    requires
        product >= 0,
    ensures
        0 <= product / 86400,
        (product / 86400) * 86400 <= product < (product / 86400 + 1) * 86400,
        product / 86400 <= product,
{
    assert(product == 86400 * (product / 86400) + product % 86400) by (nonlinear_arith);
    assert(0 <= product % 86400 < 86400);
}

} // verus!
