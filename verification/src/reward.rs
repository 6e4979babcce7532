//! The reward that accrues to a vault between two cranks.
//!
//! Each elapsed second is worth the square root of the seconds that remain
//! until the milestone, so the rate decays as the milestone comes closer and
//! stays at one per second from the milestone on.

use crate::error::ErrorCode;
use crate::policy::MILESTONE_TS;
use crate::roots::{isqrt, lemma_sqrt_floor_monotone, sqrt_floor};
use vstd::prelude::*;

verus! {

/// The seconds left until the milestone, never less than one.
pub open spec fn gap(now: int) -> int {
    if MILESTONE_TS - now > 1 {
        MILESTONE_TS - now
    } else {
        1
    }
}

/// What one elapsed second is worth at `now`.
pub open spec fn multiplier(now: int) -> nat {
    sqrt_floor(gap(now) as nat)
}

/// The seconds since the last crank, none where the clock fell behind it.
pub open spec fn elapsed(now: int, since_last: int) -> int {
    if now > since_last {
        now - since_last
    } else {
        0
    }
}

/// The reward before it is fitted to the amount type.
pub open spec fn accrued(now: int, since_last: int) -> int {
    elapsed(now, since_last) * multiplier(now)
}

/// The reward: what accrued, or the largest amount there is where that is more.
pub open spec fn reward(now: int, since_last: int) -> int {
    if accrued(now, since_last) > u64::MAX {
        u64::MAX as int
    } else {
        accrued(now, since_last)
    }
}

/// The reward for a crank at `now` on a vault last cranked at `since_last`.
pub fn reward_amount(now: i64, since_last: i64) -> (amount: Result<u64, ErrorCode>)
    ensures
        amount == Ok::<u64, ErrorCode>(reward(now as int, since_last as int) as u64),
        0 <= reward(now as int, since_last as int) <= u64::MAX,
        // A clock that is not ahead of the last crank earns nothing.
        since_last >= now ==> amount == Ok::<u64, ErrorCode>(0),
        // What does not fit the amount type is the largest amount.
        accrued(now as int, since_last as int) > u64::MAX ==> amount == Ok::<u64, ErrorCode>(
            u64::MAX,
        ),
{
    let gap_now: u64 = if now < MILESTONE_TS {
        (MILESTONE_TS as i128 - now as i128) as u64
    } else {
        1
    };
    let rate: u64 = isqrt(gap_now);
    let seconds: u64 = if now > since_last {
        (now as i128 - since_last as i128) as u64
    } else {
        0
    };
    assert(gap_now == gap(now as int));
    assert(seconds == elapsed(now as int, since_last as int));
    assert(rate == multiplier(now as int));
    assert(accrued(now as int, since_last as int) >= 0) by (nonlinear_arith)
        requires
            accrued(now as int, since_last as int) == seconds * rate,
    ;
    match seconds.checked_mul(rate) {
        Some(product) => Ok(product),
        None => Ok(u64::MAX),
    }
}

/// The worth of a second never grows with time.
pub proof fn lemma_multiplier_decays(earlier: int, later: int)
    requires
        earlier <= later,
    ensures
        multiplier(earlier) >= multiplier(later),
{
    lemma_sqrt_floor_monotone(gap(later) as nat, gap(earlier) as nat);
}

/// For the same elapsed time, a later crank never earns more than an earlier
/// one: the reward decays toward the milestone.
pub proof fn lemma_reward_decays(now1: int, since1: int, now2: int, since2: int)
    requires
        now1 <= now2,
        elapsed(now1, since1) == elapsed(now2, since2),
    ensures
        reward(now1, since1) >= reward(now2, since2),
{
    lemma_multiplier_decays(now1, now2);
    let seconds = elapsed(now1, since1);
    let high = multiplier(now1);
    let low = multiplier(now2);
    assert(seconds * high >= seconds * low) by (nonlinear_arith)
        requires
            seconds >= 0,
            high >= low,
    ;
}

} // verus!
