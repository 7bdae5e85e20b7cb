//! The accrual engine: pure computation of how much value a schedule has
//! released as of a given timestamp.
//!
//! Two schedule shapes share the same clamped, truncating-division formula
//! style: a continuous stream releases linearly between `start` and `end`;
//! cliff vesting releases nothing before the cliff instant, a fixed lump at
//! the cliff, and the remainder linearly until the total duration elapses.
//! Amounts are recomputed from the schedule total and the full duration on
//! every call, so repeated queries never accumulate rounding drift.

use vstd::arithmetic::div_mod::{lemma_div_by_multiple, lemma_div_is_ordered, lemma_div_pos_is_pos};
use vstd::arithmetic::mul::{lemma_mul_inequality, lemma_mul_is_commutative, lemma_mul_nonnegative};
use vstd::prelude::*;

verus! {

/// Amount released by a linear stream of `total` units running from `start`
/// to `end`, as of time `now`: zero before `start`, everything from `end` on,
/// and `total * elapsed / duration` (truncating) in between.
pub open spec fn stream_accrued(total: int, start: int, end: int, now: int) -> int
    recommends
        total > 0,
        start < end,
{
    if now <= start {
        0
    } else if now >= end {
        total
    } else {
        total * (now - start) / (end - start)
    }
}

/// Amount released by a cliff-vesting grant of `total` units starting at
/// `start`, as of time `now`: zero before the cliff instant
/// `start + cliff_dur`, everything from `start + total_dur` on, and the cliff
/// lump plus a truncating linear share of the remainder in between.
pub open spec fn vesting_accrued(
    total: int,
    cliff_amount: int,
    start: int,
    cliff_dur: int,
    total_dur: int,
    now: int,
) -> int
    recommends
        total > 0,
        0 <= cliff_amount <= total,
        cliff_dur < total_dur,
{
    if now < start + cliff_dur {
        0
    } else if now >= start + total_dur {
        total
    } else {
        cliff_amount + (total - cliff_amount) * (now - start - cliff_dur) / (total_dur - cliff_dur)
    }
}

/// A truncated proportional share never leaves `[0, t]` while the elapsed
/// part `e` stays within the duration `d`.
proof fn lemma_muldiv_bounds(t: int, e: int, d: int)
    requires
        t >= 0,
        0 <= e <= d,
        0 < d,
    ensures
        0 <= t * e / d <= t,
{
    lemma_mul_nonnegative(t, e);
    lemma_div_pos_is_pos(t * e, d);
    lemma_mul_inequality(e, d, t);
    lemma_div_is_ordered(t * e, t * d, d);
    lemma_div_by_multiple(t, d);
}

/// A truncated proportional share grows with the elapsed part.
proof fn lemma_muldiv_monotone(t: int, e1: int, e2: int, d: int)
    requires
        t >= 0,
        e1 <= e2,
        0 < d,
    ensures
        t * e1 / d <= t * e2 / d,
{
    lemma_mul_inequality(e1, e2, t);
    lemma_div_is_ordered(t * e1, t * e2, d);
}

/// Stream accrual is clamped: it never leaves `[0, total]`.
pub proof fn lemma_stream_accrued_bounds(total: int, start: int, end: int, now: int)
    requires
        total > 0,
        start < end,
    ensures
        0 <= stream_accrued(total, start, end, now) <= total,
{
    if start < now < end {
        lemma_muldiv_bounds(total, now - start, end - start);
    }
}

/// Stream accrual is non-decreasing in time: a later query never reports
/// less released value than an earlier one.
pub proof fn lemma_stream_accrued_monotonic(total: int, start: int, end: int, t1: int, t2: int)
    requires
        total > 0,
        start < end,
        t1 <= t2,
    ensures
        stream_accrued(total, start, end, t1) <= stream_accrued(total, start, end, t2),
{
    lemma_stream_accrued_bounds(total, start, end, t1);
    lemma_stream_accrued_bounds(total, start, end, t2);
    if start < t1 < end && start < t2 < end {
        lemma_muldiv_monotone(total, t1 - start, t2 - start, end - start);
    }
}

/// Stream accrual at the boundaries: nothing at `start`, everything at `end`.
pub proof fn lemma_stream_accrued_boundary(total: int, start: int, end: int)
    requires
        total > 0,
        start < end,
    ensures
        stream_accrued(total, start, end, start) == 0,
        stream_accrued(total, start, end, end) == total,
{
}

/// Vesting accrual is clamped: it never leaves `[0, total]`.
pub proof fn lemma_vesting_accrued_bounds(
    total: int,
    cliff_amount: int,
    start: int,
    cliff_dur: int,
    total_dur: int,
    now: int,
)
    requires
        total > 0,
        0 <= cliff_amount <= total,
        cliff_dur < total_dur,
    ensures
        0 <= vesting_accrued(total, cliff_amount, start, cliff_dur, total_dur, now) <= total,
{
    if start + cliff_dur <= now < start + total_dur {
        lemma_muldiv_bounds(total - cliff_amount, now - start - cliff_dur, total_dur - cliff_dur);
    }
}

/// Vesting accrual is non-decreasing in time.
pub proof fn lemma_vesting_accrued_monotonic(
    total: int,
    cliff_amount: int,
    start: int,
    cliff_dur: int,
    total_dur: int,
    t1: int,
    t2: int,
)
    requires
        total > 0,
        0 <= cliff_amount <= total,
        cliff_dur < total_dur,
        t1 <= t2,
    ensures
        vesting_accrued(total, cliff_amount, start, cliff_dur, total_dur, t1)
            <= vesting_accrued(total, cliff_amount, start, cliff_dur, total_dur, t2),
{
    lemma_vesting_accrued_bounds(total, cliff_amount, start, cliff_dur, total_dur, t1);
    lemma_vesting_accrued_bounds(total, cliff_amount, start, cliff_dur, total_dur, t2);
    if start + cliff_dur <= t1 < start + total_dur && start + cliff_dur <= t2 < start + total_dur {
        lemma_muldiv_monotone(
            total - cliff_amount,
            t1 - start - cliff_dur,
            t2 - start - cliff_dur,
            total_dur - cliff_dur,
        );
    }
}

/// Vesting accrual at the boundaries: nothing strictly before the cliff
/// instant (hence nothing at `start` whenever there is a cliff), at least the
/// cliff lump from the cliff instant on, and everything once the total
/// duration has elapsed.
pub proof fn lemma_vesting_accrued_boundary(
    total: int,
    cliff_amount: int,
    start: int,
    cliff_dur: int,
    total_dur: int,
)
    requires
        total > 0,
        0 <= cliff_amount <= total,
        0 < cliff_dur < total_dur,
    ensures
        vesting_accrued(total, cliff_amount, start, cliff_dur, total_dur, start) == 0,
        vesting_accrued(total, cliff_amount, start, cliff_dur, total_dur, start + cliff_dur)
            >= cliff_amount,
        vesting_accrued(total, cliff_amount, start, cliff_dur, total_dur, start + total_dur)
            == total,
{
    let at_cliff = start + cliff_dur;
    if at_cliff < start + total_dur {
        lemma_muldiv_bounds(total - cliff_amount, 0, total_dur - cliff_dur);
    }
}

/// Executable stream accrual; matches `stream_accrued` exactly.
///
/// The product bound is what lets the proportional share be computed in
/// 128-bit arithmetic without overflow.
pub fn stream_accrued_at(total: i128, start: u64, end: u64, now: u64) -> (r: i128)
    requires
        total > 0,
        start < end,
        total * ((end - start) as int) <= i128::MAX,
    ensures
        r == stream_accrued(total as int, start as int, end as int, now as int),
        0 <= r <= total,
{
    proof {
        lemma_stream_accrued_bounds(total as int, start as int, end as int, now as int);
    }
    if now <= start {
        0
    } else if now >= end {
        total
    } else {
        let elapsed: u64 = now - start;
        let duration: u64 = end - start;
        proof {
            lemma_mul_inequality(elapsed as int, duration as int, total as int);
            lemma_mul_is_commutative(elapsed as int, total as int);
            lemma_mul_is_commutative(duration as int, total as int);
            lemma_mul_nonnegative(total as int, elapsed as int);
            lemma_muldiv_bounds(total as int, elapsed as int, duration as int);
        }
        (total * (elapsed as i128)) / (duration as i128)
    }
}

/// Executable cliff-vesting accrual; matches `vesting_accrued` exactly.
pub fn vesting_accrued_at(
    total: i128,
    cliff_amount: i128,
    start: u64,
    cliff_dur: u64,
    total_dur: u64,
    now: u64,
) -> (r: i128)
    requires
        total > 0,
        0 <= cliff_amount <= total,
        cliff_dur < total_dur,
        (total - cliff_amount) * ((total_dur - cliff_dur) as int) <= i128::MAX,
    ensures
        r == vesting_accrued(
            total as int,
            cliff_amount as int,
            start as int,
            cliff_dur as int,
            total_dur as int,
            now as int,
        ),
        0 <= r <= total,
{
    proof {
        lemma_vesting_accrued_bounds(
            total as int,
            cliff_amount as int,
            start as int,
            cliff_dur as int,
            total_dur as int,
            now as int,
        );
    }
    if now < start {
        return 0;
    }
    let elapsed: u64 = now - start;
    if elapsed < cliff_dur {
        0
    } else if elapsed >= total_dur {
        total
    } else {
        let since_cliff: u64 = elapsed - cliff_dur;
        let vest_dur: u64 = total_dur - cliff_dur;
        let remainder: i128 = total - cliff_amount;
        proof {
            lemma_mul_inequality(since_cliff as int, vest_dur as int, remainder as int);
            lemma_mul_is_commutative(since_cliff as int, remainder as int);
            lemma_mul_is_commutative(vest_dur as int, remainder as int);
            lemma_mul_nonnegative(remainder as int, since_cliff as int);
            lemma_muldiv_bounds(remainder as int, since_cliff as int, vest_dur as int);
        }
        cliff_amount + (remainder * (since_cliff as i128)) / (vest_dur as i128)
    }
}

} // verus!
