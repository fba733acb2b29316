use vstd::prelude::*;
use vstd::arithmetic::div_mod::{
    lemma_div_is_ordered, lemma_div_multiples_vanish, lemma_div_nonincreasing,
    lemma_div_of0, lemma_div_pos_is_pos,
};
use vstd::arithmetic::mul::{
    lemma_mul_inequality, lemma_mul_is_commutative, lemma_mul_nonnegative,
    lemma_mul_unary_negation,
};
use crate::error::ErrorCode;

verus! {

/// `max(0, to - from)`, saturating at `i64::MAX`: the span between two
/// timestamps, clamped so that it is never negative and always fits in
/// the machine range.
pub open spec fn clamped_span(from: i64, to: i64) -> int {
    if to <= from {
        0
    } else if to - from > i64::MAX {
        i64::MAX as int
    } else {
        to - from
    }
}

/// Round-toward-zero division for `d > 0`: what `/` computes on `i64`.
pub open spec fn trunc_div(x: int, d: int) -> int
    recommends
        d > 0,
{
    if x >= 0 {
        x / d
    } else {
        -((-x) / d)
    }
}

/// `max(0, vested - withdrawn)`, saturating: the amount still payable out
/// of what has vested.
pub open spec fn claimable_spec(vested: i64, withdrawn: i64) -> int {
    clamped_span(withdrawn, vested)
}

/// The arithmetic engine, as a mathematical function. In order:
/// a claim before the cliff is too early; a vesting period of zero
/// (or negative) length is invalid; at or after `end` the whole
/// allocation has vested; otherwise the vested amount is the linear
/// share `total * elapsed / duration`, rejected if the product leaves
/// the `i64` range.
pub open spec fn vested_result(
    now: i64,
    start: i64,
    end: i64,
    cliff: i64,
    total: i64,
) -> Result<i64, ErrorCode> {
    if now < cliff {
        Err(ErrorCode::TooEarlyToClaim)
    } else if clamped_span(start, end) == 0 {
        Err(ErrorCode::InvalidVestingPeriod)
    } else if now >= end {
        Ok(total)
    } else if total * clamped_span(start, now) > i64::MAX
        || total * clamped_span(start, now) < i64::MIN {
        Err(ErrorCode::CalculationOverflow)
    } else {
        Ok(trunc_div(total * clamped_span(start, now), clamped_span(start, end)) as i64)
    }
}

/// `max(0, to - from)` with saturation at `i64::MAX`.
pub fn saturating_span(from: i64, to: i64) -> (r: i64)
    ensures
        r == clamped_span(from, to),
{
    if to <= from {
        0
    } else {
        match to.checked_sub(from) {
            Some(d) => d,
            None => i64::MAX,
        }
    }
}

/// How much of `total` has vested at `now` for a grant running from
/// `start` to `end` with a cliff at `cliff`.
pub fn vested_amount(now: i64, start: i64, end: i64, cliff: i64, total: i64) -> (r: Result<
    i64,
    ErrorCode,
>)
    ensures
        r == vested_result(now, start, end, cliff, total),
{
    if now < cliff {
        return Err(ErrorCode::TooEarlyToClaim);
    }
    let elapsed = saturating_span(start, now);
    let duration = saturating_span(start, end);
    if duration == 0 {
        return Err(ErrorCode::InvalidVestingPeriod);
    }
    if now >= end {
        return Ok(total);
    }
    match total.checked_mul(elapsed) {
        Some(product) => {
            proof {
                lemma_checked_div_in_range(product as int, duration as int);
            }
            Ok(product.checked_div(duration).unwrap())
        },
        None => Err(ErrorCode::CalculationOverflow),
    }
}

/// The part of `vested` that has not been withdrawn yet, clamped at zero.
pub fn claimable_amount(vested: i64, withdrawn: i64) -> (r: i64)
    ensures
        r == claimable_spec(vested, withdrawn),
        r >= 0,
{
    saturating_span(withdrawn, vested)
}

/// For a positive divisor, `i64::checked_div` succeeds and computes
/// exactly the round-toward-zero quotient.
proof fn lemma_checked_div_in_range(x: int, d: int)
    requires
        i64::MIN <= x <= i64::MAX,
        0 < d <= i64::MAX,
    ensures
        i64::MIN <= trunc_div(x, d) <= i64::MAX,
        (x as i64).checked_div(d as i64) == Some(trunc_div(x, d) as i64),
{
    if x == 0 {
        lemma_div_of0(d);
    } else if x > 0 {
        lemma_div_pos_is_pos(x, d);
        lemma_div_nonincreasing(x, d);
    } else {
        lemma_div_pos_is_pos(-x, d);
        lemma_div_nonincreasing(-x, d);
        assert(x * -1 == -x);
        assert(((x * -1) / d) * -1 == -((-x) / d));
    }
}

/// A longer span never shrinks the clamped difference.
proof fn lemma_span_monotonic(from: i64, to1: i64, to2: i64)
    requires
        to1 <= to2,
    ensures
        clamped_span(from, to1) <= clamped_span(from, to2),
{
}

/// Whatever the engine returns is bounded by the allocation: for a
/// non-negative `total` the vested amount lies between `0` and `total`;
/// for a negative `total` it never goes above zero (so nothing is ever
/// payable out of such a grant).
pub proof fn lemma_vested_in_range(now: i64, start: i64, end: i64, cliff: i64, total: i64, v: i64)
    requires
        vested_result(now, start, end, cliff, total) == Ok::<i64, ErrorCode>(v),
    ensures
        total >= 0 ==> 0 <= v <= total,
        total < 0 ==> v <= 0,
{
    if now >= end {
        // fully vested: v == total
    } else {
        let e = clamped_span(start, now);
        let d = clamped_span(start, end);
        let p = total * e;
        lemma_span_monotonic(start, now, end);
        assert(0 < d);
        assert(0 <= e <= d);
        if total >= 0 {
            lemma_mul_nonnegative(total as int, e);
            lemma_div_pos_is_pos(p, d);
            lemma_mul_inequality(e, d, total as int);
            lemma_mul_is_commutative(total as int, e);
            lemma_mul_is_commutative(total as int, d);
            lemma_div_is_ordered(p, d * total, d);
            lemma_div_multiples_vanish(total as int, d);
            assert(trunc_div(p, d) <= total);
        } else {
            lemma_mul_unary_negation(total as int, e);
            lemma_mul_nonnegative(-total as int, e);
            assert(p <= 0);
            if p < 0 {
                lemma_div_pos_is_pos(-p, d);
            } else {
                lemma_div_of0(d);
            }
            assert(trunc_div(p, d) <= 0);
        }
    }
}

/// Vesting only ever moves forward: with a well-formed period and a
/// non-negative allocation, the vested amount is monotonically
/// non-decreasing in `now`, and from `end` on it equals the whole
/// allocation.
pub proof fn lemma_vested_monotonic(
    now1: i64,
    now2: i64,
    start: i64,
    end: i64,
    cliff: i64,
    total: i64,
    v1: i64,
    v2: i64,
)
    requires
        total >= 0,
        start < end,
        now1 <= now2,
        vested_result(now1, start, end, cliff, total) == Ok::<i64, ErrorCode>(v1),
        vested_result(now2, start, end, cliff, total) == Ok::<i64, ErrorCode>(v2),
    ensures
        v1 <= v2,
        now2 >= end ==> v2 == total,
        now1 >= end ==> v1 == total,
{
    if now1 >= end {
        // both fully vested
    } else if now2 >= end {
        lemma_vested_in_range(now1, start, end, cliff, total, v1);
    } else {
        let e1 = clamped_span(start, now1);
        let e2 = clamped_span(start, now2);
        let d = clamped_span(start, end);
        lemma_span_monotonic(start, now1, now2);
        lemma_mul_inequality(e1, e2, total as int);
        lemma_mul_is_commutative(total as int, e1);
        lemma_mul_is_commutative(total as int, e2);
        lemma_mul_nonnegative(total as int, e1);
        lemma_div_is_ordered(total * e1, total * e2, d);
        lemma_div_pos_is_pos(total * e1, d);
    }
}

/// The cliff gates every claim: before `cliff` the engine fails with
/// `TooEarlyToClaim`, regardless of every other parameter.
pub proof fn lemma_cliff_gates_claims(now: i64, start: i64, end: i64, cliff: i64, total: i64)
    requires
        now < cliff,
    ensures
        vested_result(now, start, end, cliff, total) == Err::<i64, ErrorCode>(
            ErrorCode::TooEarlyToClaim,
        ),
{
}

/// A degenerate vesting period (`end <= start`, in particular
/// `start == end`) is rejected whenever the engine is reached, that is,
/// at claim time once the cliff has passed.
pub proof fn lemma_degenerate_period_rejected(
    now: i64,
    start: i64,
    end: i64,
    cliff: i64,
    total: i64,
)
    requires
        end <= start,
        now >= cliff,
    ensures
        vested_result(now, start, end, cliff, total) == Err::<i64, ErrorCode>(
            ErrorCode::InvalidVestingPeriod,
        ),
{
}

} // verus!
