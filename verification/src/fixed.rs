//! Fixed-point conventions shared by every component.
use vstd::prelude::*;

verus! {

/// One whole unit (a metre, a radian, a volt, the ratio one) in millionths.
pub const MICRO: i64 = 1_000_000;

/// Nanoseconds in one second.
pub const NANOS_PER_SEC: u64 = 1_000_000_000;

/// Nanoseconds in one millisecond.
pub const NANOS_PER_MILLI: u64 = 1_000_000;

/// The shortest interval a control step is allowed to integrate over.
pub const MIN_STEP_NS: u64 = 1_000_000;

/// The nearest value to `v` that an `i64` can hold.
pub open spec fn saturate_spec(v: int) -> int {
    if v > i64::MAX {
        i64::MAX as int
    } else if v < i64::MIN {
        i64::MIN as int
    } else {
        v
    }
}

/// The quotient of `n` by a positive `d`, rounded toward zero.
pub open spec fn div_toward_zero(n: int, d: int) -> int
    recommends
        d > 0,
{
    if n >= 0 {
        n / d
    } else {
        -((-n) / d)
    }
}

/// Narrows a wide intermediate result to `i64`, saturating at the ends of the range.
pub fn saturate(v: i128) -> (r: i64)
    ensures
        r as int == saturate_spec(v as int),
{
    if v > i64::MAX as i128 {
        i64::MAX
    } else if v < i64::MIN as i128 {
        i64::MIN
    } else {
        v as i64
    }
}

/// Divides by a positive divisor, rounding toward zero.
pub fn div_round_toward_zero(n: i128, d: i128) -> (q: i128)
    requires
        d > 0,
    ensures
        q as int == div_toward_zero(n as int, d as int),
{
    n / d
}

/// Time elapsed from `earlier` to `now`, zero when the clock reads earlier than `earlier`.
pub open spec fn elapsed_spec(now_ns: u64, earlier_ns: u64) -> nat {
    if now_ns >= earlier_ns {
        (now_ns - earlier_ns) as nat
    } else {
        0
    }
}

/// Time elapsed from `earlier` to `now`, zero when the clock reads earlier than `earlier`.
pub fn elapsed(now_ns: u64, earlier_ns: u64) -> (d: u64)
    ensures
        d as nat == elapsed_spec(now_ns, earlier_ns),
{
    if now_ns >= earlier_ns {
        now_ns - earlier_ns
    } else {
        0
    }
}

} // verus!
