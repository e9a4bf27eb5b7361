//! Arithmetic on lengths.
//!
//! A length is an `i64` count of layout units. Sums and differences saturate at
//! the bounds of `i64`, so that an overflowing length behaves like an infinite
//! one instead of wrapping around.
use vstd::prelude::*;

verus! {

/// The value of `x` saturated into the range of `i64`.
pub open spec fn sat(x: int) -> i64 {
    if x > i64::MAX {
        i64::MAX
    } else if x < i64::MIN {
        i64::MIN
    } else {
        x as i64
    }
}

/// The larger of two lengths.
pub open spec fn max_len(a: i64, b: i64) -> i64 {
    if a >= b {
        a
    } else {
        b
    }
}

/// The smaller of two lengths.
pub open spec fn min_len(a: i64, b: i64) -> i64 {
    if a <= b {
        a
    } else {
        b
    }
}

/// `v` raised to at least `lo` (when given) after being lowered to at most
/// `hi` (when given): where the bounds cross, the lower bound wins.
pub open spec fn clamp_len(v: i64, lo: Option<i64>, hi: Option<i64>) -> i64 {
    let capped = match hi {
        Some(h) => min_len(v, h),
        None => v,
    };
    match lo {
        Some(l) => max_len(capped, l),
        None => capped,
    }
}

/// `clamp_len` applied to an optional length; an absent length stays absent.
pub open spec fn clamp_opt(v: Option<i64>, lo: Option<i64>, hi: Option<i64>) -> Option<i64> {
    match v {
        Some(x) => Some(clamp_len(x, lo, hi)),
        None => None,
    }
}

/// An optional length shifted by `d`; an absent length stays absent.
pub open spec fn add_opt(v: Option<i64>, d: i64) -> Option<i64> {
    match v {
        Some(x) => Some(sat(x + d)),
        None => None,
    }
}

/// An optional length shifted down by `d`; an absent length stays absent.
pub open spec fn sub_opt(v: Option<i64>, d: i64) -> Option<i64> {
    match v {
        Some(x) => Some(sat(x - d)),
        None => None,
    }
}

/// An optional length raised to at least `d`; an absent length stays absent.
pub open spec fn max_opt(v: Option<i64>, d: i64) -> Option<i64> {
    match v {
        Some(x) => Some(max_len(x, d)),
        None => None,
    }
}

/// The first of `a` and `b` that is present.
pub open spec fn or_opt(a: Option<i64>, b: Option<i64>) -> Option<i64> {
    match a {
        Some(x) => Some(x),
        None => b,
    }
}

/// Saturating sum of two lengths.
pub fn add_len(a: i64, b: i64) -> (r: i64)
    ensures
        r == sat(a + b),
{
    match a.checked_add(b) {
        Some(v) => v,
        None => {
            if b > 0 {
                i64::MAX
            } else {
                i64::MIN
            }
        },
    }
}

/// Saturating difference of two lengths.
pub fn sub_len(a: i64, b: i64) -> (r: i64)
    ensures
        r == sat(a - b),
{
    match a.checked_sub(b) {
        Some(v) => v,
        None => {
            if b < 0 {
                i64::MAX
            } else {
                i64::MIN
            }
        },
    }
}

/// The larger of two lengths.
pub fn len_max(a: i64, b: i64) -> (r: i64)
    ensures
        r == max_len(a, b),
{
    if a >= b {
        a
    } else {
        b
    }
}

/// The smaller of two lengths.
pub fn len_min(a: i64, b: i64) -> (r: i64)
    ensures
        r == min_len(a, b),
{
    if a <= b {
        a
    } else {
        b
    }
}

/// Clamps a length between optional bounds; the lower bound wins where they cross.
pub fn len_clamp(v: i64, lo: Option<i64>, hi: Option<i64>) -> (r: i64)
    ensures
        r == clamp_len(v, lo, hi),
{
    let capped = match hi {
        Some(h) => len_min(v, h),
        None => v,
    };
    match lo {
        Some(l) => len_max(capped, l),
        None => capped,
    }
}

/// Clamps an optional length between optional bounds.
pub fn opt_clamp(v: Option<i64>, lo: Option<i64>, hi: Option<i64>) -> (r: Option<i64>)
    ensures
        r == clamp_opt(v, lo, hi),
{
    match v {
        Some(x) => Some(len_clamp(x, lo, hi)),
        None => None,
    }
}

/// Shifts an optional length by `d`.
pub fn opt_add(v: Option<i64>, d: i64) -> (r: Option<i64>)
    ensures
        r == add_opt(v, d),
{
    match v {
        Some(x) => Some(add_len(x, d)),
        None => None,
    }
}

/// Shifts an optional length down by `d`.
pub fn opt_sub(v: Option<i64>, d: i64) -> (r: Option<i64>)
    ensures
        r == sub_opt(v, d),
{
    match v {
        Some(x) => Some(sub_len(x, d)),
        None => None,
    }
}

/// Raises an optional length to at least `d`.
pub fn opt_max(v: Option<i64>, d: i64) -> (r: Option<i64>)
    ensures
        r == max_opt(v, d),
{
    match v {
        Some(x) => Some(len_max(x, d)),
        None => None,
    }
}

/// The first of two optional lengths that is present.
pub fn opt_or(a: Option<i64>, b: Option<i64>) -> (r: Option<i64>)
    ensures
        r == or_opt(a, b),
{
    match a {
        Some(x) => Some(x),
        None => b,
    }
}

} // verus!
