//! Spans of simulated time.
//!
//! A span is a count of nanoseconds held in a `u128`. The largest span is the
//! largest value a `std::time::Duration` can hold (`u64::MAX` seconds and
//! 999 999 999 nanoseconds); adding two spans past it is an overflow, which the
//! functions of this crate rule out by their `requires`.
use vstd::prelude::*;

verus! {

/// Nanoseconds in one second.
pub const NANOS_PER_SEC: u128 = 1_000_000_000;

/// The longest span that can be represented, in nanoseconds.
pub const MAX_SPAN_NANOS: u128 = 18_446_744_073_709_551_615_999_999_999;

/// `n` is a span that can be represented.
pub open spec fn is_span(n: int) -> bool {
    0 <= n <= MAX_SPAN_NANOS
}

/// The smaller of two spans.
pub open spec fn span_min(a: int, b: int) -> int {
    if a <= b {
        a
    } else {
        b
    }
}

/// The larger of two spans.
pub open spec fn span_max(a: int, b: int) -> int {
    if a >= b {
        a
    } else {
        b
    }
}

/// `a - b`, or zero where `b` is the larger.
pub open spec fn span_saturating_sub(a: int, b: int) -> int {
    if a >= b {
        a - b
    } else {
        0
    }
}

} // verus!
