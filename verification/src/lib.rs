//! Naive recursive Fibonacci over signed 32-bit integers.
//!
//! The sequence follows the convention `F(0) = 0`, `F(1) = 1`,
//! `F(n) = F(n-1) + F(n-2)` for `n >= 2`, and every input below 2 —
//! negative inputs included — is returned unchanged. Arithmetic is
//! fixed-width signed 32-bit with trapping overflow semantics, so inputs
//! whose Fibonacci number exceeds `i32::MAX` are excluded by precondition
//! rather than left to trap at run time.

use vstd::prelude::*;

verus! {

/// Largest input whose Fibonacci number fits in an `i32`:
/// `F(46) = 1_836_311_903 <= i32::MAX`, while `F(47)` exceeds it.
pub const MAX_FIB_INPUT: i32 = 46;

/// Default input used when the caller supplies none.
pub const DEFAULT_INPUT: i32 = 10;

/// The Fibonacci function as a mathematical definition, extended below 2
/// as the identity (so negative arguments pass through unchanged).
pub open spec fn spec_fib(n: int) -> int
    decreases n,
{
    if n < 2 {
        n
    } else {
        spec_fib(n - 1) + spec_fib(n - 2)
    }
}

/// Fibonacci numbers of nonnegative index are nonnegative.
proof fn lemma_fib_nonneg(n: int)
    requires
        0 <= n,
    ensures
        0 <= spec_fib(n),
    decreases n,
{
    if n >= 2 {
        lemma_fib_nonneg(n - 1);
        lemma_fib_nonneg(n - 2);
    }
}

/// The Fibonacci sequence is monotone over nonnegative indices.
proof fn lemma_fib_monotonic(a: int, b: int)
    requires
        0 <= a <= b,
    ensures
        spec_fib(a) <= spec_fib(b),
    decreases b,
{
    if a < b && b >= 2 {
        lemma_fib_monotonic(a, b - 1);
        lemma_fib_nonneg(b - 2);
    }
}

/// The concrete value at the largest index that still fits in an `i32`.
proof fn lemma_fib_value_at_max()
    ensures
        spec_fib(MAX_FIB_INPUT as int) == 1836311903,
{
    assert(spec_fib(46) == 1836311903) by {
        reveal_with_fuel(spec_fib, 47);
    }
}

/// Every Fibonacci number up to index `MAX_FIB_INPUT` fits in an `i32`.
proof fn lemma_fib_fits_i32(n: int)
    requires
        0 <= n <= MAX_FIB_INPUT as int,
    ensures
        0 <= spec_fib(n) <= 1836311903,
{
    lemma_fib_nonneg(n);
    lemma_fib_monotonic(n, MAX_FIB_INPUT as int);
    lemma_fib_value_at_max();
}

/// The n-th Fibonacci number, computed by naive double recursion
/// (exponential time, deliberately unmemoized). Inputs below 2 are
/// returned unchanged, so negative inputs pass through as-is.
///
/// Native signed 32-bit addition traps on overflow, so the inputs on
/// which the sum would exceed `i32::MAX` (everything above
/// `MAX_FIB_INPUT`) are ruled out by precondition; the function itself
/// never traps.
pub fn fib(n: i32) -> (r: i32)
    requires
        n <= MAX_FIB_INPUT,
    ensures
        r == spec_fib(n as int),
    decreases n,
{
    if n < 2 {
        n
    } else {
        let a = fib(n - 1);
        let b = fib(n - 2);
        proof {
            lemma_fib_nonneg(n as int - 1);
            lemma_fib_nonneg(n as int - 2);
            lemma_fib_fits_i32(n as int);
        }
        a + b
    }
}

/// The defining recurrence: for every index of at least 2, the Fibonacci
/// number is the sum of its two predecessors.
pub proof fn lemma_fib_recurrence(n: int)
    requires
        2 <= n,
    ensures
        spec_fib(n) == spec_fib(n - 1) + spec_fib(n - 2),
{
}

/// Inputs below 2 pass through unchanged; in particular every negative
/// input is returned as-is, not treated as an error.
pub proof fn lemma_fib_negative_passthrough(n: int)
    requires
        n < 0,
    ensures
        spec_fib(n) == n,
{
}

/// Chooses the input to compute: the parsed command-line value when one
/// was given and parsed, and `DEFAULT_INPUT` when it was absent or
/// unparsable (`None`). The fallback is silent: no error is surfaced.
pub fn input_or_default(parsed: Option<i32>) -> (n: i32)
    ensures
        n == (match parsed {
            Some(v) => v,
            None => DEFAULT_INPUT,
        }),
{
    match parsed {
        Some(v) => v,
        None => DEFAULT_INPUT,
    }
}

} // verus!
