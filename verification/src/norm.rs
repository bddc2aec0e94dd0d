//! Euclidean length of a vector of fixed-point components.
//!
//! The squares of raw components are summed exactly and the integer square
//! root of the sum is the raw length. A sum too large to have a representable
//! root is capped first, so the length of such a vector is the largest `Fixed`.

use crate::fixed::{Fixed, RAW_MAX};
use vstd::prelude::*;

verus! {

/// Largest sum of squares whose root is still representable.
pub const SQUARE_CAP: u128 = 0x3fff_ffff_ffff_ffff_0000_0000_0000_0001;

/// `r` is the integer square root of `n`.
pub open spec fn is_root(r: int, n: int) -> bool {
    &&& 0 <= r
    &&& r * r <= n
    &&& n < (r + 1) * (r + 1)
}

/// The integer square root of a non-negative `n`: the largest `r` with
/// `r * r <= n`.
pub open spec fn isqrt(n: int) -> int {
    choose|r: int| is_root(r, n)
}

/// `n` capped at `SQUARE_CAP`.
pub open spec fn cap_square(n: int) -> int {
    if n > SQUARE_CAP {
        SQUARE_CAP as int
    } else {
        n
    }
}

/// Raw Euclidean length of a vector whose raw components have squares
/// summing to `sum`.
pub open spec fn length_raw(sum: int) -> int {
    isqrt(cap_square(sum))
}

pub proof fn lemma_square_monotone(a: int, b: int)
    by (nonlinear_arith)
    requires
        0 <= a <= b,
    ensures
        a * a <= b * b,
{
}

pub proof fn lemma_square_nonnegative(x: int)
    by (nonlinear_arith)
    ensures
        x * x >= 0,
        x * x == 0 <==> x == 0,
{
}

/// At most one number is the integer square root of `n`.
pub proof fn lemma_root_unique(r1: int, r2: int, n: int)
    requires
        is_root(r1, n),
        is_root(r2, n),
    ensures
        r1 == r2,
{
    if r1 < r2 {
        lemma_square_monotone(r1 + 1, r2);
    } else if r2 < r1 {
        lemma_square_monotone(r2 + 1, r1);
    }
}

/// Every non-negative number has an integer square root.
pub proof fn lemma_root_exists(n: int)
    requires
        n >= 0,
    ensures
        is_root(isqrt(n), n),
    decreases n,
{
    if n == 0 {
        assert(is_root(0, 0));
    } else {
        lemma_root_exists(n - 1);
        let r = isqrt(n - 1);
        if (r + 1) * (r + 1) <= n {
            assert((r + 2) * (r + 2) == (r + 1) * (r + 1) + 2 * r + 3) by (nonlinear_arith);
            assert(is_root(r + 1, n));
        } else {
            assert(is_root(r, n));
        }
    }
}

/// A number identified as the root is the value of `isqrt`.
pub proof fn lemma_root_is_isqrt(r: int, n: int)
    requires
        is_root(r, n),
    ensures
        isqrt(n) == r,
{
    lemma_root_unique(r, isqrt(n), n);
}

/// The root is zero exactly for zero.
pub proof fn lemma_isqrt_zero(n: int)
    requires
        n >= 0,
    ensures
        isqrt(n) >= 0,
        isqrt(n) == 0 <==> n == 0,
{
    lemma_root_exists(n);
    lemma_square_nonnegative(isqrt(n));
    if n > 0 && isqrt(n) == 0 {
        assert((0 + 1) * (0 + 1) == 1) by (nonlinear_arith);
    }
}

/// The length of any vector is representable and not negative, and it is
/// zero exactly when the squares sum to zero.
pub proof fn lemma_length_range(sum: int)
    requires
        sum >= 0,
    ensures
        0 <= length_raw(sum) <= RAW_MAX,
        length_raw(sum) == 0 <==> sum == 0,
{
    let c = cap_square(sum);
    lemma_root_exists(c);
    lemma_isqrt_zero(c);
    let r = isqrt(c);
    if r > RAW_MAX {
        lemma_square_monotone(RAW_MAX as int + 1, r);
    }
}

/// The integer square root of `n`.
pub fn integer_root(n: u128) -> (r: u64)
    ensures
        r == isqrt(n as int),
{
    let mut lo: u128 = 0;
    let mut hi: u128 = 0x1_0000_0000_0000_0000;
    proof {
        assert(0x1_0000_0000_0000_0000int * 0x1_0000_0000_0000_0000int > u128::MAX)
            by (nonlinear_arith);
    }
    while hi - lo > 1
        invariant
            lo < hi <= 0x1_0000_0000_0000_0000,
            lo * lo <= n,
            n < hi * hi,
        decreases hi - lo,
    {
        let mid: u128 = lo + (hi - lo) / 2;
        proof {
            lemma_square_monotone(mid as int, 0xffff_ffff_ffff_ffff);
        }
        if mid * mid <= n {
            lo = mid;
        } else {
            hi = mid;
        }
    }
    proof {
        assert(hi == lo + 1);
        assert(is_root(lo as int, n as int));
        lemma_root_is_isqrt(lo as int, n as int);
    }
    lo as u64
}

/// Adds the square of one component to a running sum of squares, capping
/// the sum before and after.
pub fn add_square(sum: u128, x: Fixed) -> (r: u128)
    ensures
        r == cap_square(cap_square(sum as int) + x@ * x@),
        r <= SQUARE_CAP,
{
    let base: u128 = if sum > SQUARE_CAP {
        SQUARE_CAP
    } else {
        sum
    };
    let m: u128 = if x.raw < 0 {
        (-(x.raw as i128)) as u128
    } else {
        x.raw as u128
    };
    proof {
        lemma_square_monotone(m as int, 0x8000_0000_0000_0000);
        assert(m * m == x@ * x@) by (nonlinear_arith)
            requires
                m == x@ || m == -x@,
        ;
    }
    let total: u128 = base + m * m;
    if total > SQUARE_CAP {
        SQUARE_CAP
    } else {
        total
    }
}

/// The length that belongs to a sum of squares.
pub fn length_of(sum: u128) -> (r: Fixed)
    ensures
        r@ == length_raw(sum as int),
{
    let capped: u128 = if sum > SQUARE_CAP {
        SQUARE_CAP
    } else {
        sum
    };
    let root: u64 = integer_root(capped);
    proof {
        lemma_length_range(sum as int);
    }
    Fixed::from_raw(root as i64)
}

} // verus!
