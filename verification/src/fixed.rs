//! Signed decimal fixed-point numbers.
//!
//! Every quantity the engine animates is a `Fixed`: a 64-bit integer counting
//! millionths. Arithmetic never wraps and never panics; results that leave the
//! representable range stick at the nearest bound, and quotients are rounded
//! toward zero so that negating the operands negates the result.

use vstd::prelude::*;

verus! {

/// Raw units per whole unit: `1.0` is stored as `SCALE`.
pub const SCALE: i64 = 1_000_000;

/// Largest raw value of a `Fixed`.
pub const RAW_MAX: i64 = 0x7fff_ffff_ffff_ffff;

/// Smallest raw value of a `Fixed`.
pub const RAW_MIN: i64 = -0x8000_0000_0000_0000;

/// The nearest raw value to `x` that a `Fixed` can hold.
pub open spec fn clamp_raw(x: int) -> int {
    if x < RAW_MIN {
        RAW_MIN as int
    } else if x > RAW_MAX {
        RAW_MAX as int
    } else {
        x
    }
}

/// Quotient of `n` by a positive `d`, rounded toward zero.
pub open spec fn trunc_div(n: int, d: int) -> int {
    if n >= 0 {
        n / d
    } else {
        -((-n) / d)
    }
}

/// Raw sum of two raw values.
pub open spec fn add_raw(a: int, b: int) -> int {
    clamp_raw(a + b)
}

/// Raw difference of two raw values.
pub open spec fn sub_raw(a: int, b: int) -> int {
    clamp_raw(a - b)
}

/// Raw product of two raw values: the mathematical product is scaled back
/// by `SCALE`, rounded toward zero.
pub open spec fn mul_raw(a: int, b: int) -> int {
    clamp_raw(trunc_div(a * b, SCALE as int))
}

/// Raw absolute value.
pub open spec fn abs_raw(a: int) -> int {
    clamp_raw(if a < 0 { -a } else { a })
}

/// Raw point at fraction `t` (itself raw) of the way from `a` to `b`.
/// The difference is taken exactly, so the only rounding is the final
/// division by `SCALE`.
pub open spec fn lerp_raw(a: int, b: int, t: int) -> int {
    clamp_raw(a + trunc_div((b - a) * t, SCALE as int))
}

/// `n` limited to the closed interval from `lo` to `hi`.
pub open spec fn clamp_between(n: int, lo: int, hi: int) -> int {
    if n < lo {
        lo
    } else if n > hi {
        hi
    } else {
        n
    }
}

/// A fixed-point number with six decimal places.
#[derive(Clone, Copy, Debug, PartialEq, Eq, Structural)]
pub struct Fixed {
    pub raw: i64,
}

impl View for Fixed {
    type V = int;

    open spec fn view(&self) -> int {
        self.raw as int
    }
}

/// The `Fixed` with the given raw value, which must be representable.
pub open spec fn fixed(raw: int) -> Fixed {
    Fixed { raw: raw as i64 }
}

pub proof fn lemma_product_bound(x: int, y: int, bx: int, by: int)
    by (nonlinear_arith)
    requires
        -bx <= x <= bx,
        -by <= y <= by,
    ensures
        -(bx * by) <= x * y <= bx * by,
{
}

/// Rounding toward zero keeps a quotient between zero and the dividend.
pub proof fn lemma_trunc_div_bounds(n: int, d: int)
    by (nonlinear_arith)
    requires
        d >= 1,
    ensures
        n >= 0 ==> 0 <= trunc_div(n, d) <= n,
        n <= 0 ==> n <= trunc_div(n, d) <= 0,
{
}

/// Dividing an exact multiple gives back the other factor.
pub proof fn lemma_trunc_div_multiple(q: int, d: int)
    by (nonlinear_arith)
    requires
        d >= 1,
    ensures
        trunc_div(q * d, d) == q,
{
    if q >= 0 {
        assert((q * d) / d == q);
    } else {
        assert(-(q * d) == (-q) * d);
        assert(((-q) * d) / d == -q);
    }
}

/// Rounding toward zero is monotone in the dividend.
pub proof fn lemma_trunc_div_monotone(a: int, b: int, d: int)
    by (nonlinear_arith)
    requires
        d >= 1,
        a <= b,
    ensures
        trunc_div(a, d) <= trunc_div(b, d),
{
}

fn narrow(wide: i128) -> (r: Fixed)
    ensures
        r@ == clamp_raw(wide as int),
{
    if wide < RAW_MIN as i128 {
        Fixed { raw: RAW_MIN }
    } else if wide > RAW_MAX as i128 {
        Fixed { raw: RAW_MAX }
    } else {
        Fixed { raw: wide as i64 }
    }
}

impl Fixed {
    /// The number whose raw representation is `raw`.
    pub fn from_raw(raw: i64) -> (r: Fixed)
        ensures
            r@ == raw,
    {
        Fixed { raw }
    }

    /// The whole number `n`, or the nearest bound when `n` is too large.
    pub fn from_int(n: i64) -> (r: Fixed)
        ensures
            r@ == clamp_raw(n * SCALE),
    {
        let wide: i128 = (n as i128) * 1_000_000;
        narrow(wide)
    }

    /// Zero.
    pub fn zero() -> (r: Fixed)
        ensures
            r@ == 0,
    {
        Fixed { raw: 0 }
    }

    /// One.
    pub fn one() -> (r: Fixed)
        ensures
            r@ == SCALE,
    {
        Fixed { raw: SCALE }
    }

    /// The raw representation: the value in millionths.
    pub fn raw(&self) -> (r: i64)
        ensures
            r == self@,
    {
        self.raw
    }

    /// Saturating sum.
    pub fn plus(self, other: Fixed) -> (r: Fixed)
        ensures
            r@ == add_raw(self@, other@),
    {
        narrow(self.raw as i128 + other.raw as i128)
    }

    /// Saturating difference.
    pub fn minus(self, other: Fixed) -> (r: Fixed)
        ensures
            r@ == sub_raw(self@, other@),
    {
        narrow(self.raw as i128 - other.raw as i128)
    }

    /// Saturating product, rounded toward zero.
    pub fn times(self, other: Fixed) -> (r: Fixed)
        ensures
            r@ == mul_raw(self@, other@),
    {
        let x: i128 = self.raw as i128;
        let y: i128 = other.raw as i128;
        proof {
            lemma_product_bound(
                x as int,
                y as int,
                0x8000_0000_0000_0000,
                0x8000_0000_0000_0000,
            );
        }
        let wide: i128 = x * y;
        narrow(wide / (SCALE as i128))
    }

    /// Saturating absolute value.
    pub fn abs(self) -> (r: Fixed)
        ensures
            r@ == abs_raw(self@),
    {
        if self.raw < 0 {
            narrow(-(self.raw as i128))
        } else {
            self
        }
    }

    /// The point at fraction `t` of the way from `self` to `target`.
    /// `t` may lie outside the unit interval; the result then overshoots.
    pub fn lerp(self, target: Fixed, t: Fixed) -> (r: Fixed)
        ensures
            r@ == lerp_raw(self@, target@, t@),
    {
        let span: i128 = target.raw as i128 - self.raw as i128;
        let frac: i128 = t.raw as i128;
        proof {
            lemma_product_bound(
                span as int,
                frac as int,
                0xffff_ffff_ffff_ffff,
                0x8000_0000_0000_0000,
            );
        }
        let wide: i128 = span * frac;
        let step: i128 = wide / (SCALE as i128);
        proof {
            lemma_trunc_div_bounds(wide as int, SCALE as int);
        }
        narrow(self.raw as i128 + step)
    }
}

/// Interpolating with fraction zero stays at the start; with fraction one it
/// lands exactly on the target.
pub proof fn lemma_lerp_endpoints(a: int, b: int)
    requires
        RAW_MIN <= a <= RAW_MAX,
        RAW_MIN <= b <= RAW_MAX,
    ensures
        lerp_raw(a, b, 0) == a,
        lerp_raw(a, b, SCALE as int) == b,
{
    lemma_trunc_div_multiple(b - a, SCALE as int);
}

/// For a fraction in the unit interval the interpolated point lies between
/// the two ends.
pub proof fn lemma_lerp_between(a: int, b: int, t: int)
    requires
        RAW_MIN <= a <= RAW_MAX,
        RAW_MIN <= b <= RAW_MAX,
        0 <= t <= SCALE,
    ensures
        a <= b ==> a <= lerp_raw(a, b, t) <= b,
        b <= a ==> b <= lerp_raw(a, b, t) <= a,
{
    let d = b - a;
    lemma_trunc_div_multiple(d, SCALE as int);
    if d >= 0 {
        assert(0 <= d * t <= d * SCALE) by (nonlinear_arith)
            requires
                d >= 0,
                0 <= t <= SCALE,
        ;
        lemma_trunc_div_monotone(0, d * t, SCALE as int);
        lemma_trunc_div_monotone(d * t, d * SCALE, SCALE as int);
    } else {
        assert(d * SCALE <= d * t <= 0) by (nonlinear_arith)
            requires
                d < 0,
                0 <= t <= SCALE,
        ;
        lemma_trunc_div_monotone(d * t, 0, SCALE as int);
        lemma_trunc_div_monotone(d * SCALE, d * t, SCALE as int);
    }
}

/// Where the difference of two numbers is representable, adding it to the
/// number taken away gives back the other.
pub proof fn lemma_difference_adds_back(a: int, b: int)
    requires
        RAW_MIN <= a <= RAW_MAX,
        RAW_MIN <= b <= RAW_MAX,
        RAW_MIN <= b - a <= RAW_MAX,
    ensures
        add_raw(sub_raw(b, a), a) == b,
{
}

/// Where the difference of the two ends is representable, interpolation is
/// the start plus the scaled difference.
pub proof fn lemma_lerp_is_add_scaled_difference(a: int, b: int, t: int)
    requires
        RAW_MIN <= a <= RAW_MAX,
        RAW_MIN <= b <= RAW_MAX,
        RAW_MIN <= b - a <= RAW_MAX,
        RAW_MIN <= trunc_div((b - a) * t, SCALE as int) <= RAW_MAX,
    ensures
        lerp_raw(a, b, t) == add_raw(a, mul_raw(sub_raw(b, a), t)),
{
}

} // verus!
