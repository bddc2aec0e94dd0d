//! Easing curves: maps of the unit interval onto itself that shape how
//! progress through a tween is perceived.
//!
//! A curve is a power of the progress, taken from the start (`In`), mirrored
//! to the end (`Out`), or split between both halves (`InOut`). Progress and
//! result are raw `Fixed` values between zero and `SCALE`; each curve is
//! rounded down once, after the power has been taken exactly.

use crate::fixed::{clamp_between, Fixed, SCALE};
use vstd::prelude::*;

verus! {

/// The power that a curve raises progress to.
#[derive(Clone, Copy, Debug, PartialEq, Eq, Structural)]
pub enum Curve {
    Linear,
    Quad,
    Cubic,
    Quart,
    Quint,
}

/// Which end of the motion a curve bends.
#[derive(Clone, Copy, Debug, PartialEq, Eq, Structural)]
pub enum EaseMode {
    In,
    Out,
    InOut,
}

/// An easing function.
#[derive(Clone, Copy, Debug, PartialEq, Eq, Structural)]
pub struct Easing {
    pub curve: Curve,
    pub mode: EaseMode,
}

/// The power of `u`, scaled back to the unit interval: `u` to the degree of
/// the curve over `SCALE` to one less.
pub open spec fn power_in(curve: Curve, u: int) -> int {
    match curve {
        Curve::Linear => u,
        Curve::Quad => (u * u) / (SCALE as int),
        Curve::Cubic => (u * u * u) / (SCALE * SCALE),
        Curve::Quart => (u * u * u * u) / (SCALE * SCALE * SCALE),
        Curve::Quint => (u * u * u * u * u) / (SCALE * SCALE * SCALE * SCALE),
    }
}

/// Eased progress for raw progress `t`, which is first limited to the unit
/// interval.
pub open spec fn ease_raw(easing: Easing, t: int) -> int {
    let u = clamp_between(t, 0, SCALE as int);
    match easing.mode {
        EaseMode::In => power_in(easing.curve, u),
        EaseMode::Out => SCALE - power_in(easing.curve, SCALE - u),
        EaseMode::InOut => if 2 * u < SCALE {
            power_in(easing.curve, 2 * u) / 2
        } else {
            SCALE - power_in(easing.curve, 2 * SCALE - 2 * u) / 2
        },
    }
}

proof fn lemma_power_step(p: int, u: int, bound: int)
    by (nonlinear_arith)
    requires
        0 <= p <= bound,
        0 <= u <= SCALE,
    ensures
        0 <= p * u <= bound * SCALE,
{
}

proof fn lemma_quotient_range(n: int, d: int, top: int)
    by (nonlinear_arith)
    requires
        d >= 1,
        0 <= n <= top * d,
    ensures
        0 <= n / d <= top,
{
}

/// A power curve maps the unit interval into itself and fixes both ends.
pub proof fn lemma_power_in_range(curve: Curve, u: int)
    requires
        0 <= u <= SCALE,
    ensures
        0 <= power_in(curve, u) <= SCALE,
        power_in(curve, 0) == 0,
        power_in(curve, SCALE as int) == SCALE,
{
    let s = SCALE as int;
    lemma_power_step(u, u, s);
    lemma_power_step(u * u, u, s * s);
    lemma_power_step(u * u * u, u, s * s * s);
    lemma_power_step(u * u * u * u, u, s * s * s * s);
    lemma_quotient_range(u * u, s, s);
    lemma_quotient_range(u * u * u, s * s, s);
    lemma_quotient_range(u * u * u * u, s * s * s, s);
    lemma_quotient_range(u * u * u * u * u, s * s * s * s, s);
    assert(power_in(curve, 0) == 0);
    assert(power_in(curve, s) == s);
}

/// Every easing starts at zero, ends at one and stays within the unit
/// interval.
pub proof fn lemma_ease_range(easing: Easing, t: int)
    ensures
        0 <= ease_raw(easing, t) <= SCALE,
        t <= 0 ==> ease_raw(easing, t) == 0,
        t >= SCALE ==> ease_raw(easing, t) == SCALE,
{
    let s = SCALE as int;
    let u = clamp_between(t, 0, s);
    lemma_power_in_range(easing.curve, u);
    lemma_power_in_range(easing.curve, s - u);
    if 2 * u < s {
        lemma_power_in_range(easing.curve, 2 * u);
    } else {
        lemma_power_in_range(easing.curve, 2 * s - 2 * u);
    }
}

/// Linear easing leaves progress as it is, whatever the mode.
pub proof fn lemma_linear_is_identity(mode: EaseMode, t: int)
    requires
        0 <= t <= SCALE,
    ensures
        ease_raw(Easing { curve: Curve::Linear, mode }, t) == t,
{
}

fn power(curve: Curve, u: u128) -> (r: u128)
    requires
        u <= SCALE,
    ensures
        r == power_in(curve, u as int),
        r <= SCALE,
{
    proof {
        let s = SCALE as int;
        let x = u as int;
        lemma_power_step(x, x, s);
        lemma_power_step(x * x, x, s * s);
        lemma_power_step(x * x * x, x, s * s * s);
        lemma_power_step(x * x * x * x, x, s * s * s * s);
        lemma_power_in_range(curve, x);
    }
    match curve {
        Curve::Linear => u,
        Curve::Quad => (u * u) / 1_000_000,
        Curve::Cubic => (u * u * u) / 1_000_000_000_000,
        Curve::Quart => (u * u * u * u) / 1_000_000_000_000_000_000,
        Curve::Quint => (u * u * u * u * u) / 1_000_000_000_000_000_000_000_000,
    }
}

impl Easing {
    /// The easing with the given curve and mode.
    pub fn new(curve: Curve, mode: EaseMode) -> (r: Easing)
        ensures
            r == (Easing { curve, mode }),
    {
        Easing { curve, mode }
    }

    /// The easing that leaves progress unchanged.
    pub fn linear() -> (r: Easing)
        ensures
            r == (Easing { curve: Curve::Linear, mode: EaseMode::InOut }),
    {
        Easing { curve: Curve::Linear, mode: EaseMode::InOut }
    }

    /// Eased progress for progress `t`. Progress outside the unit interval
    /// counts as the nearer end.
    pub fn apply(&self, t: Fixed) -> (r: Fixed)
        ensures
            r@ == ease_raw(*self, t@),
            0 <= r@ <= SCALE,
    {
        proof {
            lemma_ease_range(*self, t@);
        }
        let u: u128 = if t.raw < 0 {
            0
        } else if t.raw > SCALE {
            1_000_000
        } else {
            t.raw as u128
        };
        let eased: u128 = match self.mode {
            EaseMode::In => power(self.curve, u),
            EaseMode::Out => 1_000_000 - power(self.curve, 1_000_000 - u),
            EaseMode::InOut => if 2 * u < 1_000_000 {
                power(self.curve, 2 * u) / 2
            } else {
                1_000_000 - power(self.curve, 2_000_000 - 2 * u) / 2
            },
        };
        Fixed::from_raw(eased as i64)
    }
}

} // verus!
