//! A colour as an animatable value: red, green and blue.
//!
//! A colour to be shown has every channel between zero and one: it lies in
//! the gamut, and `new` limits its channels to it. The algebra does not
//! limit anything but the size of the numbers: a difference of two colours
//! has negative channels where the first is the darker, and the velocity
//! and the force of a spring are sums and scalings of such differences. So
//! the difference of two colours, added to the one taken away, gives back
//! the other, and a spring lowers a channel as readily as it raises one. A
//! blend of two colours in the gamut lies in the gamut; a spring that
//! overshoots may carry a channel beyond it for a while, and a host that
//! shows such a value passes it through `new` first.

use crate::animatable::Animatable;
use crate::fixed::{
    add_raw, clamp_between, fixed, lemma_difference_adds_back, lemma_lerp_between,
    lemma_lerp_endpoints, lemma_lerp_is_add_scaled_difference, lemma_trunc_div_bounds, lerp_raw,
    mul_raw, sub_raw, Fixed, SCALE,
};
use crate::norm::{
    add_square, lemma_length_range, lemma_square_nonnegative, length_of, length_raw,
};
use vstd::prelude::*;

verus! {

/// Red, green and blue.
#[derive(Clone, Copy, Debug, PartialEq, Eq, Structural)]
pub struct ColorValue {
    pub r: Fixed,
    pub g: Fixed,
    pub b: Fixed,
}

/// A raw channel value limited to the range from zero to one.
pub open spec fn channel(raw: int) -> Fixed {
    fixed(clamp_between(raw, 0, SCALE as int))
}

fn limit(value: Fixed) -> (r: Fixed)
    ensures
        r == channel(value@),
{
    if value.raw < 0 {
        Fixed::zero()
    } else if value.raw > SCALE {
        Fixed::one()
    } else {
        value
    }
}

impl ColorValue {
    /// Every channel lies between zero and one.
    pub open spec fn in_gamut(self) -> bool {
        &&& 0 <= self.r@ <= SCALE
        &&& 0 <= self.g@ <= SCALE
        &&& 0 <= self.b@ <= SCALE
    }

    /// The sum of the squares of the three raw channels.
    pub open spec fn square_sum(self) -> int {
        self.r@ * self.r@ + self.g@ * self.g@ + self.b@ * self.b@
    }

    /// The colour with the given channels, each limited to the range from
    /// zero to one.
    pub fn new(r: Fixed, g: Fixed, b: Fixed) -> (c: ColorValue)
        ensures
            c == (ColorValue { r: channel(r@), g: channel(g@), b: channel(b@) }),
            c.in_gamut(),
    {
        ColorValue { r: limit(r), g: limit(g), b: limit(b) }
    }
}

impl Default for ColorValue {
    /// Black.
    fn default() -> (c: ColorValue)
        ensures
            c == (ColorValue { r: fixed(0), g: fixed(0), b: fixed(0) }),
    {
        ColorValue { r: Fixed::zero(), g: Fixed::zero(), b: Fixed::zero() }
    }
}

impl Animatable for ColorValue {
    open spec fn zero_spec() -> ColorValue {
        ColorValue { r: fixed(0), g: fixed(0), b: fixed(0) }
    }

    open spec fn add_spec(self, other: ColorValue) -> ColorValue {
        ColorValue {
            r: fixed(add_raw(self.r@, other.r@)),
            g: fixed(add_raw(self.g@, other.g@)),
            b: fixed(add_raw(self.b@, other.b@)),
        }
    }

    open spec fn sub_spec(self, other: ColorValue) -> ColorValue {
        ColorValue {
            r: fixed(sub_raw(self.r@, other.r@)),
            g: fixed(sub_raw(self.g@, other.g@)),
            b: fixed(sub_raw(self.b@, other.b@)),
        }
    }

    open spec fn scale_spec(self, factor: Fixed) -> ColorValue {
        ColorValue {
            r: fixed(mul_raw(self.r@, factor@)),
            g: fixed(mul_raw(self.g@, factor@)),
            b: fixed(mul_raw(self.b@, factor@)),
        }
    }

    open spec fn magnitude_spec(self) -> Fixed {
        fixed(length_raw(self.square_sum()))
    }

    open spec fn interpolate_spec(self, target: ColorValue, t: Fixed) -> ColorValue {
        ColorValue {
            r: fixed(lerp_raw(self.r@, target.r@, t@)),
            g: fixed(lerp_raw(self.g@, target.g@, t@)),
            b: fixed(lerp_raw(self.b@, target.b@, t@)),
        }
    }

    fn zero() -> (c: ColorValue) {
        ColorValue { r: Fixed::zero(), g: Fixed::zero(), b: Fixed::zero() }
    }

    fn add(&self, other: &ColorValue) -> (c: ColorValue) {
        ColorValue {
            r: self.r.plus(other.r),
            g: self.g.plus(other.g),
            b: self.b.plus(other.b),
        }
    }

    fn sub(&self, other: &ColorValue) -> (c: ColorValue) {
        ColorValue {
            r: self.r.minus(other.r),
            g: self.g.minus(other.g),
            b: self.b.minus(other.b),
        }
    }

    fn scale(&self, factor: Fixed) -> (c: ColorValue) {
        ColorValue {
            r: self.r.times(factor),
            g: self.g.times(factor),
            b: self.b.times(factor),
        }
    }

    fn magnitude(&self) -> (m: Fixed) {
        proof {
            lemma_square_nonnegative(self.r@);
            lemma_square_nonnegative(self.g@);
            lemma_square_nonnegative(self.b@);
            lemma_length_range(self.square_sum());
        }
        let mut sum: u128 = add_square(0, self.r);
        sum = add_square(sum, self.g);
        sum = add_square(sum, self.b);
        length_of(sum)
    }

    fn interpolate(&self, target: &ColorValue, t: Fixed) -> (c: ColorValue) {
        ColorValue {
            r: self.r.lerp(target.r, t),
            g: self.g.lerp(target.g, t),
            b: self.b.lerp(target.b, t),
        }
    }

    proof fn lemma_interpolate_endpoints(a: ColorValue, b: ColorValue) {
        lemma_lerp_endpoints(a.r@, b.r@);
        lemma_lerp_endpoints(a.g@, b.g@);
        lemma_lerp_endpoints(a.b@, b.b@);
    }

    proof fn lemma_magnitude_definite(a: ColorValue) {
        lemma_square_nonnegative(a.r@);
        lemma_square_nonnegative(a.g@);
        lemma_square_nonnegative(a.b@);
        lemma_length_range(a.square_sum());
    }

    proof fn lemma_add_commutative(a: ColorValue, b: ColorValue) {
    }
}

/// Subtraction undoes addition: for two colours in the gamut, the
/// difference of the second from the first, added to the first, is the
/// second, whichever of them is the brighter in any channel.
pub proof fn lemma_color_difference_adds_back(a: ColorValue, b: ColorValue)
    requires
        a.in_gamut(),
        b.in_gamut(),
    ensures
        b.sub_spec(a).add_spec(a) == b,
        a.add_spec(b.sub_spec(a)) == b,
{
    lemma_difference_adds_back(a.r@, b.r@);
    lemma_difference_adds_back(a.g@, b.g@);
    lemma_difference_adds_back(a.b@, b.b@);
}

/// A blend of two colours in the gamut, at a fraction between zero and
/// one, lies in the gamut, and it is the first colour plus the scaled
/// difference of the two.
pub proof fn lemma_blend_in_gamut(a: ColorValue, b: ColorValue, t: Fixed)
    requires
        a.in_gamut(),
        b.in_gamut(),
        0 <= t@ <= SCALE,
    ensures
        a.interpolate_spec(b, t).in_gamut(),
        a.interpolate_spec(b, t) == a.add_spec(b.sub_spec(a).scale_spec(t)),
{
    lemma_lerp_between(a.r@, b.r@, t@);
    lemma_lerp_between(a.g@, b.g@, t@);
    lemma_lerp_between(a.b@, b.b@, t@);
    lemma_scaled_difference_fits(a.r@, b.r@, t@);
    lemma_scaled_difference_fits(a.g@, b.g@, t@);
    lemma_scaled_difference_fits(a.b@, b.b@, t@);
    lemma_lerp_is_add_scaled_difference(a.r@, b.r@, t@);
    lemma_lerp_is_add_scaled_difference(a.g@, b.g@, t@);
    lemma_lerp_is_add_scaled_difference(a.b@, b.b@, t@);
}

proof fn lemma_scaled_difference_fits(a: int, b: int, t: int)
    requires
        0 <= a <= SCALE,
        0 <= b <= SCALE,
        0 <= t <= SCALE,
    ensures
        -SCALE * SCALE <= (b - a) * t <= SCALE * SCALE,
        -SCALE * SCALE <= crate::fixed::trunc_div((b - a) * t, SCALE as int) <= SCALE * SCALE,
{
    assert(-SCALE * SCALE <= (b - a) * t <= SCALE * SCALE) by (nonlinear_arith)
        requires
            -SCALE <= b - a <= SCALE,
            0 <= t <= SCALE,
    ;
    lemma_trunc_div_bounds((b - a) * t, SCALE as int);
}

} // verus!
