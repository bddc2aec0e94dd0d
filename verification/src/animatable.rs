//! The algebra a value type must offer to be animated.

use crate::fixed::{
    abs_raw, add_raw, fixed, lemma_lerp_endpoints, lerp_raw, mul_raw, sub_raw, Fixed, SCALE,
};
use vstd::prelude::*;

verus! {

/// A value that can be animated: a vector with a zero, sum, difference,
/// scaling by a `Fixed` factor, a length and an interpolation.
///
/// Each operation is a pure function, named in contracts by its `_spec`
/// twin. Interpolation has no default: the textbook formula
/// `add(a, scale(sub(b, a), t))` misses the target when the difference of
/// the two ends saturates, so every implementor states its own and proves
/// that it meets both ends.
pub trait Animatable: Copy + Sized {
    spec fn zero_spec() -> Self;

    spec fn add_spec(self, other: Self) -> Self;

    spec fn sub_spec(self, other: Self) -> Self;

    spec fn scale_spec(self, factor: Fixed) -> Self;

    spec fn magnitude_spec(self) -> Fixed;

    spec fn interpolate_spec(self, target: Self, t: Fixed) -> Self;

    /// The zero element.
    fn zero() -> (r: Self)
        ensures
            r == Self::zero_spec(),
    ;

    /// Vector sum.
    fn add(&self, other: &Self) -> (r: Self)
        ensures
            r == self.add_spec(*other),
    ;

    /// Vector difference.
    fn sub(&self, other: &Self) -> (r: Self)
        ensures
            r == self.sub_spec(*other),
    ;

    /// The vector scaled by `factor`.
    fn scale(&self, factor: Fixed) -> (r: Self)
        ensures
            r == self.scale_spec(factor),
    ;

    /// Euclidean length over the components.
    fn magnitude(&self) -> (r: Fixed)
        ensures
            r == self.magnitude_spec(),
    ;

    /// The value at fraction `t` of the way from `self` to `target`.
    fn interpolate(&self, target: &Self, t: Fixed) -> (r: Self)
        ensures
            r == self.interpolate_spec(*target, t),
    ;

    /// Interpolation at fraction zero is the start, at fraction one the
    /// target, exactly.
    proof fn lemma_interpolate_endpoints(a: Self, b: Self)
        ensures
            a.interpolate_spec(b, fixed(0)) == a,
            a.interpolate_spec(b, fixed(SCALE as int)) == b,
    ;

    /// The length is never negative, and only the zero element has length
    /// zero.
    proof fn lemma_magnitude_definite(a: Self)
        ensures
            a.magnitude_spec()@ >= 0,
            a.magnitude_spec()@ == 0 <==> a == Self::zero_spec(),
    ;

    /// The sum does not depend on the order of its operands.
    proof fn lemma_add_commutative(a: Self, b: Self)
        ensures
            a.add_spec(b) == b.add_spec(a),
    ;
}

impl Animatable for Fixed {
    open spec fn zero_spec() -> Fixed {
        fixed(0)
    }

    open spec fn add_spec(self, other: Fixed) -> Fixed {
        fixed(add_raw(self@, other@))
    }

    open spec fn sub_spec(self, other: Fixed) -> Fixed {
        fixed(sub_raw(self@, other@))
    }

    open spec fn scale_spec(self, factor: Fixed) -> Fixed {
        fixed(mul_raw(self@, factor@))
    }

    open spec fn magnitude_spec(self) -> Fixed {
        fixed(abs_raw(self@))
    }

    open spec fn interpolate_spec(self, target: Fixed, t: Fixed) -> Fixed {
        fixed(lerp_raw(self@, target@, t@))
    }

    fn zero() -> (r: Fixed) {
        Fixed::zero()
    }

    fn add(&self, other: &Fixed) -> (r: Fixed) {
        self.plus(*other)
    }

    fn sub(&self, other: &Fixed) -> (r: Fixed) {
        self.minus(*other)
    }

    fn scale(&self, factor: Fixed) -> (r: Fixed) {
        self.times(factor)
    }

    fn magnitude(&self) -> (r: Fixed) {
        self.abs()
    }

    fn interpolate(&self, target: &Fixed, t: Fixed) -> (r: Fixed) {
        self.lerp(*target, t)
    }

    proof fn lemma_interpolate_endpoints(a: Fixed, b: Fixed) {
        lemma_lerp_endpoints(a@, b@);
    }

    proof fn lemma_magnitude_definite(a: Fixed) {
    }

    proof fn lemma_add_commutative(a: Fixed, b: Fixed) {
    }
}

} // verus!
