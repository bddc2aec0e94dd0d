//! A three-dimensional transform as an animatable value: three rotations,
//! a translation in the plane and a scale, each animated on its own.

use crate::animatable::Animatable;
use crate::fixed::{
    add_raw, fixed, lemma_lerp_endpoints, lerp_raw, mul_raw, sub_raw, Fixed, SCALE,
};
use crate::norm::{
    add_square, lemma_length_range, lemma_square_nonnegative, length_of, length_raw,
};
use vstd::prelude::*;

verus! {

/// Rotation about three axes, translation along two, and a scale.
#[derive(Clone, Copy, Debug, PartialEq, Eq, Structural)]
pub struct Transform3D {
    pub rotate_x: Fixed,
    pub rotate_y: Fixed,
    pub rotate_z: Fixed,
    pub translate_x: Fixed,
    pub translate_y: Fixed,
    pub scale: Fixed,
}

impl Transform3D {
    /// The sum of the squares of the six raw components.
    pub open spec fn square_sum(self) -> int {
        self.rotate_x@ * self.rotate_x@ + self.rotate_y@ * self.rotate_y@ + self.rotate_z@
            * self.rotate_z@ + self.translate_x@ * self.translate_x@ + self.translate_y@
            * self.translate_y@ + self.scale@ * self.scale@
    }

    /// The transform with the given components.
    pub fn new(
        rotate_x: Fixed,
        rotate_y: Fixed,
        rotate_z: Fixed,
        translate_x: Fixed,
        translate_y: Fixed,
        scale: Fixed,
    ) -> (r: Transform3D)
        ensures
            r == (Transform3D { rotate_x, rotate_y, rotate_z, translate_x, translate_y, scale }),
    {
        Transform3D { rotate_x, rotate_y, rotate_z, translate_x, translate_y, scale }
    }

    /// The transform that leaves a shape as it is: no rotation, no
    /// translation, scale one. It is not the zero of the algebra, whose
    /// scale is zero.
    pub fn identity() -> (r: Transform3D)
        ensures
            r == (Transform3D {
                rotate_x: fixed(0),
                rotate_y: fixed(0),
                rotate_z: fixed(0),
                translate_x: fixed(0),
                translate_y: fixed(0),
                scale: fixed(SCALE as int),
            }),
    {
        Transform3D {
            rotate_x: Fixed::zero(),
            rotate_y: Fixed::zero(),
            rotate_z: Fixed::zero(),
            translate_x: Fixed::zero(),
            translate_y: Fixed::zero(),
            scale: Fixed::one(),
        }
    }
}

impl Animatable for Transform3D {
    open spec fn zero_spec() -> Transform3D {
        Transform3D {
            rotate_x: fixed(0),
            rotate_y: fixed(0),
            rotate_z: fixed(0),
            translate_x: fixed(0),
            translate_y: fixed(0),
            scale: fixed(0),
        }
    }

    open spec fn add_spec(self, other: Transform3D) -> Transform3D {
        Transform3D {
            rotate_x: fixed(add_raw(self.rotate_x@, other.rotate_x@)),
            rotate_y: fixed(add_raw(self.rotate_y@, other.rotate_y@)),
            rotate_z: fixed(add_raw(self.rotate_z@, other.rotate_z@)),
            translate_x: fixed(add_raw(self.translate_x@, other.translate_x@)),
            translate_y: fixed(add_raw(self.translate_y@, other.translate_y@)),
            scale: fixed(add_raw(self.scale@, other.scale@)),
        }
    }

    open spec fn sub_spec(self, other: Transform3D) -> Transform3D {
        Transform3D {
            rotate_x: fixed(sub_raw(self.rotate_x@, other.rotate_x@)),
            rotate_y: fixed(sub_raw(self.rotate_y@, other.rotate_y@)),
            rotate_z: fixed(sub_raw(self.rotate_z@, other.rotate_z@)),
            translate_x: fixed(sub_raw(self.translate_x@, other.translate_x@)),
            translate_y: fixed(sub_raw(self.translate_y@, other.translate_y@)),
            scale: fixed(sub_raw(self.scale@, other.scale@)),
        }
    }

    open spec fn scale_spec(self, factor: Fixed) -> Transform3D {
        Transform3D {
            rotate_x: fixed(mul_raw(self.rotate_x@, factor@)),
            rotate_y: fixed(mul_raw(self.rotate_y@, factor@)),
            rotate_z: fixed(mul_raw(self.rotate_z@, factor@)),
            translate_x: fixed(mul_raw(self.translate_x@, factor@)),
            translate_y: fixed(mul_raw(self.translate_y@, factor@)),
            scale: fixed(mul_raw(self.scale@, factor@)),
        }
    }

    open spec fn magnitude_spec(self) -> Fixed {
        fixed(length_raw(self.square_sum()))
    }

    open spec fn interpolate_spec(self, target: Transform3D, t: Fixed) -> Transform3D {
        Transform3D {
            rotate_x: fixed(lerp_raw(self.rotate_x@, target.rotate_x@, t@)),
            rotate_y: fixed(lerp_raw(self.rotate_y@, target.rotate_y@, t@)),
            rotate_z: fixed(lerp_raw(self.rotate_z@, target.rotate_z@, t@)),
            translate_x: fixed(lerp_raw(self.translate_x@, target.translate_x@, t@)),
            translate_y: fixed(lerp_raw(self.translate_y@, target.translate_y@, t@)),
            scale: fixed(lerp_raw(self.scale@, target.scale@, t@)),
        }
    }

    fn zero() -> (r: Transform3D) {
        Transform3D {
            rotate_x: Fixed::zero(),
            rotate_y: Fixed::zero(),
            rotate_z: Fixed::zero(),
            translate_x: Fixed::zero(),
            translate_y: Fixed::zero(),
            scale: Fixed::zero(),
        }
    }

    fn add(&self, other: &Transform3D) -> (r: Transform3D) {
        Transform3D {
            rotate_x: self.rotate_x.plus(other.rotate_x),
            rotate_y: self.rotate_y.plus(other.rotate_y),
            rotate_z: self.rotate_z.plus(other.rotate_z),
            translate_x: self.translate_x.plus(other.translate_x),
            translate_y: self.translate_y.plus(other.translate_y),
            scale: self.scale.plus(other.scale),
        }
    }

    fn sub(&self, other: &Transform3D) -> (r: Transform3D) {
        Transform3D {
            rotate_x: self.rotate_x.minus(other.rotate_x),
            rotate_y: self.rotate_y.minus(other.rotate_y),
            rotate_z: self.rotate_z.minus(other.rotate_z),
            translate_x: self.translate_x.minus(other.translate_x),
            translate_y: self.translate_y.minus(other.translate_y),
            scale: self.scale.minus(other.scale),
        }
    }

    fn scale(&self, factor: Fixed) -> (r: Transform3D) {
        Transform3D {
            rotate_x: self.rotate_x.times(factor),
            rotate_y: self.rotate_y.times(factor),
            rotate_z: self.rotate_z.times(factor),
            translate_x: self.translate_x.times(factor),
            translate_y: self.translate_y.times(factor),
            scale: self.scale.times(factor),
        }
    }

    fn magnitude(&self) -> (r: Fixed) {
        proof {
            lemma_square_nonnegative(self.rotate_x@);
            lemma_square_nonnegative(self.rotate_y@);
            lemma_square_nonnegative(self.rotate_z@);
            lemma_square_nonnegative(self.translate_x@);
            lemma_square_nonnegative(self.translate_y@);
            lemma_square_nonnegative(self.scale@);
            lemma_length_range(self.square_sum());
        }
        let mut sum: u128 = add_square(0, self.rotate_x);
        sum = add_square(sum, self.rotate_y);
        sum = add_square(sum, self.rotate_z);
        sum = add_square(sum, self.translate_x);
        sum = add_square(sum, self.translate_y);
        sum = add_square(sum, self.scale);
        length_of(sum)
    }

    fn interpolate(&self, target: &Transform3D, t: Fixed) -> (r: Transform3D) {
        Transform3D {
            rotate_x: self.rotate_x.lerp(target.rotate_x, t),
            rotate_y: self.rotate_y.lerp(target.rotate_y, t),
            rotate_z: self.rotate_z.lerp(target.rotate_z, t),
            translate_x: self.translate_x.lerp(target.translate_x, t),
            translate_y: self.translate_y.lerp(target.translate_y, t),
            scale: self.scale.lerp(target.scale, t),
        }
    }

    proof fn lemma_interpolate_endpoints(a: Transform3D, b: Transform3D) {
        lemma_lerp_endpoints(a.rotate_x@, b.rotate_x@);
        lemma_lerp_endpoints(a.rotate_y@, b.rotate_y@);
        lemma_lerp_endpoints(a.rotate_z@, b.rotate_z@);
        lemma_lerp_endpoints(a.translate_x@, b.translate_x@);
        lemma_lerp_endpoints(a.translate_y@, b.translate_y@);
        lemma_lerp_endpoints(a.scale@, b.scale@);
    }

    proof fn lemma_magnitude_definite(a: Transform3D) {
        lemma_square_nonnegative(a.rotate_x@);
        lemma_square_nonnegative(a.rotate_y@);
        lemma_square_nonnegative(a.rotate_z@);
        lemma_square_nonnegative(a.translate_x@);
        lemma_square_nonnegative(a.translate_y@);
        lemma_square_nonnegative(a.scale@);
        lemma_length_range(a.square_sum());
    }

    proof fn lemma_add_commutative(a: Transform3D, b: Transform3D) {
    }
}

} // verus!
