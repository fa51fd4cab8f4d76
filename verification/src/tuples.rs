//! Homogeneous 4-component tuples: points (`w` = one), vectors (`w` = zero),
//! and colors (`x`,`y`,`z` as red, green, blue).

use crate::scalar::{
    fadd, fdiv, fmul, fsqrt, fsub, in_range, scalar_add, scalar_div, scalar_mul, scalar_neg,
    scalar_sqrt, scalar_sub, Scalar, SCALE,
};
use vstd::prelude::*;

verus! {

/// A point, vector or color, all four components fixed-point scalars.
#[derive(Clone, Copy, PartialEq, Eq, Structural, Debug)]
pub struct Tuple {
    pub x: Scalar,
    pub y: Scalar,
    pub z: Scalar,
    pub w: Scalar,
}

pub type Point = Tuple;

pub type Vector = Tuple;

pub type Color = Tuple;

impl Tuple {
    /// All four components are within the scalar bound.
    pub open spec fn wf(self) -> bool {
        &&& in_range(self.x as int)
        &&& in_range(self.y as int)
        &&& in_range(self.z as int)
        &&& in_range(self.w as int)
    }

    pub open spec fn spec_is_point(self) -> bool {
        self.w == SCALE
    }

    pub open spec fn spec_is_vector(self) -> bool {
        self.w == 0
    }

    pub open spec fn spec_add(self, other: Tuple) -> Tuple {
        Tuple {
            x: fadd(self.x as int, other.x as int) as i128,
            y: fadd(self.y as int, other.y as int) as i128,
            z: fadd(self.z as int, other.z as int) as i128,
            w: fadd(self.w as int, other.w as int) as i128,
        }
    }

    pub open spec fn spec_sub(self, other: Tuple) -> Tuple {
        Tuple {
            x: fsub(self.x as int, other.x as int) as i128,
            y: fsub(self.y as int, other.y as int) as i128,
            z: fsub(self.z as int, other.z as int) as i128,
            w: fsub(self.w as int, other.w as int) as i128,
        }
    }

    pub open spec fn spec_neg(self) -> Tuple {
        Tuple {
            x: (-self.x) as i128,
            y: (-self.y) as i128,
            z: (-self.z) as i128,
            w: (-self.w) as i128,
        }
    }

    pub open spec fn spec_mul_scalar(self, factor: int) -> Tuple {
        Tuple {
            x: fmul(self.x as int, factor) as i128,
            y: fmul(self.y as int, factor) as i128,
            z: fmul(self.z as int, factor) as i128,
            w: fmul(self.w as int, factor) as i128,
        }
    }

    pub open spec fn spec_mul(self, other: Tuple) -> Tuple {
        Tuple {
            x: fmul(self.x as int, other.x as int) as i128,
            y: fmul(self.y as int, other.y as int) as i128,
            z: fmul(self.z as int, other.z as int) as i128,
            w: fmul(self.w as int, other.w as int) as i128,
        }
    }

    pub open spec fn spec_div_scalar(self, factor: int) -> Tuple {
        Tuple {
            x: fdiv(self.x as int, factor) as i128,
            y: fdiv(self.y as int, factor) as i128,
            z: fdiv(self.z as int, factor) as i128,
            w: fdiv(self.w as int, factor) as i128,
        }
    }

    pub open spec fn spec_dot(self, other: Tuple) -> int {
        fadd(
            fadd(
                fadd(fmul(self.x as int, other.x as int), fmul(self.y as int, other.y as int)),
                fmul(self.z as int, other.z as int),
            ),
            fmul(self.w as int, other.w as int),
        )
    }

    pub open spec fn spec_magnitude(self) -> int {
        fsqrt(self.spec_dot(self))
    }

    /// Componentwise quotient by the magnitude.
    pub open spec fn spec_normalize(self) -> Tuple {
        self.spec_div_scalar(self.spec_magnitude())
    }

    pub open spec fn spec_cross(self, other: Tuple) -> Tuple {
        Tuple {
            x: fsub(
                fmul(self.y as int, other.z as int),
                fmul(self.z as int, other.y as int),
            ) as i128,
            y: fsub(
                fmul(self.z as int, other.x as int),
                fmul(self.x as int, other.z as int),
            ) as i128,
            z: fsub(
                fmul(self.x as int, other.y as int),
                fmul(self.y as int, other.x as int),
            ) as i128,
            w: 0,
        }
    }

    /// Reflection of `self` about the normal: `self - normal * 2 * dot`.
    pub open spec fn spec_reflect(self, normal: Tuple) -> Tuple {
        self.spec_sub(normal.spec_mul_scalar(2 * SCALE).spec_mul_scalar(self.spec_dot(normal)))
    }

    pub fn new(x: Scalar, y: Scalar, z: Scalar, w: Scalar) -> (r: Tuple)
        requires
            in_range(x as int),
            in_range(y as int),
            in_range(z as int),
            in_range(w as int),
        ensures
            r == (Tuple { x, y, z, w }),
            r.wf(),
    {
        Tuple { x, y, z, w }
    }

    pub fn point(x: Scalar, y: Scalar, z: Scalar) -> (r: Tuple)
        requires
            in_range(x as int),
            in_range(y as int),
            in_range(z as int),
        ensures
            r == (Tuple { x, y, z, w: SCALE }),
            r.wf(),
            r.spec_is_point(),
    {
        Tuple { x, y, z, w: SCALE }
    }

    pub fn vector(x: Scalar, y: Scalar, z: Scalar) -> (r: Tuple)
        requires
            in_range(x as int),
            in_range(y as int),
            in_range(z as int),
        ensures
            r == (Tuple { x, y, z, w: 0 }),
            r.wf(),
            r.spec_is_vector(),
    {
        Tuple { x, y, z, w: 0 }
    }

    pub fn color(x: Scalar, y: Scalar, z: Scalar) -> (r: Tuple)
        requires
            in_range(x as int),
            in_range(y as int),
            in_range(z as int),
        ensures
            r == (Tuple { x, y, z, w: 0 }),
            r.wf(),
    {
        Tuple { x, y, z, w: 0 }
    }

    /// The all-zero color.
    pub fn black() -> (r: Tuple)
        ensures
            r == (Tuple { x: 0, y: 0, z: 0, w: 0 }),
            r.wf(),
    {
        Tuple { x: 0, y: 0, z: 0, w: 0 }
    }

    pub fn is_point(&self) -> (r: bool)
        ensures
            r == self.spec_is_point(),
    {
        self.w == SCALE
    }

    pub fn is_vector(&self) -> (r: bool)
        ensures
            r == self.spec_is_vector(),
    {
        self.w == 0
    }

    pub fn add(&self, other: &Tuple) -> (r: Tuple)
        requires
            self.wf(),
            other.wf(),
        ensures
            r == self.spec_add(*other),
            r.wf(),
    {
        Tuple {
            x: scalar_add(self.x, other.x),
            y: scalar_add(self.y, other.y),
            z: scalar_add(self.z, other.z),
            w: scalar_add(self.w, other.w),
        }
    }

    pub fn sub(&self, other: &Tuple) -> (r: Tuple)
        requires
            self.wf(),
            other.wf(),
        ensures
            r == self.spec_sub(*other),
            r.wf(),
    {
        Tuple {
            x: scalar_sub(self.x, other.x),
            y: scalar_sub(self.y, other.y),
            z: scalar_sub(self.z, other.z),
            w: scalar_sub(self.w, other.w),
        }
    }

    pub fn neg(&self) -> (r: Tuple)
        requires
            self.wf(),
        ensures
            r == self.spec_neg(),
            r.wf(),
    {
        Tuple {
            x: scalar_neg(self.x),
            y: scalar_neg(self.y),
            z: scalar_neg(self.z),
            w: scalar_neg(self.w),
        }
    }

    pub fn mul_scalar(&self, factor: Scalar) -> (r: Tuple)
        requires
            self.wf(),
            in_range(factor as int),
        ensures
            r == self.spec_mul_scalar(factor as int),
            r.wf(),
    {
        Tuple {
            x: scalar_mul(self.x, factor),
            y: scalar_mul(self.y, factor),
            z: scalar_mul(self.z, factor),
            w: scalar_mul(self.w, factor),
        }
    }

    /// Componentwise (Hadamard) product; for colors this blends intensities.
    pub fn mul(&self, other: &Tuple) -> (r: Tuple)
        requires
            self.wf(),
            other.wf(),
        ensures
            r == self.spec_mul(*other),
            r.wf(),
    {
        Tuple {
            x: scalar_mul(self.x, other.x),
            y: scalar_mul(self.y, other.y),
            z: scalar_mul(self.z, other.z),
            w: scalar_mul(self.w, other.w),
        }
    }

    pub fn div_scalar(&self, factor: Scalar) -> (r: Tuple)
        requires
            self.wf(),
            in_range(factor as int),
            factor != 0,
        ensures
            r == self.spec_div_scalar(factor as int),
            r.wf(),
    {
        Tuple {
            x: scalar_div(self.x, factor),
            y: scalar_div(self.y, factor),
            z: scalar_div(self.z, factor),
            w: scalar_div(self.w, factor),
        }
    }

    pub fn dot(&self, other: &Tuple) -> (r: Scalar)
        requires
            self.wf(),
            other.wf(),
        ensures
            r == self.spec_dot(*other),
            in_range(r as int),
    {
        let xx = scalar_mul(self.x, other.x);
        let yy = scalar_mul(self.y, other.y);
        let zz = scalar_mul(self.z, other.z);
        let ww = scalar_mul(self.w, other.w);
        scalar_add(scalar_add(scalar_add(xx, yy), zz), ww)
    }

    /// The squared length of `self` is never negative.
    proof fn lemma_self_dot_nonneg(self)
        ensures
            0 <= self.spec_dot(self),
    {
        crate::scalar::lemma_fmul_square_nonneg(self.x as int);
        crate::scalar::lemma_fmul_square_nonneg(self.y as int);
        crate::scalar::lemma_fmul_square_nonneg(self.z as int);
        crate::scalar::lemma_fmul_square_nonneg(self.w as int);
    }

    pub fn magnitude(&self) -> (r: Scalar)
        requires
            self.wf(),
        ensures
            r == self.spec_magnitude(),
            0 <= r,
            in_range(r as int),
    {
        proof {
            self.lemma_self_dot_nonneg();
        }
        scalar_sqrt(self.dot(self))
    }

    /// Scales a nonzero tuple to unit length; a tuple whose squared length
    /// rounds to zero has no direction and yields `None`.
    pub fn normalize(&self) -> (r: Option<Tuple>)
        requires
            self.wf(),
        ensures
            self.spec_magnitude() == 0 ==> r is None,
            self.spec_magnitude() != 0 ==> r == Some(self.spec_normalize()),
            r matches Some(t) ==> t.wf(),
    {
        let m = self.magnitude();
        if m == 0 {
            None
        } else {
            Some(self.div_scalar(m))
        }
    }

    pub fn cross(&self, other: &Tuple) -> (r: Tuple)
        requires
            self.wf(),
            other.wf(),
        ensures
            r == self.spec_cross(*other),
            r.wf(),
            r.spec_is_vector(),
    {
        Tuple {
            x: scalar_sub(scalar_mul(self.y, other.z), scalar_mul(self.z, other.y)),
            y: scalar_sub(scalar_mul(self.z, other.x), scalar_mul(self.x, other.z)),
            z: scalar_sub(scalar_mul(self.x, other.y), scalar_mul(self.y, other.x)),
            w: 0,
        }
    }

    pub fn reflect(&self, normal: &Tuple) -> (r: Tuple)
        requires
            self.wf(),
            normal.wf(),
        ensures
            r == self.spec_reflect(*normal),
            r.wf(),
    {
        let d = self.dot(normal);
        let scaled = normal.mul_scalar(2 * SCALE);
        self.sub(&scaled.mul_scalar(d))
    }

    pub fn red(&self) -> (r: Scalar)
        ensures
            r == self.x,
    {
        self.x
    }

    pub fn green(&self) -> (r: Scalar)
        ensures
            r == self.y,
    {
        self.y
    }

    pub fn blue(&self) -> (r: Scalar)
        ensures
            r == self.z,
    {
        self.z
    }
}

/// Adding a vector to a point yields a point, and adding two vectors yields
/// a vector: saturating addition is exact on the `w` component, which is
/// always zero or one.
pub proof fn lemma_add_keeps_w_class(a: Tuple, b: Tuple)
    requires
        a.wf(),
        b.wf(),
    ensures
        a.spec_is_point() && b.spec_is_vector() ==> a.spec_add(b).spec_is_point(),
        a.spec_is_vector() && b.spec_is_vector() ==> a.spec_add(b).spec_is_vector(),
        a.spec_is_point() && b.spec_is_point() ==> a.spec_sub(b).spec_is_vector(),
        a.spec_is_point() && b.spec_is_vector() ==> a.spec_sub(b).spec_is_point(),
{
}

} // verus!
