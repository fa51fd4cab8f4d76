//! Procedural color patterns: pure functions from a pattern-local point to
//! a color, carried into world space through the owning shape's and the
//! pattern's own inverse transforms.

use crate::matrices::Matrix4;
use crate::scalar::{
    fadd, ffloor, fmul, fsqrt, fsub, funits, scalar_add, scalar_floor, scalar_mul, scalar_sqrt,
    scalar_sub, scalar_units, units_even,
};
use crate::shapes::Shape;
use crate::tuples::Tuple;
use vstd::prelude::*;

verus! {

/// The closed set of pattern functions, each over solid colors.
#[derive(Clone, Copy, PartialEq, Eq, Structural, Debug)]
pub enum PatternKind {
    Solid(Tuple),
    Stripe(Tuple, Tuple),
    Gradient(Tuple, Tuple),
    Ring(Tuple, Tuple),
    Checker(Tuple, Tuple),
}

impl PatternKind {
    pub open spec fn wf(self) -> bool {
        match self {
            PatternKind::Solid(a) => a.wf(),
            PatternKind::Stripe(a, b) => a.wf() && b.wf(),
            PatternKind::Gradient(a, b) => a.wf() && b.wf(),
            PatternKind::Ring(a, b) => a.wf() && b.wf(),
            PatternKind::Checker(a, b) => a.wf() && b.wf(),
        }
    }

    /// The color of the pattern at a pattern-local point.
    ///
    /// Stripes alternate with the floor of `x`; a gradient blends by the
    /// fractional part of `x`; rings alternate with the floor of the
    /// distance from the y axis; checkers alternate with the summed floors
    /// of all three coordinates.
    pub open spec fn spec_pattern_at(self, p: Tuple) -> Tuple {
        match self {
            PatternKind::Solid(a) => a,
            PatternKind::Stripe(a, b) => {
                if funits(p.x as int) % 2 == 0 {
                    a
                } else {
                    b
                }
            },
            PatternKind::Gradient(a, b) => a.spec_add(
                b.spec_sub(a).spec_mul_scalar(fsub(p.x as int, ffloor(p.x as int))),
            ),
            PatternKind::Ring(a, b) => {
                let d = fsqrt(fadd(fmul(p.x as int, p.x as int), fmul(p.z as int, p.z as int)));
                if funits(d) % 2 == 0 {
                    a
                } else {
                    b
                }
            },
            PatternKind::Checker(a, b) => {
                if (funits(p.x as int) + funits(p.y as int) + funits(p.z as int)) % 2 == 0 {
                    a
                } else {
                    b
                }
            },
        }
    }

    /// Evaluate the pattern at a pattern-local point.
    pub fn pattern_at(&self, p: &Tuple) -> (r: Tuple)
        requires
            self.wf(),
            p.wf(),
        ensures
            r == self.spec_pattern_at(*p),
            r.wf(),
    {
        match self {
            PatternKind::Solid(a) => *a,
            PatternKind::Stripe(a, b) => {
                if units_even(scalar_units(p.x)) {
                    *a
                } else {
                    *b
                }
            },
            PatternKind::Gradient(a, b) => {
                let frac = scalar_sub(p.x, scalar_floor(p.x));
                a.add(&b.sub(a).mul_scalar(frac))
            },
            PatternKind::Ring(a, b) => {
                proof {
                    crate::scalar::lemma_fmul_square_nonneg(p.x as int);
                    crate::scalar::lemma_fmul_square_nonneg(p.z as int);
                }
                let d = scalar_sqrt(scalar_add(scalar_mul(p.x, p.x), scalar_mul(p.z, p.z)));
                if units_even(scalar_units(d)) {
                    *a
                } else {
                    *b
                }
            },
            PatternKind::Checker(a, b) => {
                let ux = scalar_units(p.x);
                let uy = scalar_units(p.y);
                let uz = scalar_units(p.z);
                if units_even(ux + uy + uz) {
                    *a
                } else {
                    *b
                }
            },
        }
    }
}

/// A pattern function together with its own transform and cached inverse.
#[derive(Clone, Copy, PartialEq, Debug)]
pub struct Pattern {
    pub transform: Matrix4,
    pub inversed_transform: Matrix4,
    pub kind: PatternKind,
}

impl Pattern {
    pub open spec fn wf(self) -> bool {
        self.transform.wf() && self.inversed_transform.wf() && self.kind.wf()
    }

    /// The pattern color at a world point, seen through the owning shape's
    /// cached inverse transform and then the pattern's own.
    pub open spec fn spec_pattern_at_shape(self, object: Shape, world_point: Tuple) -> Tuple {
        let object_point = object.inversed_transform.spec_mul_tuple(world_point);
        let pattern_point = self.inversed_transform.spec_mul_tuple(object_point);
        self.kind.spec_pattern_at(pattern_point)
    }

    pub fn new(kind: PatternKind) -> (r: Pattern)
        requires
            kind.wf(),
        ensures
            r.kind == kind,
            r.transform == Matrix4::spec_identity(),
            r.inversed_transform == Matrix4::spec_identity(),
            r.wf(),
    {
        Pattern { transform: Matrix4::identity(), inversed_transform: Matrix4::identity(), kind }
    }

    pub fn solid(a: Tuple) -> (r: Pattern)
        requires
            a.wf(),
        ensures
            r.kind == PatternKind::Solid(a),
            r.transform == Matrix4::spec_identity(),
            r.inversed_transform == Matrix4::spec_identity(),
            r.wf(),
    {
        Pattern::new(PatternKind::Solid(a))
    }

    pub fn stripe(a: Tuple, b: Tuple) -> (r: Pattern)
        requires
            a.wf(),
            b.wf(),
        ensures
            r.kind == PatternKind::Stripe(a, b),
            r.transform == Matrix4::spec_identity(),
            r.inversed_transform == Matrix4::spec_identity(),
            r.wf(),
    {
        Pattern::new(PatternKind::Stripe(a, b))
    }

    pub fn gradient(a: Tuple, b: Tuple) -> (r: Pattern)
        requires
            a.wf(),
            b.wf(),
        ensures
            r.kind == PatternKind::Gradient(a, b),
            r.transform == Matrix4::spec_identity(),
            r.inversed_transform == Matrix4::spec_identity(),
            r.wf(),
    {
        Pattern::new(PatternKind::Gradient(a, b))
    }

    pub fn ring(a: Tuple, b: Tuple) -> (r: Pattern)
        requires
            a.wf(),
            b.wf(),
        ensures
            r.kind == PatternKind::Ring(a, b),
            r.transform == Matrix4::spec_identity(),
            r.inversed_transform == Matrix4::spec_identity(),
            r.wf(),
    {
        Pattern::new(PatternKind::Ring(a, b))
    }

    pub fn checker(a: Tuple, b: Tuple) -> (r: Pattern)
        requires
            a.wf(),
            b.wf(),
        ensures
            r.kind == PatternKind::Checker(a, b),
            r.transform == Matrix4::spec_identity(),
            r.inversed_transform == Matrix4::spec_identity(),
            r.wf(),
    {
        Pattern::new(PatternKind::Checker(a, b))
    }

    /// The pattern's transform.
    pub fn transform(&self) -> (r: &Matrix4)
        ensures
            *r == self.transform,
    {
        &self.transform
    }

    /// Replaces the pattern transform; fails on a singular matrix, which
    /// has no inverse to cache.
    pub fn set_transform(&mut self, transform: Matrix4) -> (ok: bool)
        requires
            old(self).wf(),
            transform.wf(),
        ensures
            ok <==> transform.spec_determinant() != 0,
            ok ==> *final(self) == (Pattern {
                transform,
                inversed_transform: transform.spec_inverse(),
                kind: old(self).kind,
            }),
            !ok ==> *final(self) == *old(self),
            final(self).wf(),
    {
        match transform.inverse() {
            Some(inv) => {
                self.transform = transform;
                self.inversed_transform = inv;
                true
            },
            None => false,
        }
    }

    /// The pattern color on a shape's surface at a world point.
    pub fn pattern_at_shape(&self, object: &Shape, world_point: &Tuple) -> (r: Tuple)
        requires
            self.wf(),
            object.wf(),
            world_point.wf(),
        ensures
            r == self.spec_pattern_at_shape(*object, *world_point),
            r.wf(),
    {
        let object_point = object.inversed_transform.mul_tuple(world_point);
        let pattern_point = self.inversed_transform.mul_tuple(&object_point);
        self.kind.pattern_at(&pattern_point)
    }
}

} // verus!
