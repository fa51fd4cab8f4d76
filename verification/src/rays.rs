//! Rays: an origin point and a direction vector in one coordinate space.

use crate::matrices::Matrix4;
use crate::scalar::{in_range, Scalar};
use crate::tuples::Tuple;
use vstd::prelude::*;

verus! {

#[derive(Clone, Copy, PartialEq, Eq, Structural, Debug)]
pub struct Ray {
    pub origin: Tuple,
    pub direction: Tuple,
}

impl Ray {
    pub open spec fn wf(self) -> bool {
        self.origin.wf() && self.direction.wf()
    }

    /// The point `origin + direction * t`.
    pub open spec fn spec_position(self, t: int) -> Tuple {
        self.origin.spec_add(self.direction.spec_mul_scalar(t))
    }

    /// The ray carried into another coordinate space by `m`.
    pub open spec fn spec_transform(self, m: Matrix4) -> Ray {
        Ray { origin: m.spec_mul_tuple(self.origin), direction: m.spec_mul_tuple(self.direction) }
    }

    pub fn new(origin: Tuple, direction: Tuple) -> (r: Ray)
        ensures
            r == (Ray { origin, direction }),
    {
        Ray { origin, direction }
    }

    pub fn position(&self, t: Scalar) -> (r: Tuple)
        requires
            self.wf(),
            in_range(t as int),
        ensures
            r == self.spec_position(t as int),
            r.wf(),
    {
        self.origin.add(&self.direction.mul_scalar(t))
    }

    pub fn transform(&self, m: &Matrix4) -> (r: Ray)
        requires
            self.wf(),
            m.wf(),
        ensures
            r == self.spec_transform(*m),
            r.wf(),
    {
        Ray { origin: m.mul_tuple(&self.origin), direction: m.mul_tuple(&self.direction) }
    }
}

} // verus!
