//! Point lights: a position and an intensity color.

use crate::tuples::Tuple;
use vstd::prelude::*;

verus! {

#[derive(Clone, Copy, PartialEq, Eq, Structural, Debug)]
pub struct PointLight {
    pub intensity: Tuple,
    pub position: Tuple,
}

impl PointLight {
    pub open spec fn wf(self) -> bool {
        self.intensity.wf() && self.position.wf()
    }

    pub fn new(position: Tuple, intensity: Tuple) -> (r: PointLight)
        ensures
            r == (PointLight { position, intensity }),
    {
        PointLight { position, intensity }
    }
}

} // verus!
