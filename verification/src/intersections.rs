//! Candidate hits, hit selection and per-hit shading state.
//!
//! An intersection pairs a distance `t` along a ray with the index of the
//! shape hit, into the shape list that produced it.

use crate::rays::Ray;
use crate::scalar::{in_range, Scalar, EPSILON};
use crate::shapes::Shape;
use crate::tuples::Tuple;
use vstd::prelude::*;
use vstd::seq_lib::group_to_multiset_ensures;

verus! {

#[derive(Clone, Copy, PartialEq, Eq, Structural, Debug)]
pub struct Intersection {
    pub t: Scalar,
    /// Index of the shape hit, in the shape list the caller intersected.
    pub object: usize,
}

impl Intersection {
    pub fn new(t: Scalar, object: usize) -> (r: Intersection)
        ensures
            r == (Intersection { t, object }),
    {
        Intersection { t, object }
    }
}

/// The list is ordered by ascending `t`.
pub open spec fn sorted_by_t(s: Seq<Intersection>) -> bool {
    forall|a: int, b: int| 0 <= a < b < s.len() ==> s[a].t <= s[b].t
}

/// Stable-sorts candidate hits by ascending `t`: the result is ordered and
/// holds exactly the same intersections.
pub fn intersections(list: Vec<Intersection>) -> (r: Vec<Intersection>)
    ensures
        sorted_by_t(r@),
        r@.to_multiset() == list@.to_multiset(),
        r@.len() == list@.len(),
{
    broadcast use group_to_multiset_ensures;

    let mut v = list;
    let ghost orig = v@;
    let mut i: usize = 1;
    while i < v.len()
        invariant
            1 <= i,
            v@.to_multiset() == orig.to_multiset(),
            v@.len() == orig.len(),
            forall|a: int, b: int| 0 <= a < b < i && b < v@.len() ==> v@[a].t <= v@[b].t,
        decreases v@.len() - i,
    {
        let mut j: usize = i;
        while j > 0 && v[j - 1].t > v[j].t
            invariant
                j <= i < v@.len(),
                v@.to_multiset() == orig.to_multiset(),
                v@.len() == orig.len(),
                forall|a: int, b: int|
                    0 <= a < b <= i && b != j ==> v@[a].t <= v@[b].t,
            decreases j,
        {
            let ghost before = v@;
            let prev = v[j - 1];
            let cur = v[j];
            v.set(j - 1, cur);
            v.set(j, prev);
            proof {
                broadcast use group_to_multiset_ensures;
                broadcast use vstd::multiset::group_multiset_axioms;

                assert(before[j - 1] == prev && before[j as int] == cur);
                assert(before.contains(prev));
                assert(before.to_multiset().count(prev) > 0);
                assert(v@ =~= before.update(j - 1, before[j as int]).update(j as int, before[
                    j - 1]));
                assert(v@.to_multiset() =~= before.to_multiset());
            }
            j = j - 1;
        }
        i = i + 1;
    }
    v
}

/// The first intersection in the list with a positive `t`, if any.
pub fn hit(list: &Vec<Intersection>) -> (r: Option<Intersection>)
    ensures
        r is None ==> forall|i: int| 0 <= i < list@.len() ==> list@[i].t <= 0,
        r matches Some(x) ==> exists|k: int|
            {
                &&& 0 <= k < list@.len()
                &&& list@[k] == x
                &&& x.t > 0
                &&& forall|j: int| 0 <= j < k ==> list@[j].t <= 0
            },
{
    let mut i: usize = 0;
    while i < list.len()
        invariant
            i <= list@.len(),
            forall|j: int| 0 <= j < i ==> list@[j].t <= 0,
        decreases list@.len() - i,
    {
        if list[i].t > 0 {
            return Some(list[i]);
        }
        i = i + 1;
    }
    None
}

/// On a list sorted by ascending `t`, the hit is the lowest positive `t`:
/// every other positive intersection lies at least as far along the ray.
pub proof fn lemma_hit_is_lowest_positive(list: Seq<Intersection>, x: Intersection, k: int)
    requires
        sorted_by_t(list),
        0 <= k < list.len(),
        list[k] == x,
        x.t > 0,
        forall|j: int| 0 <= j < k ==> list[j].t <= 0,
    ensures
        forall|i: int| 0 <= i < list.len() && list[i].t > 0 ==> x.t <= list[i].t,
{
    assert forall|i: int| 0 <= i < list.len() && list[i].t > 0 implies x.t <= list[i].t by {
        if i < k {
            assert(list[i].t <= 0);
        } else if i > k {
            assert(list[k].t <= list[i].t);
        }
    }
}

/// Precomputed shading state for one hit.
#[derive(Clone, Copy, PartialEq, Eq, Structural, Debug)]
pub struct Computations {
    pub t: Scalar,
    /// Index of the shape hit, as in [`Intersection`].
    pub object: usize,
    pub point: Tuple,
    pub eyev: Tuple,
    pub normalv: Tuple,
    pub inside: bool,
    pub over_point: Tuple,
}

impl Computations {
    pub open spec fn wf(self) -> bool {
        &&& in_range(self.t as int)
        &&& self.point.wf()
        &&& self.eyev.wf()
        &&& self.normalv.wf()
        &&& self.over_point.wf()
    }

    /// The shading state for hitting `shape` at distance `t` along `ray`:
    /// hit point, eye vector, the normal (flipped when it faces away from
    /// the eye, with `inside` set), and the shadow-biased point lifted one
    /// epsilon along the normal.
    pub open spec fn spec_prepare(intersection: Intersection, ray: Ray, shape: Shape) -> Computations {
        let point = ray.spec_position(intersection.t as int);
        let eyev = ray.direction.spec_neg();
        let raw_normal = shape.spec_normal_at(point);
        let inside = raw_normal.spec_dot(eyev) < 0;
        let normalv = if inside {
            raw_normal.spec_neg()
        } else {
            raw_normal
        };
        Computations {
            t: intersection.t,
            object: intersection.object,
            point,
            eyev,
            normalv,
            inside,
            over_point: point.spec_add(normalv.spec_mul_scalar(EPSILON as int)),
        }
    }

    /// Precomputes the shading state of `intersection`, produced against
    /// `shape` by `ray`.
    pub fn prepare(intersection: &Intersection, ray: &Ray, shape: &Shape) -> (r: Computations)
        requires
            ray.wf(),
            shape.wf(),
            in_range(intersection.t as int),
        ensures
            r == Computations::spec_prepare(*intersection, *ray, *shape),
            r.wf(),
    {
        let point = ray.position(intersection.t);
        let eyev = ray.direction.neg();
        let mut normalv = shape.normal_at(&point);
        let inside: bool;
        if normalv.dot(&eyev) < 0 {
            inside = true;
            normalv = normalv.neg();
        } else {
            inside = false;
        }
        Computations {
            t: intersection.t,
            object: intersection.object,
            point,
            eyev,
            normalv,
            inside,
            over_point: point.add(&normalv.mul_scalar(EPSILON)),
        }
    }
}

} // verus!
