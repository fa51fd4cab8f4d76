//! Shapes: a geometric primitive with a transform (plus cached inverse)
//! and a material. A shape answers intersection and normal queries in
//! world space by passing through its local, untransformed geometry.

use crate::materials::Material;
use crate::matrices::Matrix4;
use crate::rays::Ray;
use crate::scalar::{
    fadd, fdiv, fmul, fsqrt, fsub, in_range, scalar_add, scalar_div, scalar_mul, scalar_neg,
    scalar_sqrt, scalar_sub, Scalar, EPSILON, SCALE,
};
use crate::tuples::Tuple;
use vstd::prelude::*;

verus! {

/// The unit sphere centered at the local origin.
#[derive(Clone, Copy, PartialEq, Eq, Structural, Debug)]
pub struct Sphere;

/// The local xz-plane, `y == 0`.
#[derive(Clone, Copy, PartialEq, Eq, Structural, Debug)]
pub struct Plane;

/// Quadratic coefficient `a`: the squared length of the ray direction.
pub open spec fn sphere_qa(ray: Ray) -> int {
    ray.direction.spec_dot(ray.direction)
}

/// The local vector from the sphere center to the ray origin.
pub open spec fn sphere_center_to_origin(ray: Ray) -> Tuple {
    ray.origin.spec_sub(Tuple { x: 0, y: 0, z: 0, w: SCALE })
}

/// Quadratic coefficient `b`.
pub open spec fn sphere_qb(ray: Ray) -> int {
    fmul(2 * SCALE, ray.direction.spec_dot(sphere_center_to_origin(ray)))
}

/// Quadratic coefficient `c`.
pub open spec fn sphere_qc(ray: Ray) -> int {
    fsub(sphere_center_to_origin(ray).spec_dot(sphere_center_to_origin(ray)), SCALE as int)
}

/// The quadratic discriminant `b^2 - 4ac`.
pub open spec fn sphere_discriminant(ray: Ray) -> int {
    fsub(
        fmul(sphere_qb(ray), sphere_qb(ray)),
        fmul(fmul(4 * SCALE, sphere_qa(ray)), sphere_qc(ray)),
    )
}

/// The nearer quadratic root `(-b - sqrt(disc)) / 2a`.
pub open spec fn sphere_t1(ray: Ray) -> int {
    fdiv(fsub(-sphere_qb(ray), fsqrt(sphere_discriminant(ray))), fmul(2 * SCALE, sphere_qa(ray)))
}

/// The farther quadratic root `(-b + sqrt(disc)) / 2a`.
pub open spec fn sphere_t2(ray: Ray) -> int {
    fdiv(fadd(-sphere_qb(ray), fsqrt(sphere_discriminant(ray))), fmul(2 * SCALE, sphere_qa(ray)))
}

/// The ray hits the sphere: real discriminant and a genuine quadratic.
pub open spec fn sphere_hits(ray: Ray) -> bool {
    sphere_discriminant(ray) >= 0 && fmul(2 * SCALE, sphere_qa(ray)) != 0
}

impl Sphere {
    pub fn new() -> (r: Sphere)
        ensures
            r == Sphere,
    {
        Sphere
    }

    /// Solves the ray-sphere quadratic. Two roots (equal at tangency) when
    /// the discriminant is nonnegative, none otherwise; a degenerate ray
    /// whose direction squares to zero misses.
    pub fn local_intersect(&self, ray: &Ray) -> (r: Vec<Scalar>)
        requires
            ray.wf(),
        ensures
            sphere_hits(*ray) ==> r@ == seq![
                sphere_t1(*ray) as i128,
                sphere_t2(*ray) as i128,
            ],
            !sphere_hits(*ray) ==> r@ == Seq::<i128>::empty(),
            forall|i: int| 0 <= i < r@.len() ==> in_range(#[trigger] r@[i] as int),
    {
        let center = Tuple::point(0, 0, 0);
        let sphere_to_ray = ray.origin.sub(&center);
        let a = ray.direction.dot(&ray.direction);
        let b = scalar_mul(2 * SCALE, ray.direction.dot(&sphere_to_ray));
        let c = scalar_sub(sphere_to_ray.dot(&sphere_to_ray), SCALE);
        let discriminant = scalar_sub(scalar_mul(b, b), scalar_mul(scalar_mul(4 * SCALE, a), c));
        let denom = scalar_mul(2 * SCALE, a);
        if discriminant < 0 || denom == 0 {
            Vec::new()
        } else {
            let root = scalar_sqrt(discriminant);
            let t1 = scalar_div(scalar_sub(scalar_neg(b), root), denom);
            let t2 = scalar_div(scalar_add(scalar_neg(b), root), denom);
            let mut v: Vec<Scalar> = Vec::new();
            v.push(t1);
            v.push(t2);
            proof {
                assert(v@ =~= seq![sphere_t1(*ray) as i128, sphere_t2(*ray) as i128]);
            }
            v
        }
    }

    /// The local normal: the vector from the center to the point.
    pub fn local_normal_at(&self, point: &Tuple) -> (r: Tuple)
        requires
            point.wf(),
        ensures
            r == point.spec_sub(Tuple { x: 0, y: 0, z: 0, w: SCALE }),
            r.wf(),
    {
        point.sub(&Tuple::point(0, 0, 0))
    }
}

/// The ray runs parallel to the plane, within the global epsilon.
pub open spec fn plane_parallel(ray: Ray) -> bool {
    -EPSILON < ray.direction.y && ray.direction.y < EPSILON
}

/// The single plane root `-origin.y / direction.y`.
pub open spec fn plane_t(ray: Ray) -> int {
    fdiv(-ray.origin.y, ray.direction.y as int)
}

impl Plane {
    pub fn new() -> (r: Plane)
        ensures
            r == Plane,
    {
        Plane
    }

    /// One root where the ray crosses `y == 0`; none when the ray is
    /// parallel to the plane, coplanar rays included.
    pub fn local_intersect(&self, ray: &Ray) -> (r: Vec<Scalar>)
        requires
            ray.wf(),
        ensures
            plane_parallel(*ray) ==> r@ == Seq::<i128>::empty(),
            !plane_parallel(*ray) ==> r@ == seq![plane_t(*ray) as i128],
            forall|i: int| 0 <= i < r@.len() ==> in_range(#[trigger] r@[i] as int),
    {
        if -EPSILON < ray.direction.y && ray.direction.y < EPSILON {
            Vec::new()
        } else {
            let t = scalar_div(scalar_neg(ray.origin.y), ray.direction.y);
            let mut v: Vec<Scalar> = Vec::new();
            v.push(t);
            proof {
                assert(v@ =~= seq![plane_t(*ray) as i128]);
            }
            v
        }
    }

    /// The constant local normal `(0, 1, 0)`.
    pub fn local_normal_at(&self, _point: &Tuple) -> (r: Tuple)
        ensures
            r == (Tuple { x: 0, y: SCALE, z: 0, w: 0 }),
            r.wf(),
    {
        Tuple::vector(0, SCALE, 0)
    }
}

/// The closed set of shape geometries.
#[derive(Clone, Copy, PartialEq, Eq, Structural, Debug)]
pub enum ShapeKind {
    Sphere,
    Plane,
}

/// The local-space roots of a ray against a geometry.
pub open spec fn spec_local_intersect(kind: ShapeKind, ray: Ray) -> Seq<i128> {
    match kind {
        ShapeKind::Sphere => {
            if sphere_hits(ray) {
                seq![sphere_t1(ray) as i128, sphere_t2(ray) as i128]
            } else {
                Seq::<i128>::empty()
            }
        },
        ShapeKind::Plane => {
            if plane_parallel(ray) {
                Seq::<i128>::empty()
            } else {
                seq![plane_t(ray) as i128]
            }
        },
    }
}

/// The local-space normal of a geometry at a local point.
pub open spec fn spec_local_normal_at(kind: ShapeKind, point: Tuple) -> Tuple {
    match kind {
        ShapeKind::Sphere => point.spec_sub(Tuple { x: 0, y: 0, z: 0, w: SCALE }),
        ShapeKind::Plane => Tuple { x: 0, y: SCALE, z: 0, w: 0 },
    }
}

/// Every root that a geometry reports is an in-range scalar.
pub proof fn lemma_spec_intersect_in_range(shape: Shape, ray: Ray)
    ensures
        forall|i: int|
            0 <= i < shape.spec_intersect(ray).len() ==> in_range(
                #[trigger] shape.spec_intersect(ray)[i] as int,
            ),
{
    let local = ray.spec_transform(shape.inversed_transform);
    let roots = shape.spec_intersect(ray);
    match shape.kind {
        ShapeKind::Sphere => {
            if sphere_hits(local) {
                assert(roots[0] == sphere_t1(local) as i128);
                assert(roots[1] == sphere_t2(local) as i128);
            }
        },
        ShapeKind::Plane => {
            if !plane_parallel(local) {
                assert(roots[0] == plane_t(local) as i128);
            }
        },
    }
}

/// A transformed, materially decorated primitive.
#[derive(Clone, Copy, PartialEq, Debug)]
pub struct Shape {
    pub transform: Matrix4,
    pub inversed_transform: Matrix4,
    pub material: Material,
    pub kind: ShapeKind,
}

impl Shape {
    pub open spec fn wf(self) -> bool {
        self.transform.wf() && self.inversed_transform.wf() && self.material.wf()
    }

    /// The local roots of the ray carried into the shape's local space.
    pub open spec fn spec_intersect(self, ray: Ray) -> Seq<i128> {
        spec_local_intersect(self.kind, ray.spec_transform(self.inversed_transform))
    }

    /// The world normal: the local normal pushed through the transposed
    /// inverse transform, with `w` zeroed, then normalized. A degenerate
    /// normal whose magnitude rounds to zero is left unnormalized.
    pub open spec fn spec_normal_at(self, world_point: Tuple) -> Tuple {
        let object_point = self.inversed_transform.spec_mul_tuple(world_point);
        let object_normal = spec_local_normal_at(self.kind, object_point);
        let wn = self.inversed_transform.spec_transpose().spec_mul_tuple(object_normal);
        let world_normal = Tuple { x: wn.x, y: wn.y, z: wn.z, w: 0 };
        if world_normal.spec_magnitude() == 0 {
            world_normal
        } else {
            world_normal.spec_normalize()
        }
    }

    /// A unit sphere with the identity transform and the default material.
    pub fn sphere() -> (r: Shape)
        ensures
            r == (Shape {
                transform: Matrix4::spec_identity(),
                inversed_transform: Matrix4::spec_identity(),
                material: Material::spec_default(),
                kind: ShapeKind::Sphere,
            }),
            r.wf(),
    {
        Shape {
            transform: Matrix4::identity(),
            inversed_transform: Matrix4::identity(),
            material: Material::new(),
            kind: ShapeKind::Sphere,
        }
    }

    /// An xz-plane with the identity transform and the default material.
    pub fn plane() -> (r: Shape)
        ensures
            r == (Shape {
                transform: Matrix4::spec_identity(),
                inversed_transform: Matrix4::spec_identity(),
                material: Material::spec_default(),
                kind: ShapeKind::Plane,
            }),
            r.wf(),
    {
        Shape {
            transform: Matrix4::identity(),
            inversed_transform: Matrix4::identity(),
            material: Material::new(),
            kind: ShapeKind::Plane,
        }
    }

    /// The shape's transform.
    pub fn transform(&self) -> (r: &Matrix4)
        ensures
            *r == self.transform,
    {
        &self.transform
    }

    /// The cached inverse of the shape's transform.
    pub fn inversed_transform(&self) -> (r: &Matrix4)
        ensures
            *r == self.inversed_transform,
    {
        &self.inversed_transform
    }

    /// The shape's material.
    pub fn material(&self) -> (r: &Material)
        ensures
            *r == self.material,
    {
        &self.material
    }

    /// Replaces the shape transform and caches its inverse; fails on a
    /// singular matrix, which has no inverse to cache.
    pub fn set_transform(&mut self, transform: Matrix4) -> (ok: bool)
        requires
            old(self).wf(),
            transform.wf(),
        ensures
            ok <==> transform.spec_determinant() != 0,
            ok ==> *final(self) == (Shape {
                transform,
                inversed_transform: transform.spec_inverse(),
                ..*old(self)
            }),
            !ok ==> *final(self) == *old(self),
            final(self).wf(),
    {
        match transform.inverse() {
            Some(inv) => {
                self.transform = transform;
                self.inversed_transform = inv;
                true
            },
            None => false,
        }
    }

    /// Replaces the material.
    pub fn set_material(&mut self, material: Material)
        requires
            material.wf(),
        ensures
            *final(self) == (Shape { material, ..*old(self) }),
    {
        self.material = material;
    }

    /// The world-space roots of the ray against this shape.
    pub fn intersect(&self, ray: &Ray) -> (r: Vec<Scalar>)
        requires
            self.wf(),
            ray.wf(),
        ensures
            r@ == self.spec_intersect(*ray),
            forall|i: int| 0 <= i < r@.len() ==> in_range(#[trigger] r@[i] as int),
    {
        let local_ray = ray.transform(&self.inversed_transform);
        match self.kind {
            ShapeKind::Sphere => Sphere.local_intersect(&local_ray),
            ShapeKind::Plane => Plane.local_intersect(&local_ray),
        }
    }

    /// The world-space surface normal at a world point.
    pub fn normal_at(&self, world_point: &Tuple) -> (r: Tuple)
        requires
            self.wf(),
            world_point.wf(),
        ensures
            r == self.spec_normal_at(*world_point),
            r.wf(),
            r.spec_is_vector(),
    {
        let object_point = self.inversed_transform.mul_tuple(world_point);
        let object_normal = match self.kind {
            ShapeKind::Sphere => Sphere.local_normal_at(&object_point),
            ShapeKind::Plane => Plane.local_normal_at(&object_point),
        };
        let wn = self.inversed_transform.transpose().mul_tuple(&object_normal);
        let world_normal = Tuple::new(wn.x, wn.y, wn.z, 0);
        match world_normal.normalize() {
            Some(n) => n,
            None => world_normal,
        }
    }
}

} // verus!
