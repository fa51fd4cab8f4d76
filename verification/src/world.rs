//! The composed scene: a shape list and a light list, with ray
//! intersection across all shapes, shadow testing, per-hit shading and the
//! top-level color query.

use crate::intersections::{
    hit, intersections, lemma_hit_is_lowest_positive, sorted_by_t, Computations, Intersection,
};
use crate::lights::PointLight;
use crate::materials::Material;
use crate::matrices::Matrix4;
use crate::rays::Ray;
use crate::scalar::{in_range, Scalar, SCALE};
use crate::shapes::Shape;
use crate::tuples::Tuple;
use vstd::prelude::*;
use vstd::seq_lib::group_to_multiset_ensures;

verus! {

pub struct World {
    pub objects: Vec<Shape>,
    pub lights: Vec<PointLight>,
}

/// The roots of one shape against a ray, paired with the shape's index.
pub open spec fn wrap_hits(ts: Seq<i128>, object: usize) -> Seq<Intersection> {
    ts.map_values(|t: i128| Intersection { t, object })
}

impl World {
    pub open spec fn wf(self) -> bool {
        &&& forall|i: int| 0 <= i < self.objects@.len() ==> (#[trigger] self.objects@[i]).wf()
        &&& forall|i: int| 0 <= i < self.lights@.len() ==> (#[trigger] self.lights@[i]).wf()
    }

    /// Every candidate intersection of the ray against the first `n`
    /// shapes, in shape order.
    pub open spec fn candidates_up_to(self, ray: Ray, n: int) -> Seq<Intersection>
        decreases n,
    {
        if n <= 0 {
            Seq::<Intersection>::empty()
        } else {
            self.candidates_up_to(ray, n - 1) + wrap_hits(
                self.objects@[n - 1].spec_intersect(ray),
                (n - 1) as usize,
            )
        }
    }

    /// Every candidate intersection of the ray against the whole scene.
    pub open spec fn spec_candidates(self, ray: Ray) -> Seq<Intersection> {
        self.candidates_up_to(ray, self.objects@.len() as int)
    }

    /// Every candidate carries a valid shape index and an in-range root.
    proof fn lemma_candidates_wf(self, ray: Ray, n: int)
        requires
            self.wf(),
            ray.wf(),
            0 <= n <= self.objects@.len(),
        ensures
            forall|i: int|
                0 <= i < self.candidates_up_to(ray, n).len() ==> {
                    let e = #[trigger] self.candidates_up_to(ray, n)[i];
                    e.object < self.objects@.len() && in_range(e.t as int)
                },
        decreases n,
    {
        if n > 0 {
            self.lemma_candidates_wf(ray, n - 1);
            crate::shapes::lemma_spec_intersect_in_range(self.objects@[n - 1], ray);
            let prefix = self.candidates_up_to(ray, n - 1);
            let ts = self.objects@[n - 1].spec_intersect(ray);
            let tail = wrap_hits(ts, (n - 1) as usize);
            assert forall|i: int| 0 <= i < self.candidates_up_to(ray, n).len() implies {
                let e = #[trigger] self.candidates_up_to(ray, n)[i];
                e.object < self.objects@.len() && in_range(e.t as int)
            } by {
                assert(self.candidates_up_to(ray, n) == prefix + tail);
                if i < prefix.len() {
                    assert((prefix + tail)[i] == prefix[i]);
                } else {
                    assert((prefix + tail)[i] == tail[i - prefix.len()]);
                    assert(tail[i - prefix.len()] == (Intersection {
                        t: ts[i - prefix.len()],
                        object: (n - 1) as usize,
                    }));
                }
            }
        }
    }

    /// An empty scene.
    pub fn new() -> (r: World)
        ensures
            r.objects@ =~= Seq::<Shape>::empty(),
            r.lights@ =~= Seq::<PointLight>::empty(),
            r.wf(),
    {
        World { objects: Vec::new(), lights: Vec::new() }
    }

    pub fn with_objects_and_light(objects: Vec<Shape>, light: PointLight) -> (r: World)
        ensures
            r.objects@ == objects@,
            r.lights@ =~= seq![light],
    {
        let mut lights = Vec::new();
        lights.push(light);
        World { objects, lights }
    }

    /// All candidate hits of the ray against the scene, sorted by ascending
    /// `t`: exactly the candidates, in distance order.
    pub fn intersect(&self, ray: &Ray) -> (r: Vec<Intersection>)
        requires
            self.wf(),
            ray.wf(),
        ensures
            sorted_by_t(r@),
            r@.to_multiset() == self.spec_candidates(*ray).to_multiset(),
            forall|i: int|
                0 <= i < r@.len() ==> (#[trigger] r@[i]).object < self.objects@.len() && in_range(
                    r@[i].t as int,
                ),
    {
        broadcast use group_to_multiset_ensures;

        let mut result: Vec<Intersection> = Vec::new();
        let mut idx: usize = 0;
        while idx < self.objects.len()
            invariant
                self.wf(),
                ray.wf(),
                idx <= self.objects@.len(),
                result@ == self.candidates_up_to(*ray, idx as int),
            decreases self.objects@.len() - idx,
        {
            let ts = self.objects[idx].intersect(ray);
            let ghost base = result@;
            let mut k: usize = 0;
            while k < ts.len()
                invariant
                    k <= ts@.len(),
                    result@ =~= base + wrap_hits(ts@.take(k as int), idx),
                decreases ts@.len() - k,
            {
                result.push(Intersection::new(ts[k], idx));
                proof {
                    assert(ts@.take(k + 1) =~= ts@.take(k as int).push(ts@[k as int]));
                    assert(wrap_hits(ts@.take(k + 1), idx) =~= wrap_hits(
                        ts@.take(k as int),
                        idx,
                    ).push(Intersection { t: ts@[k as int], object: idx }));
                }
                k = k + 1;
            }
            proof {
                assert(ts@.take(ts@.len() as int) =~= ts@);
                assert(result@ =~= self.candidates_up_to(*ray, idx + 1));
            }
            idx = idx + 1;
        }
        let sorted = intersections(result);
        proof {
            self.lemma_candidates_wf(*ray, self.objects@.len() as int);
            assert forall|i: int| 0 <= i < sorted@.len() implies (#[trigger] sorted@[i]).object
                < self.objects@.len() && in_range(sorted@[i].t as int) by {
                let e = sorted@[i];
                assert(sorted@.contains(e));
                assert(sorted@.to_multiset().count(e) > 0);
                assert(self.spec_candidates(*ray).to_multiset().count(e) > 0);
                assert(self.spec_candidates(*ray).contains(e));
            }
        }
        sorted
    }

    /// Whether some scene object stands between the point and the light:
    /// some candidate along the shadow ray lies strictly between the point
    /// and the light. A light sitting on the point itself casts no shadow.
    pub open spec fn spec_is_shadowed(self, point: Tuple, light: PointLight) -> bool {
        let v = light.position.spec_sub(point);
        let distance = v.spec_magnitude();
        let ray = Ray { origin: point, direction: v.spec_normalize() };
        &&& distance != 0
        &&& exists|i: int|
            0 <= i < self.spec_candidates(ray).len() && 0 < (#[trigger] self.spec_candidates(
                ray,
            )[i]).t < distance
    }

    #[verifier::rlimit(60)]
    pub fn is_shadowed(&self, point: &Tuple, light: &PointLight) -> (r: bool)
        requires
            self.wf(),
            point.wf(),
            light.wf(),
        ensures
            r == self.spec_is_shadowed(*point, *light),
    {
        broadcast use group_to_multiset_ensures;

        let v = light.position.sub(point);
        let distance = v.magnitude();
        let direction = match v.normalize() {
            Some(d) => d,
            None => {
                return false;
            },
        };
        let ray = Ray::new(*point, direction);
        let ghost cands = self.spec_candidates(ray);
        let xs = self.intersect(&ray);
        match hit(&xs) {
            Some(h) => {
                let ghost k = choose|k: int|
                    0 <= k < xs@.len() && xs@[k] == h && h.t > 0 && (forall|j: int|
                        0 <= j < k ==> xs@[j].t <= 0);
                proof {
                    lemma_hit_is_lowest_positive(xs@, h, k);
                }
                if h.t < distance {
                    proof {
                        assert(xs@.contains(h));
                        assert(cands.to_multiset().count(h) > 0);
                        assert(cands.contains(h));
                        let i = choose|i: int| 0 <= i < cands.len() && cands[i] == h;
                        assert(0 <= i < cands.len() && 0 < cands[i].t < distance);
                    }
                    true
                } else {
                    proof {
                        assert forall|i: int|
                            0 <= i < cands.len() && cands[i].t > 0 implies cands[i].t
                            >= distance by {
                            let e = cands[i];
                            assert(cands.contains(e));
                            assert(xs@.to_multiset().count(e) > 0);
                            assert(xs@.contains(e));
                            let m = choose|m: int| 0 <= m < xs@.len() && xs@[m] == e;
                            assert(h.t <= xs@[m].t);
                        }
                    }
                    false
                }
            },
            None => {
                proof {
                    assert forall|i: int| 0 <= i < cands.len() implies (#[trigger] cands[i]).t
                        <= 0 by {
                        let e = cands[i];
                        assert(cands.contains(e));
                        assert(xs@.to_multiset().count(e) > 0);
                        assert(xs@.contains(e));
                        let m = choose|m: int| 0 <= m < xs@.len() && xs@[m] == e;
                        assert(xs@[m].t <= 0);
                    }
                }
                false
            },
        }
    }

    /// The summed lighting of the first `n` lights at a prepared hit, each
    /// light with its own shadow state.
    pub open spec fn spec_shade_acc(self, comps: Computations, n: int) -> Tuple
        decreases n,
    {
        if n <= 0 {
            Tuple { x: 0, y: 0, z: 0, w: 0 }
        } else {
            let light = self.lights@[n - 1];
            let object = self.objects@[comps.object as int];
            let shadowed = self.spec_is_shadowed(comps.over_point, light);
            self.spec_shade_acc(comps, n - 1).spec_add(
                object.material.spec_lighting(
                    object,
                    light,
                    comps.over_point,
                    comps.eyev,
                    comps.normalv,
                    shadowed,
                ),
            )
        }
    }

    /// The color at a prepared hit: lighting summed over every light.
    pub open spec fn spec_shade_hit(self, comps: Computations) -> Tuple {
        self.spec_shade_acc(comps, self.lights@.len() as int)
    }

    pub fn shade_hit(&self, comps: &Computations) -> (r: Tuple)
        requires
            self.wf(),
            comps.wf(),
            comps.object < self.objects@.len(),
        ensures
            r == self.spec_shade_hit(*comps),
            r.wf(),
    {
        let mut result = Tuple::black();
        let mut n: usize = 0;
        while n < self.lights.len()
            invariant
                self.wf(),
                comps.wf(),
                comps.object < self.objects@.len(),
                n <= self.lights@.len(),
                result == self.spec_shade_acc(*comps, n as int),
                result.wf(),
            decreases self.lights@.len() - n,
        {
            let light = self.lights[n];
            let shadowed = self.is_shadowed(&comps.over_point, &light);
            let object = &self.objects[comps.object];
            let contribution = object.material.lighting(
                object,
                &light,
                &comps.over_point,
                &comps.eyev,
                &comps.normalv,
                shadowed,
            );
            result = result.add(&contribution);
            n = n + 1;
        }
        result
    }

    /// Some candidate lies ahead of the ray origin.
    pub open spec fn spec_has_hit(self, ray: Ray) -> bool {
        exists|i: int|
            0 <= i < self.spec_candidates(ray).len() && (#[trigger] self.spec_candidates(
                ray,
            )[i]).t > 0
    }

    /// `h` is a nearest candidate ahead of the ray origin. When two
    /// candidates share the least positive `t`, either may be the hit.
    pub open spec fn spec_is_hit(self, ray: Ray, h: Intersection) -> bool {
        &&& self.spec_candidates(ray).contains(h)
        &&& h.t > 0
        &&& forall|i: int|
            0 <= i < self.spec_candidates(ray).len() && (#[trigger] self.spec_candidates(
                ray,
            )[i]).t > 0 ==> h.t <= self.spec_candidates(ray)[i].t
    }

    /// `c` is a color the ray may see: black where the ray misses the
    /// scene, and otherwise the shaded state of some nearest hit.
    pub open spec fn spec_color_ok(self, ray: Ray, c: Tuple) -> bool {
        if self.spec_has_hit(ray) {
            exists|h: Intersection|
                {
                    &&& #[trigger] self.spec_is_hit(ray, h)
                    &&& h.object < self.objects@.len()
                    &&& c == self.spec_shade_hit(
                        Computations::spec_prepare(h, ray, self.objects@[h.object as int]),
                    )
                }
        } else {
            c == (Tuple { x: 0, y: 0, z: 0, w: 0 })
        }
    }

    /// The color the ray sees: black where it misses the scene, otherwise
    /// the shaded state of a nearest hit.
    #[verifier::rlimit(60)]
    pub fn color_at(&self, ray: &Ray) -> (r: Tuple)
        requires
            self.wf(),
            ray.wf(),
        ensures
            self.spec_color_ok(*ray, r),
            r.wf(),
    {
        broadcast use group_to_multiset_ensures;

        let ghost cands = self.spec_candidates(*ray);
        let xs = self.intersect(ray);
        match hit(&xs) {
            None => {
                proof {
                    assert forall|i: int| 0 <= i < cands.len() implies (#[trigger] cands[i]).t
                        <= 0 by {
                        let e = cands[i];
                        assert(cands.contains(e));
                        assert(xs@.to_multiset().count(e) > 0);
                        assert(xs@.contains(e));
                        let m = choose|m: int| 0 <= m < xs@.len() && xs@[m] == e;
                        assert(xs@[m].t <= 0);
                    }
                }
                Tuple::black()
            },
            Some(h) => {
                let ghost k = choose|k: int|
                    0 <= k < xs@.len() && xs@[k] == h && h.t > 0 && (forall|j: int|
                        0 <= j < k ==> xs@[j].t <= 0);
                proof {
                    lemma_hit_is_lowest_positive(xs@, h, k);
                    assert(xs@.contains(h));
                    assert(cands.to_multiset().count(h) > 0);
                    assert(cands.contains(h));
                    assert forall|i: int|
                        0 <= i < cands.len() && (#[trigger] cands[i]).t > 0 implies h.t
                        <= cands[i].t by {
                        let e = cands[i];
                        assert(cands.contains(e));
                        assert(xs@.to_multiset().count(e) > 0);
                        assert(xs@.contains(e));
                        let m = choose|m: int| 0 <= m < xs@.len() && xs@[m] == e;
                        assert(h.t <= xs@[m].t);
                    }
                    assert(self.spec_is_hit(*ray, h));
                }
                let comps = Computations::prepare(&h, ray, &self.objects[h.object]);
                let shaded = self.shade_hit(&comps);
                proof {
                    assert(self.spec_has_hit(*ray));
                }
                shaded
            },
        }
    }
}


impl World {
    /// The outer sphere of the conventional test scene: untransformed,
    /// colored (0.8, 1, 0.6) with diffuse 0.7 and specular 0.2.
    pub open spec fn spec_default_outer() -> Shape {
        Shape {
            transform: Matrix4::spec_identity(),
            inversed_transform: Matrix4::spec_identity(),
            material: Material {
                pattern: crate::patterns::Pattern {
                    transform: Matrix4::spec_identity(),
                    inversed_transform: Matrix4::spec_identity(),
                    kind: crate::patterns::PatternKind::Solid(
                        Tuple { x: 800_000_000, y: SCALE, z: 600_000_000, w: 0 },
                    ),
                },
                ambient: 100_000_000,
                diffuse: 700_000_000,
                specular: 200_000_000,
                shininess: 200,
            },
            kind: crate::shapes::ShapeKind::Sphere,
        }
    }

    /// The inner sphere of the conventional test scene: the default
    /// material, scaled to half size.
    pub open spec fn spec_default_inner() -> Shape {
        Shape {
            transform: Matrix4::spec_scaling(500_000_000, 500_000_000, 500_000_000),
            inversed_transform: Matrix4::spec_scaling(
                500_000_000,
                500_000_000,
                500_000_000,
            ).spec_inverse(),
            material: Material::spec_default(),
            kind: crate::shapes::ShapeKind::Sphere,
        }
    }
}

/// The half-unit scaling used by the conventional test scene is
/// invertible.
#[verifier::rlimit(100)]
proof fn lemma_half_scaling_invertible()
    ensures
        Matrix4::spec_scaling(500_000_000, 500_000_000, 500_000_000).spec_determinant() != 0,
{
    // Walk the cofactor expansion bottom up so every minor evaluates on
    // the concrete entries.
    let m = Matrix4::spec_scaling(500_000_000, 500_000_000, 500_000_000);
    assert(m.spec_sub_matrix(0, 0).spec_sub_matrix(0, 0).entry(0, 0) == 500_000_000);
    assert(m.spec_sub_matrix(0, 0).spec_sub_matrix(0, 0).entry(0, 1) == 0);
    assert(m.spec_sub_matrix(0, 0).spec_sub_matrix(0, 0).entry(1, 0) == 0);
    assert(m.spec_sub_matrix(0, 0).spec_sub_matrix(0, 0).entry(1, 1) == 1_000_000_000);
    assert(m.spec_sub_matrix(0, 0).spec_sub_matrix(0, 0).spec_determinant() == 500_000_000);
    assert(m.spec_sub_matrix(0, 0).spec_determinant() == 250_000_000);
    assert(m.spec_determinant() == 125_000_000);
}


/// Builds the outer sphere of the conventional test scene.
fn default_outer() -> (r: Shape)
    ensures
        r == World::spec_default_outer(),
        r.wf(),
{
    let mut s1 = Shape::sphere();
    let mut m1 = Material::new();
    m1.set_color(Tuple::color(800_000_000, SCALE, 600_000_000));
    m1.diffuse = 700_000_000;
    m1.specular = 200_000_000;
    s1.set_material(m1);
    s1
}

/// Builds the inner half-size sphere of the conventional test scene.
#[verifier::rlimit(100)]
fn default_inner() -> (r: Shape)
    ensures
        r == World::spec_default_inner(),
        r.wf(),
{
    let mut s2 = Shape::sphere();
    proof {
        lemma_half_scaling_invertible();
    }
    let scaled = s2.set_transform(Matrix4::scaling(500_000_000, 500_000_000, 500_000_000));
    assert(scaled);
    s2
}

impl Default for World {
    /// The conventional test scene: a colored unit sphere and a half-size
    /// concentric sphere, under one white light up and to the left.
    #[verifier::rlimit(100)]
    fn default() -> (r: World)
        ensures
            r.objects@ =~= seq![World::spec_default_outer(), World::spec_default_inner()],
            r.lights@ =~= seq![
                PointLight {
                    position: Tuple {
                        x: -10_000_000_000i128,
                        y: 10_000_000_000,
                        z: -10_000_000_000i128,
                        w: SCALE,
                    },
                    intensity: Tuple { x: SCALE, y: SCALE, z: SCALE, w: 0 },
                },
            ],
            r.wf(),
    {
        let light = PointLight::new(
            Tuple::point(-10 * SCALE, 10 * SCALE, -10 * SCALE),
            Tuple::color(SCALE, SCALE, SCALE),
        );
        let s1 = default_outer();
        let s2 = default_inner();
        let mut objects = Vec::new();
        objects.push(s1);
        objects.push(s2);
        World::with_objects_and_light(objects, light)
    }
}

} // verus!
