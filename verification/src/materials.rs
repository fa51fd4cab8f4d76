//! Phong materials: ambient, diffuse and specular coefficients, a
//! shininess exponent, and a surface pattern.

use crate::lights::PointLight;
use crate::patterns::{Pattern, PatternKind};
use crate::scalar::{fpow, in_range, scalar_pow, Scalar, SCALE};
use crate::shapes::Shape;
use crate::tuples::Tuple;
use vstd::prelude::*;

verus! {

#[derive(Clone, Copy, PartialEq, Debug)]
pub struct Material {
    pub pattern: Pattern,
    pub ambient: Scalar,
    pub diffuse: Scalar,
    pub specular: Scalar,
    /// Whole-number specular exponent.
    pub shininess: u32,
}

impl Material {
    pub open spec fn wf(self) -> bool {
        &&& self.pattern.wf()
        &&& in_range(self.ambient as int)
        &&& in_range(self.diffuse as int)
        &&& in_range(self.specular as int)
    }

    pub open spec fn spec_default() -> Material {
        Material {
            pattern: Pattern {
                transform: crate::matrices::Matrix4::spec_identity(),
                inversed_transform: crate::matrices::Matrix4::spec_identity(),
                kind: PatternKind::Solid(Tuple { x: SCALE, y: SCALE, z: SCALE, w: 0 }),
            },
            ambient: 100_000_000,
            diffuse: 900_000_000,
            specular: 900_000_000,
            shininess: 200,
        }
    }

    /// A solid white surface with ambient 0.1, diffuse 0.9, specular 0.9
    /// and shininess 200.
    pub fn new() -> (r: Material)
        ensures
            r == Material::spec_default(),
            r.wf(),
    {
        Material {
            pattern: Pattern::solid(Tuple::color(SCALE, SCALE, SCALE)),
            ambient: 100_000_000,
            diffuse: 900_000_000,
            specular: 900_000_000,
            shininess: 200,
        }
    }

    /// Paints the whole surface one color.
    pub fn set_color(&mut self, color: Tuple)
        requires
            color.wf(),
        ensures
            *final(self) == (Material {
                pattern: Pattern {
                    transform: crate::matrices::Matrix4::spec_identity(),
                    inversed_transform: crate::matrices::Matrix4::spec_identity(),
                    kind: PatternKind::Solid(color),
                },
                ..*old(self)
            }),
    {
        self.pattern = Pattern::solid(color);
    }

    /// The Phong illumination at a surface point.
    ///
    /// The ambient term always contributes. The diffuse and specular terms
    /// are black in shadow or when the light is behind the surface; the
    /// specular term is black when the reflected light points away from the
    /// eye, and otherwise scales with the reflection-eye alignment raised to
    /// the shininess power.
    pub open spec fn spec_lighting(
        self,
        object: Shape,
        light: PointLight,
        point: Tuple,
        eyev: Tuple,
        normalv: Tuple,
        in_shadow: bool,
    ) -> Tuple {
        let color = self.pattern.spec_pattern_at_shape(object, point);
        let effective = color.spec_mul(light.intensity);
        let lightv = light.position.spec_sub(point).spec_normalize();
        let ambient = effective.spec_mul_scalar(self.ambient as int);
        let light_dot_normal = lightv.spec_dot(normalv);
        let black = Tuple { x: 0, y: 0, z: 0, w: 0 };
        let diffuse = if in_shadow || light_dot_normal < 0 {
            black
        } else {
            effective.spec_mul_scalar(self.diffuse as int).spec_mul_scalar(light_dot_normal)
        };
        let specular = if in_shadow || light_dot_normal < 0 {
            black
        } else {
            let reflectv = lightv.spec_neg().spec_reflect(normalv);
            let reflect_dot_eye = reflectv.spec_dot(eyev);
            if reflect_dot_eye < 0 {
                black
            } else {
                let factor = fpow(reflect_dot_eye, self.shininess as nat);
                light.intensity.spec_mul_scalar(self.specular as int).spec_mul_scalar(factor)
            }
        };
        ambient.spec_add(diffuse).spec_add(specular)
    }

    pub fn lighting(
        &self,
        object: &Shape,
        light: &PointLight,
        point: &Tuple,
        eyev: &Tuple,
        normalv: &Tuple,
        in_shadow: bool,
    ) -> (r: Tuple)
        requires
            self.wf(),
            object.wf(),
            light.wf(),
            point.wf(),
            eyev.wf(),
            normalv.wf(),
        ensures
            r == self.spec_lighting(*object, *light, *point, *eyev, *normalv, in_shadow),
            r.wf(),
    {
        let color = self.pattern.pattern_at_shape(object, point);
        let effective = color.mul(&light.intensity);
        let lightv = match light.position.sub(point).normalize() {
            Some(v) => v,
            None => Tuple::vector(0, 0, 0),
        };
        let ambient = effective.mul_scalar(self.ambient);
        let light_dot_normal = lightv.dot(normalv);
        let black = Tuple::black();
        let diffuse: Tuple;
        let specular: Tuple;
        if in_shadow || light_dot_normal < 0 {
            diffuse = black;
            specular = black;
        } else {
            diffuse = effective.mul_scalar(self.diffuse).mul_scalar(light_dot_normal);
            let reflectv = lightv.neg().reflect(normalv);
            let reflect_dot_eye = reflectv.dot(eyev);
            if reflect_dot_eye < 0 {
                specular = black;
            } else {
                let factor = scalar_pow(reflect_dot_eye, self.shininess);
                specular = light.intensity.mul_scalar(self.specular).mul_scalar(factor);
            }
        }
        ambient.add(&diffuse).add(&specular)
    }
}

impl Default for Material {
    /// The same surface as [`Material::new`].
    fn default() -> (r: Material)
        ensures
            r == Material::spec_default(),
            r.wf(),
    {
        Material::new()
    }
}

} // verus!
