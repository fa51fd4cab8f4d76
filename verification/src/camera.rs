//! The camera: viewport geometry that maps pixel coordinates to
//! world-space rays and drives the render loop.
//!
//! The viewing angle enters as `half_view`, the tangent of half the field
//! of view, already in fixed-point form: only that coefficient shapes the
//! image plane.

use crate::canvas::Canvas;
use crate::matrices::Matrix4;
use crate::rays::Ray;
use crate::scalar::{fdiv, fmul, fsub, in_range, Scalar, SCALE};
use crate::tuples::Tuple;
use crate::world::World;
use vstd::prelude::*;

verus! {

pub struct Camera {
    pub hsize: usize,
    pub vsize: usize,
    /// The tangent of half the field of view, fixed-point.
    pub half_view: Scalar,
    pub transform: Matrix4,
    pub inversed_transform: Matrix4,
    pub pixel_size: Scalar,
    pub half_width: Scalar,
    pub half_height: Scalar,
}

impl Camera {
    pub open spec fn wf(self) -> bool {
        &&& 1 <= self.hsize <= 30000
        &&& 1 <= self.vsize <= 30000
        &&& in_range(self.half_view as int)
        &&& self.transform.wf()
        &&& self.inversed_transform.wf()
        &&& in_range(self.pixel_size as int)
        &&& in_range(self.half_width as int)
        &&& in_range(self.half_height as int)
    }

    /// The derived viewport: the half view splits into half width and half
    /// height by the aspect ratio, and a square pixel spans the width
    /// divided into `hsize` columns.
    pub open spec fn spec_new(hsize: usize, vsize: usize, half_view: i128) -> Camera {
        let hs = hsize as int * SCALE;
        let vs = vsize as int * SCALE;
        let aspect = fdiv(hs, vs);
        let half_width = if aspect >= SCALE {
            half_view as int
        } else {
            fmul(half_view as int, aspect)
        };
        let half_height = if aspect >= SCALE {
            fdiv(half_view as int, aspect)
        } else {
            half_view as int
        };
        Camera {
            hsize,
            vsize,
            half_view,
            transform: Matrix4::spec_identity(),
            inversed_transform: Matrix4::spec_identity(),
            pixel_size: fdiv(fmul(half_width, 2 * SCALE), hs) as i128,
            half_width: half_width as i128,
            half_height: half_height as i128,
        }
    }

    pub fn new(hsize: usize, vsize: usize, half_view: Scalar) -> (r: Camera)
        requires
            1 <= hsize <= 30000,
            1 <= vsize <= 30000,
            in_range(half_view as int),
        ensures
            r == Camera::spec_new(hsize, vsize, half_view),
            r.wf(),
    {
        let hs: i128 = (hsize as i128) * SCALE;
        let vs: i128 = (vsize as i128) * SCALE;
        let aspect = crate::scalar::scalar_div(hs, vs);
        let half_width: Scalar;
        let half_height: Scalar;
        if aspect >= SCALE {
            half_width = half_view;
            half_height = crate::scalar::scalar_div(half_view, aspect);
        } else {
            half_width = crate::scalar::scalar_mul(half_view, aspect);
            half_height = half_view;
        }
        Camera {
            hsize,
            vsize,
            half_view,
            transform: Matrix4::identity(),
            inversed_transform: Matrix4::identity(),
            pixel_size: crate::scalar::scalar_div(crate::scalar::scalar_mul(half_width, 2 * SCALE), hs),
            half_width,
            half_height,
        }
    }

    /// Replaces the camera transform and caches its inverse; fails on a
    /// singular matrix, which has no inverse to cache.
    pub fn set_transform(&mut self, transform: Matrix4) -> (ok: bool)
        requires
            old(self).wf(),
            transform.wf(),
        ensures
            ok <==> transform.spec_determinant() != 0,
            ok ==> *final(self) == (Camera {
                transform,
                inversed_transform: transform.spec_inverse(),
                ..*old(self)
            }),
            !ok ==> *final(self) == *old(self),
            final(self).wf(),
    {
        match transform.inverse() {
            Some(inv) => {
                self.transform = transform;
                self.inversed_transform = inv;
                true
            },
            None => false,
        }
    }

    /// The world-space ray through the center of pixel `(px, py)`: from the
    /// camera origin toward the pixel's point on the image plane one unit
    /// ahead, both carried through the camera's cached inverse transform.
    /// A direction whose magnitude rounds to zero stays unnormalized.
    pub open spec fn spec_ray_for_pixel(self, px: int, py: int) -> Ray {
        let xoffset = fmul(px * SCALE + 500_000_000, self.pixel_size as int);
        let yoffset = fmul(py * SCALE + 500_000_000, self.pixel_size as int);
        let world_x = fsub(self.half_width as int, xoffset);
        let world_y = fsub(self.half_height as int, yoffset);
        let pixel = self.inversed_transform.spec_mul_tuple(
            Tuple { x: world_x as i128, y: world_y as i128, z: (-SCALE) as i128, w: SCALE },
        );
        let origin = self.inversed_transform.spec_mul_tuple(Tuple { x: 0, y: 0, z: 0, w: SCALE });
        let d0 = pixel.spec_sub(origin);
        let direction = if d0.spec_magnitude() == 0 {
            d0
        } else {
            d0.spec_normalize()
        };
        Ray { origin, direction }
    }

    pub fn ray_for_pixel(&self, px: usize, py: usize) -> (r: Ray)
        requires
            self.wf(),
            px < self.hsize,
            py < self.vsize,
        ensures
            r == self.spec_ray_for_pixel(px as int, py as int),
            r.wf(),
    {
        let pxc: i128 = (px as i128) * SCALE + 500_000_000;
        let pyc: i128 = (py as i128) * SCALE + 500_000_000;
        let xoffset = crate::scalar::scalar_mul(pxc, self.pixel_size);
        let yoffset = crate::scalar::scalar_mul(pyc, self.pixel_size);
        let world_x = crate::scalar::scalar_sub(self.half_width, xoffset);
        let world_y = crate::scalar::scalar_sub(self.half_height, yoffset);
        let pixel = self.inversed_transform.mul_tuple(&Tuple::point(world_x, world_y, -SCALE));
        let origin = self.inversed_transform.mul_tuple(&Tuple::point(0, 0, 0));
        let d0 = pixel.sub(&origin);
        let direction = match d0.normalize() {
            Some(d) => d,
            None => d0,
        };
        Ray::new(origin, direction)
    }

    /// Renders the scene: a canvas of the camera's dimensions where every
    /// pixel holds a color the pixel's ray may see in the world.
    pub fn render(&self, world: &World) -> (r: Canvas)
        requires
            self.wf(),
            world.wf(),
        ensures
            r.width == self.hsize,
            r.height == self.vsize,
            r.wf(),
            forall|x: int, y: int|
                0 <= x < self.hsize && 0 <= y < self.vsize ==> world.spec_color_ok(
                    self.spec_ray_for_pixel(x, y),
                    #[trigger] r.spec_pixel(x, y),
                ),
    {
        let mut image = Canvas::new(self.hsize, self.vsize);
        let mut y: usize = 0;
        while y < self.vsize
            invariant
                self.wf(),
                world.wf(),
                y <= self.vsize,
                image.width == self.hsize,
                image.height == self.vsize,
                image.wf(),
                forall|a: int, b: int|
                    0 <= a < self.hsize && 0 <= b < y ==> world.spec_color_ok(
                        self.spec_ray_for_pixel(a, b),
                        #[trigger] image.spec_pixel(a, b),
                    ),
            decreases self.vsize - y,
        {
            let mut x: usize = 0;
            while x < self.hsize
                invariant
                    self.wf(),
                    world.wf(),
                    y < self.vsize,
                    x <= self.hsize,
                    image.width == self.hsize,
                    image.height == self.vsize,
                    image.wf(),
                    forall|a: int, b: int|
                        0 <= a < self.hsize && 0 <= b < y ==> world.spec_color_ok(
                            self.spec_ray_for_pixel(a, b),
                            #[trigger] image.spec_pixel(a, b),
                        ),
                    forall|a: int|
                        0 <= a < x ==> world.spec_color_ok(
                            self.spec_ray_for_pixel(a, y as int),
                            #[trigger] image.spec_pixel(a, y as int),
                        ),
                decreases self.hsize - x,
            {
                let ray = self.ray_for_pixel(x, y);
                let color = world.color_at(&ray);
                image.write_pixel(x, y, color);
                x = x + 1;
            }
            y = y + 1;
        }
        image
    }
}

} // verus!
