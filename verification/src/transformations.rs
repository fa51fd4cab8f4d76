//! Named affine transform constructors. A composed transform `C * B * A`
//! applies `A` first, then `B`, then `C`.
//!
//! Rotations take the sine and cosine of the turning angle as fixed-point
//! scalars: trigonometry itself is left to the caller, since only the two
//! coefficients enter the matrix.

use crate::matrices::Matrix4;
use crate::scalar::{in_range, Scalar, SCALE};
use crate::tuples::Tuple;
use vstd::prelude::*;

verus! {

pub type Transformation = Matrix4;

impl Matrix4 {
    pub open spec fn spec_translation(x: i128, y: i128, z: i128) -> Matrix4 {
        Matrix4(
            [
                [SCALE, 0, 0, x],
                [0, SCALE, 0, y],
                [0, 0, SCALE, z],
                [0, 0, 0, SCALE],
            ],
        )
    }

    pub open spec fn spec_scaling(x: i128, y: i128, z: i128) -> Matrix4 {
        Matrix4([[x, 0, 0, 0], [0, y, 0, 0], [0, 0, z, 0], [0, 0, 0, SCALE]])
    }

    pub open spec fn spec_rotation_x(s: i128, c: i128) -> Matrix4 {
        Matrix4(
            [
                [SCALE, 0, 0, 0],
                [0, c, (-s) as i128, 0],
                [0, s, c, 0],
                [0, 0, 0, SCALE],
            ],
        )
    }

    pub open spec fn spec_rotation_y(s: i128, c: i128) -> Matrix4 {
        Matrix4(
            [
                [c, 0, s, 0],
                [0, SCALE, 0, 0],
                [(-s) as i128, 0, c, 0],
                [0, 0, 0, SCALE],
            ],
        )
    }

    pub open spec fn spec_rotation_z(s: i128, c: i128) -> Matrix4 {
        Matrix4(
            [
                [c, (-s) as i128, 0, 0],
                [s, c, 0, 0],
                [0, 0, SCALE, 0],
                [0, 0, 0, SCALE],
            ],
        )
    }

    pub open spec fn spec_shearing(
        x_y: i128,
        x_z: i128,
        y_x: i128,
        y_z: i128,
        z_x: i128,
        z_y: i128,
    ) -> Matrix4 {
        Matrix4(
            [
                [SCALE, x_y, x_z, 0],
                [y_x, SCALE, y_z, 0],
                [z_x, z_y, SCALE, 0],
                [0, 0, 0, SCALE],
            ],
        )
    }

    /// The orientation rows of a view transform: left, true up, and the
    /// negated forward direction.
    pub open spec fn spec_orientation(forward: Tuple, left: Tuple, true_up: Tuple) -> Matrix4 {
        Matrix4(
            [
                [left.x, left.y, left.z, 0],
                [true_up.x, true_up.y, true_up.z, 0],
                [(-forward.x) as i128, (-forward.y) as i128, (-forward.z) as i128, 0],
                [0, 0, 0, SCALE],
            ],
        )
    }

    /// The full view transform, over the normalized forward and up vectors.
    pub open spec fn spec_view(from: Tuple, to: Tuple, up: Tuple) -> Matrix4 {
        let forward = to.spec_sub(from).spec_normalize();
        let left = forward.spec_cross(up.spec_normalize());
        let true_up = left.spec_cross(forward);
        Matrix4::spec_orientation(forward, left, true_up).spec_mul(
            Matrix4::spec_translation((-from.x) as i128, (-from.y) as i128, (-from.z) as i128),
        )
    }

    /// Moves points by `(x, y, z)` and leaves vectors unchanged.
    pub fn translation(x: Scalar, y: Scalar, z: Scalar) -> (r: Matrix4)
        requires
            in_range(x as int),
            in_range(y as int),
            in_range(z as int),
        ensures
            r == Matrix4::spec_translation(x, y, z),
            r.wf(),
    {
        Matrix4::new(SCALE, 0, 0, x, 0, SCALE, 0, y, 0, 0, SCALE, z, 0, 0, 0, SCALE)
    }

    /// Scales each axis by the given factor.
    pub fn scaling(x: Scalar, y: Scalar, z: Scalar) -> (r: Matrix4)
        requires
            in_range(x as int),
            in_range(y as int),
            in_range(z as int),
        ensures
            r == Matrix4::spec_scaling(x, y, z),
            r.wf(),
    {
        Matrix4::new(x, 0, 0, 0, 0, y, 0, 0, 0, 0, z, 0, 0, 0, 0, SCALE)
    }

    /// Rotation about the x axis, given the sine and cosine of the angle.
    pub fn rotation_x(s: Scalar, c: Scalar) -> (r: Matrix4)
        requires
            in_range(s as int),
            in_range(c as int),
        ensures
            r == Matrix4::spec_rotation_x(s, c),
            r.wf(),
    {
        Matrix4::new(SCALE, 0, 0, 0, 0, c, -s, 0, 0, s, c, 0, 0, 0, 0, SCALE)
    }

    /// Rotation about the y axis, given the sine and cosine of the angle.
    pub fn rotation_y(s: Scalar, c: Scalar) -> (r: Matrix4)
        requires
            in_range(s as int),
            in_range(c as int),
        ensures
            r == Matrix4::spec_rotation_y(s, c),
            r.wf(),
    {
        Matrix4::new(c, 0, s, 0, 0, SCALE, 0, 0, -s, 0, c, 0, 0, 0, 0, SCALE)
    }

    /// Rotation about the z axis, given the sine and cosine of the angle.
    pub fn rotation_z(s: Scalar, c: Scalar) -> (r: Matrix4)
        requires
            in_range(s as int),
            in_range(c as int),
        ensures
            r == Matrix4::spec_rotation_z(s, c),
            r.wf(),
    {
        Matrix4::new(c, -s, 0, 0, s, c, 0, 0, 0, 0, SCALE, 0, 0, 0, 0, SCALE)
    }

    /// Shears each coordinate in proportion to the other two.
    pub fn shearing(
        x_y: Scalar,
        x_z: Scalar,
        y_x: Scalar,
        y_z: Scalar,
        z_x: Scalar,
        z_y: Scalar,
    ) -> (r: Matrix4)
        requires
            in_range(x_y as int),
            in_range(x_z as int),
            in_range(y_x as int),
            in_range(y_z as int),
            in_range(z_x as int),
            in_range(z_y as int),
        ensures
            r == Matrix4::spec_shearing(x_y, x_z, y_x, y_z, z_x, z_y),
            r.wf(),
    {
        Matrix4::new(
            SCALE,
            x_y,
            x_z,
            0,
            y_x,
            SCALE,
            y_z,
            0,
            z_x,
            z_y,
            SCALE,
            0,
            0,
            0,
            0,
            SCALE,
        )
    }

    /// The look-at transform for an eye at `from` facing `to`, with `up`
    /// fixing the roll. Fails when eye and target coincide too closely, or
    /// the up vector is degenerate: neither direction can then be
    /// normalized.
    pub fn view(from: &Tuple, to: &Tuple, up: &Tuple) -> (r: Option<Matrix4>)
        requires
            from.wf(),
            to.wf(),
            up.wf(),
        ensures
            r is Some <==> to.spec_sub(*from).spec_magnitude() != 0 && up.spec_magnitude() != 0,
            r matches Some(m) ==> m == Matrix4::spec_view(*from, *to, *up) && m.wf(),
    {
        let forward = match to.sub(from).normalize() {
            Some(f) => f,
            None => {
                return None;
            },
        };
        let up_n = match up.normalize() {
            Some(u) => u,
            None => {
                return None;
            },
        };
        let left = forward.cross(&up_n);
        let true_up = left.cross(&forward);
        let orientation = Matrix4::new(
            left.x,
            left.y,
            left.z,
            0,
            true_up.x,
            true_up.y,
            true_up.z,
            0,
            -forward.x,
            -forward.y,
            -forward.z,
            0,
            0,
            0,
            0,
            SCALE,
        );
        Some(orientation.mul(&Matrix4::translation(-from.x, -from.y, -from.z)))
    }
}

} // verus!
