//! 4x4, 3x3 and 2x2 matrices with cofactor determinants and the
//! adjugate-based inverse.

use crate::scalar::{
    fadd, fdiv, fmul, fsub, in_range, scalar_add, scalar_div, scalar_mul, scalar_neg, scalar_sub,
    Scalar, SCALE,
};
use crate::tuples::Tuple;
use vstd::prelude::*;

verus! {

#[derive(Clone, Copy, PartialEq, Debug)]
pub struct Matrix2(pub [[Scalar; 2]; 2]);

#[derive(Clone, Copy, PartialEq, Debug)]
pub struct Matrix3(pub [[Scalar; 3]; 3]);

#[derive(Clone, Copy, PartialEq, Debug)]
pub struct Matrix4(pub [[Scalar; 4]; 4]);

impl Matrix2 {
    pub open spec fn entry(self, l: int, k: int) -> int {
        self.0[l][k] as int
    }

    pub open spec fn wf(self) -> bool {
        forall|l: int, k: int| 0 <= l < 2 && 0 <= k < 2 ==> in_range(#[trigger] self.entry(l, k))
    }


    /// Every entry of a well-formed matrix is in range.
    pub proof fn lemma_entries_in_range(self)
        requires
            self.wf(),
        ensures
            in_range(self.entry(0, 0)),
            in_range(self.entry(0, 1)),
            in_range(self.entry(1, 0)),
            in_range(self.entry(1, 1)),
    {
    }

    /// `ad - bc`, in fixed-point arithmetic.
    pub open spec fn spec_determinant(self) -> int {
        fsub(fmul(self.entry(0, 0), self.entry(1, 1)), fmul(self.entry(0, 1), self.entry(1, 0)))
    }

    pub fn new(m00: Scalar, m01: Scalar, m10: Scalar, m11: Scalar) -> (r: Matrix2)
        requires
            in_range(m00 as int),
            in_range(m01 as int),
            in_range(m10 as int),
            in_range(m11 as int),
        ensures
            r == (Matrix2([[m00, m01], [m10, m11]])),
            r.wf(),
    {
        let r = Matrix2([[m00, m01], [m10, m11]]);
        proof {
            assert forall|l: int, k: int| 0 <= l < 2 && 0 <= k < 2 implies in_range(
                #[trigger] r.entry(l, k),
            ) by {
                assert(r.entry(l, k) == r.0[l][k]);
            }
        }
        r
    }

    pub fn determinant(&self) -> (r: Scalar)
        requires
            self.wf(),
        ensures
            r == self.spec_determinant(),
            in_range(r as int),
    {
        proof {
            self.lemma_entries_in_range();
        }
        scalar_sub(scalar_mul(self.0[0][0], self.0[1][1]), scalar_mul(self.0[0][1], self.0[1][0]))
    }
}

impl Matrix3 {
    pub open spec fn entry(self, l: int, k: int) -> int {
        self.0[l][k] as int
    }

    pub open spec fn wf(self) -> bool {
        forall|l: int, k: int| 0 <= l < 3 && 0 <= k < 3 ==> in_range(#[trigger] self.entry(l, k))
    }


    /// Every entry of a well-formed matrix is in range.
    pub proof fn lemma_entries_in_range(self)
        requires
            self.wf(),
        ensures
            in_range(self.entry(0, 0)),
            in_range(self.entry(0, 1)),
            in_range(self.entry(0, 2)),
            in_range(self.entry(1, 0)),
            in_range(self.entry(1, 1)),
            in_range(self.entry(1, 2)),
            in_range(self.entry(2, 0)),
            in_range(self.entry(2, 1)),
            in_range(self.entry(2, 2)),
    {
    }

    /// The 2x2 matrix left after deleting row `l` and column `k`.
    pub open spec fn spec_sub_matrix(self, l: int, k: int) -> Matrix2 {
        Matrix2(
            [
                [
                    self.0[if 0 < l {
                        0
                    } else {
                        1
                    }][if 0 < k {
                        0
                    } else {
                        1
                    }],
                    self.0[if 0 < l {
                        0
                    } else {
                        1
                    }][if 1 < k {
                        1
                    } else {
                        2
                    }],
                ],
                [
                    self.0[if 1 < l {
                        1
                    } else {
                        2
                    }][if 0 < k {
                        0
                    } else {
                        1
                    }],
                    self.0[if 1 < l {
                        1
                    } else {
                        2
                    }][if 1 < k {
                        1
                    } else {
                        2
                    }],
                ],
            ],
        )
    }

    pub open spec fn spec_minor(self, l: int, k: int) -> int {
        self.spec_sub_matrix(l, k).spec_determinant()
    }

    /// The minor, negated on odd positions.
    pub open spec fn spec_cofactor(self, l: int, k: int) -> int {
        if (l + k) % 2 == 0 {
            self.spec_minor(l, k)
        } else {
            -self.spec_minor(l, k)
        }
    }

    /// Cofactor expansion along the first row.
    pub open spec fn spec_determinant(self) -> int {
        fadd(
            fadd(
                fmul(self.entry(0, 0), self.spec_cofactor(0, 0)),
                fmul(self.entry(0, 1), self.spec_cofactor(0, 1)),
            ),
            fmul(self.entry(0, 2), self.spec_cofactor(0, 2)),
        )
    }

    #[allow(clippy::too_many_arguments)]
    pub fn new(
        m00: Scalar,
        m01: Scalar,
        m02: Scalar,
        m10: Scalar,
        m11: Scalar,
        m12: Scalar,
        m20: Scalar,
        m21: Scalar,
        m22: Scalar,
    ) -> (r: Matrix3)
        requires
            in_range(m00 as int),
            in_range(m01 as int),
            in_range(m02 as int),
            in_range(m10 as int),
            in_range(m11 as int),
            in_range(m12 as int),
            in_range(m20 as int),
            in_range(m21 as int),
            in_range(m22 as int),
        ensures
            r == (Matrix3([[m00, m01, m02], [m10, m11, m12], [m20, m21, m22]])),
            r.wf(),
    {
        let r = Matrix3([[m00, m01, m02], [m10, m11, m12], [m20, m21, m22]]);
        proof {
            assert forall|l: int, k: int| 0 <= l < 3 && 0 <= k < 3 implies in_range(
                #[trigger] r.entry(l, k),
            ) by {
                assert(r.entry(l, k) == r.0[l][k]);
            }
        }
        r
    }

    pub fn sub_matrix(&self, l: usize, k: usize) -> (r: Matrix2)
        requires
            l < 3,
            k < 3,
            self.wf(),
        ensures
            r == self.spec_sub_matrix(l as int, k as int),
            r.wf(),
    {
        let r0: usize = if 0 < l {
            0
        } else {
            1
        };
        let r1: usize = if 1 < l {
            1
        } else {
            2
        };
        let c0: usize = if 0 < k {
            0
        } else {
            1
        };
        let c1: usize = if 1 < k {
            1
        } else {
            2
        };
        let r = Matrix2([[self.0[r0][c0], self.0[r0][c1]], [self.0[r1][c0], self.0[r1][c1]]]);
        proof {
            self.lemma_entries_in_range();
            assert forall|l2: int, k2: int| 0 <= l2 < 2 && 0 <= k2 < 2 implies in_range(
                #[trigger] r.entry(l2, k2),
            ) by {
                assert(r.entry(l2, k2) == r.0[l2][k2]);
            }
        }
        r
    }

    pub fn minor(&self, l: usize, k: usize) -> (r: Scalar)
        requires
            l < 3,
            k < 3,
            self.wf(),
        ensures
            r == self.spec_minor(l as int, k as int),
            in_range(r as int),
    {
        self.sub_matrix(l, k).determinant()
    }

    pub fn cofactor(&self, l: usize, k: usize) -> (r: Scalar)
        requires
            l < 3,
            k < 3,
            self.wf(),
        ensures
            r == self.spec_cofactor(l as int, k as int),
            in_range(r as int),
    {
        let m = self.minor(l, k);
        if (l + k) % 2 == 0 {
            m
        } else {
            scalar_neg(m)
        }
    }

    pub fn determinant(&self) -> (r: Scalar)
        requires
            self.wf(),
        ensures
            r == self.spec_determinant(),
            in_range(r as int),
    {
        proof {
            self.lemma_entries_in_range();
        }
        let c0 = scalar_mul(self.0[0][0], self.cofactor(0, 0));
        let c1 = scalar_mul(self.0[0][1], self.cofactor(0, 1));
        let c2 = scalar_mul(self.0[0][2], self.cofactor(0, 2));
        scalar_add(scalar_add(c0, c1), c2)
    }
}

impl Matrix4 {
    pub open spec fn entry(self, l: int, k: int) -> int {
        self.0[l][k] as int
    }

    pub open spec fn wf(self) -> bool {
        forall|l: int, k: int| 0 <= l < 4 && 0 <= k < 4 ==> in_range(#[trigger] self.entry(l, k))
    }


    /// Every entry of a well-formed matrix is in range.
    pub proof fn lemma_entries_in_range(self)
        requires
            self.wf(),
        ensures
            in_range(self.entry(0, 0)),
            in_range(self.entry(0, 1)),
            in_range(self.entry(0, 2)),
            in_range(self.entry(0, 3)),
            in_range(self.entry(1, 0)),
            in_range(self.entry(1, 1)),
            in_range(self.entry(1, 2)),
            in_range(self.entry(1, 3)),
            in_range(self.entry(2, 0)),
            in_range(self.entry(2, 1)),
            in_range(self.entry(2, 2)),
            in_range(self.entry(2, 3)),
            in_range(self.entry(3, 0)),
            in_range(self.entry(3, 1)),
            in_range(self.entry(3, 2)),
            in_range(self.entry(3, 3)),
    {
    }

    /// The 3x3 matrix left after deleting row `l` and column `k`.
    pub open spec fn spec_sub_matrix(self, l: int, k: int) -> Matrix3 {
        let r0 = if 0 < l {
            0int
        } else {
            1int
        };
        let r1 = if 1 < l {
            1int
        } else {
            2int
        };
        let r2 = if 2 < l {
            2int
        } else {
            3int
        };
        let c0 = if 0 < k {
            0int
        } else {
            1int
        };
        let c1 = if 1 < k {
            1int
        } else {
            2int
        };
        let c2 = if 2 < k {
            2int
        } else {
            3int
        };
        Matrix3(
            [
                [self.0[r0][c0], self.0[r0][c1], self.0[r0][c2]],
                [self.0[r1][c0], self.0[r1][c1], self.0[r1][c2]],
                [self.0[r2][c0], self.0[r2][c1], self.0[r2][c2]],
            ],
        )
    }

    pub open spec fn spec_minor(self, l: int, k: int) -> int {
        self.spec_sub_matrix(l, k).spec_determinant()
    }

    /// The minor, negated on odd positions.
    pub open spec fn spec_cofactor(self, l: int, k: int) -> int {
        if (l + k) % 2 == 0 {
            self.spec_minor(l, k)
        } else {
            -self.spec_minor(l, k)
        }
    }

    /// Cofactor expansion along the first row.
    pub open spec fn spec_determinant(self) -> int {
        fadd(
            fadd(
                fadd(
                    fmul(self.entry(0, 0), self.spec_cofactor(0, 0)),
                    fmul(self.entry(0, 1), self.spec_cofactor(0, 1)),
                ),
                fmul(self.entry(0, 2), self.spec_cofactor(0, 2)),
            ),
            fmul(self.entry(0, 3), self.spec_cofactor(0, 3)),
        )
    }

    /// Entry `(l, k)` of the product `self * other`.
    pub open spec fn spec_mul_entry(self, other: Matrix4, l: int, k: int) -> int {
        fadd(
            fadd(
                fadd(
                    fmul(self.entry(l, 0), other.entry(0, k)),
                    fmul(self.entry(l, 1), other.entry(1, k)),
                ),
                fmul(self.entry(l, 2), other.entry(2, k)),
            ),
            fmul(self.entry(l, 3), other.entry(3, k)),
        )
    }

    /// Entry `(j, i)` of the inverse: the transposed cofactor over the
    /// determinant.
    pub open spec fn spec_inverse_entry(self, l: int, k: int) -> int {
        fdiv(self.spec_cofactor(k, l), self.spec_determinant())
    }

    /// The whole product matrix.
    pub open spec fn spec_mul(self, other: Matrix4) -> Matrix4 {
        Matrix4(
            [
                [
                    self.spec_mul_entry(other, 0, 0) as i128,
                    self.spec_mul_entry(other, 0, 1) as i128,
                    self.spec_mul_entry(other, 0, 2) as i128,
                    self.spec_mul_entry(other, 0, 3) as i128,
                ],
                [
                    self.spec_mul_entry(other, 1, 0) as i128,
                    self.spec_mul_entry(other, 1, 1) as i128,
                    self.spec_mul_entry(other, 1, 2) as i128,
                    self.spec_mul_entry(other, 1, 3) as i128,
                ],
                [
                    self.spec_mul_entry(other, 2, 0) as i128,
                    self.spec_mul_entry(other, 2, 1) as i128,
                    self.spec_mul_entry(other, 2, 2) as i128,
                    self.spec_mul_entry(other, 2, 3) as i128,
                ],
                [
                    self.spec_mul_entry(other, 3, 0) as i128,
                    self.spec_mul_entry(other, 3, 1) as i128,
                    self.spec_mul_entry(other, 3, 2) as i128,
                    self.spec_mul_entry(other, 3, 3) as i128,
                ],
            ],
        )
    }

    /// The whole transposed matrix.
    pub open spec fn spec_transpose(self) -> Matrix4 {
        Matrix4(
            [
                [self.0[0][0], self.0[1][0], self.0[2][0], self.0[3][0]],
                [self.0[0][1], self.0[1][1], self.0[2][1], self.0[3][1]],
                [self.0[0][2], self.0[1][2], self.0[2][2], self.0[3][2]],
                [self.0[0][3], self.0[1][3], self.0[2][3], self.0[3][3]],
            ],
        )
    }

    /// The whole inverse matrix; meaningful only when the determinant is
    /// nonzero.
    pub open spec fn spec_inverse(self) -> Matrix4 {
        Matrix4(
            [
                [
                    self.spec_inverse_entry(0, 0) as i128,
                    self.spec_inverse_entry(0, 1) as i128,
                    self.spec_inverse_entry(0, 2) as i128,
                    self.spec_inverse_entry(0, 3) as i128,
                ],
                [
                    self.spec_inverse_entry(1, 0) as i128,
                    self.spec_inverse_entry(1, 1) as i128,
                    self.spec_inverse_entry(1, 2) as i128,
                    self.spec_inverse_entry(1, 3) as i128,
                ],
                [
                    self.spec_inverse_entry(2, 0) as i128,
                    self.spec_inverse_entry(2, 1) as i128,
                    self.spec_inverse_entry(2, 2) as i128,
                    self.spec_inverse_entry(2, 3) as i128,
                ],
                [
                    self.spec_inverse_entry(3, 0) as i128,
                    self.spec_inverse_entry(3, 1) as i128,
                    self.spec_inverse_entry(3, 2) as i128,
                    self.spec_inverse_entry(3, 3) as i128,
                ],
            ],
        )
    }

    #[allow(clippy::too_many_arguments)]
    pub fn new(
        m00: Scalar,
        m01: Scalar,
        m02: Scalar,
        m03: Scalar,
        m10: Scalar,
        m11: Scalar,
        m12: Scalar,
        m13: Scalar,
        m20: Scalar,
        m21: Scalar,
        m22: Scalar,
        m23: Scalar,
        m30: Scalar,
        m31: Scalar,
        m32: Scalar,
        m33: Scalar,
    ) -> (r: Matrix4)
        requires
            in_range(m00 as int),
            in_range(m01 as int),
            in_range(m02 as int),
            in_range(m03 as int),
            in_range(m10 as int),
            in_range(m11 as int),
            in_range(m12 as int),
            in_range(m13 as int),
            in_range(m20 as int),
            in_range(m21 as int),
            in_range(m22 as int),
            in_range(m23 as int),
            in_range(m30 as int),
            in_range(m31 as int),
            in_range(m32 as int),
            in_range(m33 as int),
        ensures
            r == (Matrix4(
                [
                    [m00, m01, m02, m03],
                    [m10, m11, m12, m13],
                    [m20, m21, m22, m23],
                    [m30, m31, m32, m33],
                ],
            )),
            r.wf(),
    {
        let r = Matrix4(
            [
                [m00, m01, m02, m03],
                [m10, m11, m12, m13],
                [m20, m21, m22, m23],
                [m30, m31, m32, m33],
            ],
        );
        proof {
            assert forall|l: int, k: int| 0 <= l < 4 && 0 <= k < 4 implies in_range(
                #[trigger] r.entry(l, k),
            ) by {
                assert(r.entry(l, k) == r.0[l][k]);
            }
        }
        r
    }

    /// The identity matrix, as a spec value.
    pub open spec fn spec_identity() -> Matrix4 {
        Matrix4(
            [
                [SCALE, 0, 0, 0],
                [0, SCALE, 0, 0],
                [0, 0, SCALE, 0],
                [0, 0, 0, SCALE],
            ],
        )
    }

    /// The identity matrix.
    pub fn identity() -> (r: Matrix4)
        ensures
            r == Matrix4::spec_identity(),
            forall|l: int, k: int|
                0 <= l < 4 && 0 <= k < 4 ==> #[trigger] r.entry(l, k) == if l == k {
                    SCALE as int
                } else {
                    0
                },
            r.wf(),
    {
        let s = SCALE;
        Matrix4([[s, 0, 0, 0], [0, s, 0, 0], [0, 0, s, 0], [0, 0, 0, s]])
    }

    pub fn at(&self, l: usize, k: usize) -> (r: Scalar)
        requires
            l < 4,
            k < 4,
        ensures
            r == self.entry(l as int, k as int),
    {
        self.0[l][k]
    }

    pub fn transpose(&self) -> (r: Matrix4)
        requires
            self.wf(),
        ensures
            r == self.spec_transpose(),
            forall|l: int, k: int|
                0 <= l < 4 && 0 <= k < 4 ==> #[trigger] r.entry(l, k) == self.entry(k, l),
            r.wf(),
    {
        let m = &self.0;
        let r = Matrix4(
            [
                [m[0][0], m[1][0], m[2][0], m[3][0]],
                [m[0][1], m[1][1], m[2][1], m[3][1]],
                [m[0][2], m[1][2], m[2][2], m[3][2]],
                [m[0][3], m[1][3], m[2][3], m[3][3]],
            ],
        );
        proof {
            self.lemma_entries_in_range();
            assert forall|l2: int, k2: int| 0 <= l2 < 4 && 0 <= k2 < 4 implies in_range(
                #[trigger] r.entry(l2, k2),
            ) by {
                assert(r.entry(l2, k2) == r.0[l2][k2]);
            }
        }
        r
    }

    pub fn sub_matrix(&self, l: usize, k: usize) -> (r: Matrix3)
        requires
            l < 4,
            k < 4,
            self.wf(),
        ensures
            r == self.spec_sub_matrix(l as int, k as int),
            r.wf(),
    {
        let r0: usize = if 0 < l {
            0
        } else {
            1
        };
        let r1: usize = if 1 < l {
            1
        } else {
            2
        };
        let r2: usize = if 2 < l {
            2
        } else {
            3
        };
        let c0: usize = if 0 < k {
            0
        } else {
            1
        };
        let c1: usize = if 1 < k {
            1
        } else {
            2
        };
        let c2: usize = if 2 < k {
            2
        } else {
            3
        };
        let r = Matrix3(
            [
                [self.0[r0][c0], self.0[r0][c1], self.0[r0][c2]],
                [self.0[r1][c0], self.0[r1][c1], self.0[r1][c2]],
                [self.0[r2][c0], self.0[r2][c1], self.0[r2][c2]],
            ],
        );
        proof {
            self.lemma_entries_in_range();
            assert forall|l2: int, k2: int| 0 <= l2 < 3 && 0 <= k2 < 3 implies in_range(
                #[trigger] r.entry(l2, k2),
            ) by {
                assert(r.entry(l2, k2) == r.0[l2][k2]);
            }
        }
        r
    }

    pub fn minor(&self, l: usize, k: usize) -> (r: Scalar)
        requires
            l < 4,
            k < 4,
            self.wf(),
        ensures
            r == self.spec_minor(l as int, k as int),
            in_range(r as int),
    {
        self.sub_matrix(l, k).determinant()
    }

    pub fn cofactor(&self, l: usize, k: usize) -> (r: Scalar)
        requires
            l < 4,
            k < 4,
            self.wf(),
        ensures
            r == self.spec_cofactor(l as int, k as int),
            in_range(r as int),
    {
        let m = self.minor(l, k);
        if (l + k) % 2 == 0 {
            m
        } else {
            scalar_neg(m)
        }
    }

    pub fn determinant(&self) -> (r: Scalar)
        requires
            self.wf(),
        ensures
            r == self.spec_determinant(),
            in_range(r as int),
    {
        proof {
            self.lemma_entries_in_range();
        }
        let c0 = scalar_mul(self.0[0][0], self.cofactor(0, 0));
        let c1 = scalar_mul(self.0[0][1], self.cofactor(0, 1));
        let c2 = scalar_mul(self.0[0][2], self.cofactor(0, 2));
        let c3 = scalar_mul(self.0[0][3], self.cofactor(0, 3));
        scalar_add(scalar_add(scalar_add(c0, c1), c2), c3)
    }

    /// A matrix is invertible exactly when its determinant is nonzero.
    pub fn is_invertible(&self) -> (r: bool)
        requires
            self.wf(),
        ensures
            r == (self.spec_determinant() != 0),
    {
        self.determinant() != 0
    }

    /// The adjugate over the determinant. Returns `None` exactly on a
    /// singular matrix, whose determinant is zero.
    #[verifier::rlimit(100)]
    pub fn inverse(&self) -> (r: Option<Matrix4>)
        requires
            self.wf(),
        ensures
            self.spec_determinant() == 0 <==> r is None,
            r matches Some(m) ==> {
                &&& m == self.spec_inverse()
                &&& forall|l: int, k: int|
                    0 <= l < 4 && 0 <= k < 4 ==> #[trigger] m.entry(l, k)
                        == self.spec_inverse_entry(l, k)
                &&& m.wf()
            },
    {
        let det = self.determinant();
        if det == 0 {
            return None;
        }
        let r = Matrix4(
            [
                [
                    self.inverse_entry(0, 0, det),
                    self.inverse_entry(0, 1, det),
                    self.inverse_entry(0, 2, det),
                    self.inverse_entry(0, 3, det),
                ],
                [
                    self.inverse_entry(1, 0, det),
                    self.inverse_entry(1, 1, det),
                    self.inverse_entry(1, 2, det),
                    self.inverse_entry(1, 3, det),
                ],
                [
                    self.inverse_entry(2, 0, det),
                    self.inverse_entry(2, 1, det),
                    self.inverse_entry(2, 2, det),
                    self.inverse_entry(2, 3, det),
                ],
                [
                    self.inverse_entry(3, 0, det),
                    self.inverse_entry(3, 1, det),
                    self.inverse_entry(3, 2, det),
                    self.inverse_entry(3, 3, det),
                ],
            ],
        );
        proof {
            assert forall|l: int, k: int| 0 <= l < 4 && 0 <= k < 4 implies in_range(
                #[trigger] r.entry(l, k),
            ) by {
                assert(r.entry(l, k) == r.0[l][k]);
            }
        }
        Some(r)
    }

    fn inverse_entry(&self, l: usize, k: usize, det: Scalar) -> (r: Scalar)
        requires
            l < 4,
            k < 4,
            self.wf(),
            det == self.spec_determinant(),
            det != 0,
            in_range(det as int),
        ensures
            r == self.spec_inverse_entry(l as int, k as int),
            in_range(r as int),
    {
        scalar_div(self.cofactor(k, l), det)
    }

    /// Matrix product, row by column.
    pub fn mul(&self, other: &Matrix4) -> (r: Matrix4)
        requires
            self.wf(),
            other.wf(),
        ensures
            r == self.spec_mul(*other),
            forall|l: int, k: int|
                0 <= l < 4 && 0 <= k < 4 ==> #[trigger] r.entry(l, k) == self.spec_mul_entry(
                    *other,
                    l,
                    k,
                ),
            r.wf(),
    {
        let r = Matrix4(
            [
                [
                    self.mul_entry(other, 0, 0),
                    self.mul_entry(other, 0, 1),
                    self.mul_entry(other, 0, 2),
                    self.mul_entry(other, 0, 3),
                ],
                [
                    self.mul_entry(other, 1, 0),
                    self.mul_entry(other, 1, 1),
                    self.mul_entry(other, 1, 2),
                    self.mul_entry(other, 1, 3),
                ],
                [
                    self.mul_entry(other, 2, 0),
                    self.mul_entry(other, 2, 1),
                    self.mul_entry(other, 2, 2),
                    self.mul_entry(other, 2, 3),
                ],
                [
                    self.mul_entry(other, 3, 0),
                    self.mul_entry(other, 3, 1),
                    self.mul_entry(other, 3, 2),
                    self.mul_entry(other, 3, 3),
                ],
            ],
        );
        proof {
            assert forall|l: int, k: int| 0 <= l < 4 && 0 <= k < 4 implies in_range(
                #[trigger] r.entry(l, k),
            ) by {
                assert(r.entry(l, k) == r.0[l][k]);
            }
        }
        r
    }

    fn mul_entry(&self, other: &Matrix4, l: usize, k: usize) -> (r: Scalar)
        requires
            l < 4,
            k < 4,
            self.wf(),
            other.wf(),
        ensures
            r == self.spec_mul_entry(*other, l as int, k as int),
            in_range(r as int),
    {
        proof {
            self.lemma_entries_in_range();
            other.lemma_entries_in_range();
        }
        let p0 = scalar_mul(self.0[l][0], other.0[0][k]);
        let p1 = scalar_mul(self.0[l][1], other.0[1][k]);
        let p2 = scalar_mul(self.0[l][2], other.0[2][k]);
        let p3 = scalar_mul(self.0[l][3], other.0[3][k]);
        scalar_add(scalar_add(scalar_add(p0, p1), p2), p3)
    }

    /// Entry `l` of the product `self * tuple`.
    pub open spec fn spec_mul_tuple_entry(self, t: Tuple, l: int) -> int {
        fadd(
            fadd(
                fadd(fmul(self.entry(l, 0), t.x as int), fmul(self.entry(l, 1), t.y as int)),
                fmul(self.entry(l, 2), t.z as int),
            ),
            fmul(self.entry(l, 3), t.w as int),
        )
    }

    pub open spec fn spec_mul_tuple(self, t: Tuple) -> Tuple {
        Tuple {
            x: self.spec_mul_tuple_entry(t, 0) as i128,
            y: self.spec_mul_tuple_entry(t, 1) as i128,
            z: self.spec_mul_tuple_entry(t, 2) as i128,
            w: self.spec_mul_tuple_entry(t, 3) as i128,
        }
    }

    /// Matrix-tuple product: each row dotted with the tuple.
    pub fn mul_tuple(&self, t: &Tuple) -> (r: Tuple)
        requires
            self.wf(),
            t.wf(),
        ensures
            r == self.spec_mul_tuple(*t),
            r.wf(),
    {
        Tuple {
            x: self.mul_tuple_entry(t, 0),
            y: self.mul_tuple_entry(t, 1),
            z: self.mul_tuple_entry(t, 2),
            w: self.mul_tuple_entry(t, 3),
        }
    }

    fn mul_tuple_entry(&self, t: &Tuple, l: usize) -> (r: Scalar)
        requires
            l < 4,
            self.wf(),
            t.wf(),
        ensures
            r == self.spec_mul_tuple_entry(*t, l as int),
            in_range(r as int),
    {
        proof {
            self.lemma_entries_in_range();
        }
        let p0 = scalar_mul(self.0[l][0], t.x);
        let p1 = scalar_mul(self.0[l][1], t.y);
        let p2 = scalar_mul(self.0[l][2], t.z);
        let p3 = scalar_mul(self.0[l][3], t.w);
        scalar_add(scalar_add(scalar_add(p0, p1), p2), p3)
    }
}

} // verus!
