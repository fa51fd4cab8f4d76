//! Fixed-point scalar arithmetic.
//!
//! A scalar holds a real quantity times [`SCALE`] (a decimal scale, so common
//! coefficients such as 0.1 or 0.9 are represented exactly). Every operation
//! saturates at [`SCALAR_MAX`] in magnitude, which keeps the whole algebra
//! total: the saturation bound is chosen so that no intermediate `i128`
//! product can overflow once both operands are in range.

use vstd::arithmetic::div_mod::{lemma_fundamental_div_mod, lemma_fundamental_div_mod_converse};
use vstd::prelude::*;

verus! {

/// Number of fixed-point units per real unit.
pub const SCALE: i128 = 1_000_000_000;

/// Largest scalar magnitude: 10^19 units, ten billion real units.
pub const SCALAR_MAX: i128 = 10_000_000_000_000_000_000;

/// A fixed-point scalar: the real value times [`SCALE`].
pub type Scalar = i128;

/// The scalar is within the saturation bound.
pub open spec fn in_range(a: int) -> bool {
    -SCALAR_MAX <= a && a <= SCALAR_MAX
}

/// Saturate a quantity at the scalar bound.
pub open spec fn clip(a: int) -> int {
    if a > SCALAR_MAX {
        SCALAR_MAX as int
    } else if a < -SCALAR_MAX {
        -SCALAR_MAX as int
    } else {
        a
    }
}

/// Fixed-point sum.
pub open spec fn fadd(a: int, b: int) -> int {
    clip(a + b)
}

/// Fixed-point difference.
pub open spec fn fsub(a: int, b: int) -> int {
    clip(a - b)
}

/// Fixed-point product: the exact product, rescaled by Euclidean division.
pub open spec fn fmul(a: int, b: int) -> int {
    clip((a * b) / (SCALE as int))
}

/// Floor division: reduces a negative divisor to the positive case, so the
/// quotient always rounds toward negative infinity.
pub open spec fn sdiv(a: int, b: int) -> int {
    if b >= 0 {
        a / b
    } else {
        (-a) / (-b)
    }
}

/// Fixed-point quotient; division by zero is defined as zero.
pub open spec fn fdiv(a: int, b: int) -> int {
    if b == 0 {
        0
    } else {
        clip(sdiv(a * SCALE, b))
    }
}

/// Floor to a whole number of real units, still in fixed-point form.
pub open spec fn ffloor(a: int) -> int {
    (a / (SCALE as int)) * SCALE
}

/// Whole real units below `a`: the integer floor of the real value.
pub open spec fn funits(a: int) -> int {
    a / (SCALE as int)
}

/// Integer square root, defined by counting up.
pub open spec fn isqrt_spec(n: nat) -> nat
    decreases n,
{
    if n == 0 {
        0
    } else {
        let r = isqrt_spec((n - 1) as nat);
        if (r + 1) * (r + 1) <= n {
            r + 1
        } else {
            r
        }
    }
}

/// Fixed-point square root of a nonnegative scalar; negative input yields zero.
pub open spec fn fsqrt(a: int) -> int {
    if a <= 0 {
        0
    } else {
        isqrt_spec((a * SCALE) as nat) as int
    }
}

/// `isqrt_spec(n)` is the exact integer square root of `n`.
pub proof fn lemma_isqrt_bounds(n: nat)
    ensures
        isqrt_spec(n) * isqrt_spec(n) <= n,
        n < (isqrt_spec(n) + 1) * (isqrt_spec(n) + 1),
    decreases n,
{
    let s = isqrt_spec(n);
    if n == 0 {
        assert(s * s <= n && n < (s + 1) * (s + 1)) by (nonlinear_arith)
            requires
                s == 0,
                n == 0,
        ;
    } else {
        lemma_isqrt_bounds((n - 1) as nat);
        let r = isqrt_spec((n - 1) as nat);
        if (r + 1) * (r + 1) <= n {
            assert(s * s <= n && n < (s + 1) * (s + 1)) by (nonlinear_arith)
                requires
                    s == r + 1,
                    (r + 1) * (r + 1) <= n,
                    n - 1 < (r + 1) * (r + 1),
            ;
        } else {
            assert(s * s <= n && n < (s + 1) * (s + 1)) by (nonlinear_arith)
                requires
                    s == r,
                    r * r <= n - 1,
                    n < (r + 1) * (r + 1),
            ;
        }
    }
}

/// The bracketing property determines the integer square root uniquely.
pub proof fn lemma_isqrt_unique(n: nat, r: nat)
    requires
        r * r <= n,
        n < (r + 1) * (r + 1),
    ensures
        r == isqrt_spec(n),
{
    lemma_isqrt_bounds(n);
    let s = isqrt_spec(n);
    assert(r == s) by (nonlinear_arith)
        requires
            r * r <= n,
            n < (r + 1) * (r + 1),
            s * s <= n,
            n < (s + 1) * (s + 1),
    ;
}

/// Shadow bias: hit points are lifted this far along the normal before a
/// shadow ray is cast, to avoid self-occlusion.
pub const EPSILON: i128 = 10_000;

/// Fixed-point power with a whole-number exponent.
pub open spec fn fpow(a: int, n: nat) -> int
    decreases n,
{
    if n == 0 {
        SCALE as int
    } else {
        fmul(a, fpow(a, (n - 1) as nat))
    }
}

/// A fixed-point square is never negative.
pub proof fn lemma_fmul_square_nonneg(a: int)
    ensures
        0 <= fmul(a, a),
{
    assert(0 <= a * a) by (nonlinear_arith);
    vstd::arithmetic::div_mod::lemma_div_pos_is_pos(a * a, SCALE as int);
}

/// Saturate a value at the scalar bound.
pub fn clip_x(a: i128) -> (r: i128)
    ensures
        r == clip(a as int),
{
    if a > SCALAR_MAX {
        SCALAR_MAX
    } else if a < -SCALAR_MAX {
        -SCALAR_MAX
    } else {
        a
    }
}

/// Floor division: quotient of `a` by `b`, rounded toward negative infinity.
fn div_floor_x(a: i128, b: i128) -> (q: i128)
    requires
        b != 0,
        a != i128::MIN,
        b != i128::MIN,
    ensures
        q == sdiv(a as int, b as int),
{
    let x: i128 = if b < 0 {
        -a
    } else {
        a
    };
    let d: i128 = if b < 0 {
        -b
    } else {
        b
    };
    let ux: u128 = if x < 0 {
        (-x) as u128
    } else {
        x as u128
    };
    let ud: u128 = d as u128;
    let q0 = ux / ud;
    let r0 = ux % ud;
    proof {
        lemma_fundamental_div_mod(ux as int, ud as int);
        assert(q0 as int <= ux as int && 0 <= r0 as int && (r0 as int) < ud as int)
            by (nonlinear_arith)
            requires
                ud as int >= 1,
                q0 == ux as int / ud as int,
                r0 == ux as int % ud as int,
        ;
    }
    if x >= 0 {
        q0 as i128
    } else if r0 == 0 {
        proof {
            assert((-(q0 as int)) * (ud as int) == -((q0 as int) * (ud as int)))
                by (nonlinear_arith);
            lemma_fundamental_div_mod_converse(x as int, ud as int, -(q0 as int), 0);
        }
        -(q0 as i128)
    } else {
        proof {
            assert((-(q0 as int) - 1) * (ud as int) == -((q0 as int) * (ud as int)) - ud as int)
                by (nonlinear_arith);
            lemma_fundamental_div_mod_converse(
                x as int,
                ud as int,
                -(q0 as int) - 1,
                (ud - r0) as int,
            );
        }
        -(q0 as i128) - 1
    }
}

/// Fixed-point sum, saturating.
pub fn scalar_add(a: Scalar, b: Scalar) -> (r: Scalar)
    requires
        in_range(a as int),
        in_range(b as int),
    ensures
        r == fadd(a as int, b as int),
        in_range(r as int),
{
    clip_x(a + b)
}

/// Fixed-point difference, saturating.
pub fn scalar_sub(a: Scalar, b: Scalar) -> (r: Scalar)
    requires
        in_range(a as int),
        in_range(b as int),
    ensures
        r == fsub(a as int, b as int),
        in_range(r as int),
{
    clip_x(a - b)
}

/// Fixed-point negation.
pub fn scalar_neg(a: Scalar) -> (r: Scalar)
    requires
        in_range(a as int),
    ensures
        r == -(a as int),
        in_range(r as int),
{
    -a
}

/// Fixed-point product, saturating.
pub fn scalar_mul(a: Scalar, b: Scalar) -> (r: Scalar)
    requires
        in_range(a as int),
        in_range(b as int),
    ensures
        r == fmul(a as int, b as int),
        in_range(r as int),
{
    proof {
        assert(-(SCALAR_MAX as int) * SCALAR_MAX <= a as int * b as int <= SCALAR_MAX as int
            * SCALAR_MAX) by (nonlinear_arith)
            requires
                in_range(a as int),
                in_range(b as int),
        ;
    }
    let p: i128 = a * b;
    let q = div_floor_x(p, SCALE);
    proof {
        lemma_fundamental_div_mod(p as int, SCALE as int);
    }
    clip_x(q)
}

/// Fixed-point quotient, saturating. The divisor must be nonzero.
pub fn scalar_div(a: Scalar, b: Scalar) -> (r: Scalar)
    requires
        in_range(a as int),
        in_range(b as int),
        b != 0,
    ensures
        r == fdiv(a as int, b as int),
        in_range(r as int),
{
    let p: i128 = a * SCALE;
    let q = div_floor_x(p, b);
    proof {
        lemma_fundamental_div_mod(p as int, b as int);
    }
    clip_x(q)
}

/// Floor to a whole number of real units.
pub fn scalar_floor(a: Scalar) -> (r: Scalar)
    requires
        in_range(a as int),
    ensures
        r == ffloor(a as int),
        in_range(r as int),
        r <= a,
{
    let q = div_floor_x(a, SCALE);
    proof {
        lemma_fundamental_div_mod(a as int, SCALE as int);
    }
    q * SCALE
}

/// Whole real units below `a`, as a plain integer.
pub fn scalar_units(a: Scalar) -> (r: i128)
    requires
        in_range(a as int),
    ensures
        r == funits(a as int),
{
    let q = div_floor_x(a, SCALE);
    proof {
        lemma_fundamental_div_mod(a as int, SCALE as int);
    }
    q
}

/// Fixed-point power, by repeated multiplication.
pub fn scalar_pow(a: Scalar, n: u32) -> (r: Scalar)
    requires
        in_range(a as int),
    ensures
        r == fpow(a as int, n as nat),
        in_range(r as int),
{
    let mut result: i128 = SCALE;
    let mut i: u32 = 0;
    while i < n
        invariant
            i <= n,
            in_range(a as int),
            in_range(result as int),
            result == fpow(a as int, i as nat),
        decreases n - i,
    {
        result = scalar_mul(a, result);
        i = i + 1;
    }
    result
}

/// Whether a whole number of units is even.
pub fn units_even(n: i128) -> (r: bool)
    requires
        n != i128::MIN,
    ensures
        r == (n as int % 2 == 0),
{
    let m: u128 = if n < 0 {
        (-n) as u128
    } else {
        n as u128
    };
    let rem = m % 2;
    proof {
        lemma_fundamental_div_mod(m as int, 2);
        if n < 0 {
            let k = m as int / 2;
            if rem == 0 {
                assert((-k) * 2 + 0 == n as int);
                lemma_fundamental_div_mod_converse(n as int, 2, -k, 0);
            } else {
                assert(rem == 1);
                assert((-k - 1) * 2 + 1 == n as int);
                lemma_fundamental_div_mod_converse(n as int, 2, -k - 1, 1);
            }
        }
    }
    rem == 0
}

/// Integer square root by bisection.
fn isqrt_x(n: u128) -> (r: u128)
    ensures
        r == isqrt_spec(n as nat),
        r * r <= n,
{
    let mut lo: u128 = 0;
    let mut hi: u128 = 0x1_0000_0000_0000_0000;
    proof {
        assert((hi as int) * (hi as int) > n as int) by (nonlinear_arith)
            requires
                hi == 0x1_0000_0000_0000_0000u128,
                n <= u128::MAX,
        ;
    }
    while lo + 1 < hi
        invariant
            lo < hi,
            hi <= 0x1_0000_0000_0000_0000,
            (lo as int) * (lo as int) <= n as int,
            (hi as int) * (hi as int) > n as int,
        decreases hi - lo,
    {
        let mid = lo + (hi - lo) / 2;
        proof {
            assert((mid as int) * (mid as int) <= u128::MAX as int) by (nonlinear_arith)
                requires
                    mid < 0x1_0000_0000_0000_0000u128,
            ;
        }
        if mid * mid <= n {
            lo = mid;
        } else {
            hi = mid;
        }
    }
    proof {
        lemma_isqrt_unique(n as nat, lo as nat);
    }
    lo
}

/// Fixed-point square root of a nonnegative scalar.
pub fn scalar_sqrt(a: Scalar) -> (r: Scalar)
    requires
        0 <= a,
        in_range(a as int),
    ensures
        r == fsqrt(a as int),
        0 <= r,
        in_range(r as int),
{
    if a == 0 {
        return 0;
    }
    proof {
        assert((a as int) * (SCALE as int) <= (SCALAR_MAX as int) * (SCALE as int))
            by (nonlinear_arith)
            requires
                0 < a as int <= SCALAR_MAX as int,
                SCALE as int > 0,
        ;
    }
    let n: u128 = (a as u128) * (SCALE as u128);
    let r = isqrt_x(n);
    proof {
        lemma_isqrt_bounds(n as nat);
        // The root of at most 10^28 is well below the scalar bound.
        assert(r as int <= SCALAR_MAX as int) by (nonlinear_arith)
            requires
                (r as int) * (r as int) <= n as int,
                n as int <= (SCALAR_MAX as int) * (SCALE as int),
                SCALAR_MAX == 10_000_000_000_000_000_000i128,
                SCALE == 1_000_000_000i128,
        ;
    }
    r as i128
}

} // verus!
