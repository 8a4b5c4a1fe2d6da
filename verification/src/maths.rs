//! Three-component vector algebra over fixed-point scalars, plus the
//! two-component pixel coordinates used by the ray generator.
//!
//! `length` and `normalize` are computed from the exact sum of raw
//! squares (no intermediate truncation), so the zero test in
//! `normalize` is exact: only the zero vector has `norm2 == 0`.

use vstd::prelude::*;

use crate::fixed::{
    abs_int, fx_add, fx_mul, fx_sub, isqrt_u128, lemma_sqrt_floor_props, sat64, sqrt_floor, tdivz,
    Fx, FX_SCALE,
};

verus! {

/// A 2-D point (pixel coordinates with sub-pixel offsets).
#[derive(Clone, Copy, Debug, PartialEq, Eq, Structural)]
pub struct Vec2 {
    pub x: Fx,
    pub y: Fx,
}

impl Vec2 {
    pub fn new(x: Fx, y: Fx) -> (r: Vec2)
        ensures
            r == (Vec2 { x, y }),
    {
        Vec2 { x, y }
    }

    pub fn x(&self) -> (r: Fx)
        ensures
            r == self.x,
    {
        self.x
    }

    pub fn y(&self) -> (r: Fx)
        ensures
            r == self.y,
    {
        self.y
    }

    pub open spec fn spec_add(self, rhs: Vec2) -> Vec2 {
        Vec2 { x: fxv(fx_add(self.x.raw as int, rhs.x.raw as int)), y: fxv(
            fx_add(self.y.raw as int, rhs.y.raw as int),
        ) }
    }

    pub fn add(self, rhs: Vec2) -> (r: Vec2)
        ensures
            r == self.spec_add(rhs),
    {
        Vec2 { x: self.x.add(rhs.x), y: self.y.add(rhs.y) }
    }
}

/// Build a fixed-point scalar from an in-range mathematical integer.
pub open spec fn fxv(r: int) -> Fx {
    Fx { raw: r as i64 }
}

/// A 3-D vector.
#[derive(Clone, Copy, Debug, PartialEq, Eq, Structural)]
pub struct Vec3 {
    pub x: Fx,
    pub y: Fx,
    pub z: Fx,
}

impl Vec3 {
    pub fn new(x: Fx, y: Fx, z: Fx) -> (r: Vec3)
        ensures
            r == (Vec3 { x, y, z }),
    {
        Vec3 { x, y, z }
    }

    pub fn zero() -> (r: Vec3)
        ensures
            r == Vec3::spec_zero(),
    {
        Vec3 { x: Fx { raw: 0 }, y: Fx { raw: 0 }, z: Fx { raw: 0 } }
    }

    pub open spec fn spec_zero() -> Vec3 {
        Vec3 { x: fxv(0), y: fxv(0), z: fxv(0) }
    }

    pub fn x(&self) -> (r: Fx)
        ensures
            r == self.x,
    {
        self.x
    }

    pub fn y(&self) -> (r: Fx)
        ensures
            r == self.y,
    {
        self.y
    }

    pub fn z(&self) -> (r: Fx)
        ensures
            r == self.z,
    {
        self.z
    }

    pub open spec fn spec_add(self, rhs: Vec3) -> Vec3 {
        Vec3 {
            x: fxv(fx_add(self.x.raw as int, rhs.x.raw as int)),
            y: fxv(fx_add(self.y.raw as int, rhs.y.raw as int)),
            z: fxv(fx_add(self.z.raw as int, rhs.z.raw as int)),
        }
    }

    pub fn add(self, rhs: Vec3) -> (r: Vec3)
        ensures
            r == self.spec_add(rhs),
    {
        Vec3 { x: self.x.add(rhs.x), y: self.y.add(rhs.y), z: self.z.add(rhs.z) }
    }

    pub open spec fn spec_sub(self, rhs: Vec3) -> Vec3 {
        Vec3 {
            x: fxv(fx_sub(self.x.raw as int, rhs.x.raw as int)),
            y: fxv(fx_sub(self.y.raw as int, rhs.y.raw as int)),
            z: fxv(fx_sub(self.z.raw as int, rhs.z.raw as int)),
        }
    }

    pub fn sub(self, rhs: Vec3) -> (r: Vec3)
        ensures
            r == self.spec_sub(rhs),
    {
        Vec3 { x: self.x.sub(rhs.x), y: self.y.sub(rhs.y), z: self.z.sub(rhs.z) }
    }

    pub open spec fn spec_neg(self) -> Vec3 {
        Vec3 {
            x: fxv(sat64(-(self.x.raw as int))),
            y: fxv(sat64(-(self.y.raw as int))),
            z: fxv(sat64(-(self.z.raw as int))),
        }
    }

    pub fn neg(self) -> (r: Vec3)
        ensures
            r == self.spec_neg(),
    {
        Vec3 { x: self.x.neg(), y: self.y.neg(), z: self.z.neg() }
    }

    pub open spec fn spec_abs(self) -> Vec3 {
        Vec3 {
            x: fxv(sat64(abs_int(self.x.raw as int))),
            y: fxv(sat64(abs_int(self.y.raw as int))),
            z: fxv(sat64(abs_int(self.z.raw as int))),
        }
    }

    pub fn abs(&self) -> (r: Vec3)
        ensures
            r == self.spec_abs(),
    {
        Vec3 { x: self.x.abs(), y: self.y.abs(), z: self.z.abs() }
    }

    /// Scale every component by a fixed-point scalar.
    pub open spec fn spec_scale(self, rhs: Fx) -> Vec3 {
        Vec3 {
            x: fxv(fx_mul(self.x.raw as int, rhs.raw as int)),
            y: fxv(fx_mul(self.y.raw as int, rhs.raw as int)),
            z: fxv(fx_mul(self.z.raw as int, rhs.raw as int)),
        }
    }

    pub fn scale(self, rhs: Fx) -> (r: Vec3)
        ensures
            r == self.spec_scale(rhs),
    {
        Vec3 { x: self.x.mul(rhs), y: self.y.mul(rhs), z: self.z.mul(rhs) }
    }

    /// Divide every component by a fixed-point scalar.
    pub open spec fn spec_div_scalar(self, rhs: Fx) -> Vec3 {
        Vec3 {
            x: fxv(crate::fixed::fx_div(self.x.raw as int, rhs.raw as int)),
            y: fxv(crate::fixed::fx_div(self.y.raw as int, rhs.raw as int)),
            z: fxv(crate::fixed::fx_div(self.z.raw as int, rhs.raw as int)),
        }
    }

    pub fn div_scalar(self, rhs: Fx) -> (r: Vec3)
        ensures
            r == self.spec_div_scalar(rhs),
    {
        Vec3 { x: self.x.div(rhs), y: self.y.div(rhs), z: self.z.div(rhs) }
    }

    /// The dot product, with each term rounded as fixed-point
    /// multiplication rounds.
    pub open spec fn spec_dot(self, rhs: Vec3) -> int {
        fx_add(
            fx_add(
                fx_mul(self.x.raw as int, rhs.x.raw as int),
                fx_mul(self.y.raw as int, rhs.y.raw as int),
            ),
            fx_mul(self.z.raw as int, rhs.z.raw as int),
        )
    }

    /// Dot product.
    pub fn scalar_mul(self, rhs: Vec3) -> (r: Fx)
        ensures
            r.raw == self.spec_dot(rhs),
    {
        self.x.mul(rhs.x).add(self.y.mul(rhs.y)).add(self.z.mul(rhs.z))
    }

    pub open spec fn spec_cross(self, rhs: Vec3) -> Vec3 {
        Vec3 {
            x: fxv(
                fx_sub(
                    fx_mul(self.y.raw as int, rhs.z.raw as int),
                    fx_mul(self.z.raw as int, rhs.y.raw as int),
                ),
            ),
            y: fxv(
                fx_sub(
                    fx_mul(self.z.raw as int, rhs.x.raw as int),
                    fx_mul(self.x.raw as int, rhs.z.raw as int),
                ),
            ),
            z: fxv(
                fx_sub(
                    fx_mul(self.x.raw as int, rhs.y.raw as int),
                    fx_mul(self.y.raw as int, rhs.x.raw as int),
                ),
            ),
        }
    }

    pub fn cross(self, rhs: Vec3) -> (r: Vec3)
        ensures
            r == self.spec_cross(rhs),
    {
        Vec3 {
            x: self.y.mul(rhs.z).sub(self.z.mul(rhs.y)),
            y: self.z.mul(rhs.x).sub(self.x.mul(rhs.z)),
            z: self.x.mul(rhs.y).sub(self.y.mul(rhs.x)),
        }
    }

    /// Exact sum of the squared raw components (raw-squared units).
    pub open spec fn norm2(self) -> int {
        (self.x.raw as int) * (self.x.raw as int) + (self.y.raw as int) * (self.y.raw as int) + (
        self.z.raw as int) * (self.z.raw as int)
    }

    /// Euclidean length: floor of the square root of the exact sum of
    /// squares (clamped into range).
    pub open spec fn spec_length(self) -> Fx {
        fxv(sat64(sqrt_floor(self.norm2())))
    }

    pub fn length(&self) -> (r: Fx)
        ensures
            r == self.spec_length(),
    {
        let l: u64 = norm_u64(*self);
        if l > i64::MAX as u64 {
            Fx { raw: i64::MAX }
        } else {
            Fx { raw: l as i64 }
        }
    }

    /// Zero-safe normalization: the zero vector stays the zero vector;
    /// any other vector has each component divided (with truncation
    /// toward zero) by the floor of its length.
    pub open spec fn spec_normalize(self) -> Vec3 {
        if self.norm2() == 0 {
            self
        } else {
            let l = sqrt_floor(self.norm2());
            Vec3 {
                x: fxv(tdivz((self.x.raw as int) * (FX_SCALE as int), l)),
                y: fxv(tdivz((self.y.raw as int) * (FX_SCALE as int), l)),
                z: fxv(tdivz((self.z.raw as int) * (FX_SCALE as int), l)),
            }
        }
    }

    pub fn normalize(&self) -> (r: Vec3)
        ensures
            r == self.spec_normalize(),
            self.norm2() == 0 ==> r == *self,
    {
        let l: u64 = norm_u64(*self);
        proof {
            lemma_norm2_nonneg(*self);
            lemma_sqrt_floor_props(self.norm2());
        }
        if l == 0 {
            proof {
                assert(sqrt_floor(self.norm2()) == 0);
                assert(self.norm2() < (0 + 1) * (0 + 1));
                assert(self.norm2() == 0);
            }
            *self
        } else {
            proof {
                lemma_component_le_norm(*self);
            }
            Vec3 {
                x: normalize_component(self.x, l),
                y: normalize_component(self.y, l),
                z: normalize_component(self.z, l),
            }
        }
    }
}

/// Divide one raw component by the norm, truncating toward zero.
fn normalize_component(c: Fx, l: u64) -> (r: Fx)
    requires
        1 <= l,
        abs_int(c.raw as int) <= l,
    ensures
        r.raw == tdivz((c.raw as int) * (FX_SCALE as int), l as int),
{
    let neg: bool = c.raw < 0;
    let m: u128 = if neg {
        (-(c.raw as i128)) as u128
    } else {
        c.raw as u128
    };
    let q: u128 = m * (FX_SCALE as u128) / (l as u128);
    proof {
        assert((m as int) * (FX_SCALE as int) / (l as int) <= (l as int) * (FX_SCALE as int) / (
        l as int)) by {
            vstd::arithmetic::div_mod::lemma_div_is_ordered(
                (m as int) * (FX_SCALE as int),
                (l as int) * (FX_SCALE as int),
                l as int,
            );
            assert((m as int) * (FX_SCALE as int) <= (l as int) * (FX_SCALE as int))
                by (nonlinear_arith)
                requires
                    m <= l,
                    FX_SCALE == 65536,
            ;
        }
        assert((l as int) * (FX_SCALE as int) / (l as int) == FX_SCALE as int) by {
            vstd::arithmetic::div_mod::lemma_div_multiples_vanish(
                FX_SCALE as int,
                l as int,
            );
        }
    }
    if neg {
        Fx { raw: -((q as i64)) }
    } else {
        Fx { raw: q as i64 }
    }
}

/// A sum of squares is never negative.
pub proof fn lemma_norm2_nonneg(v: Vec3)
    ensures
        v.norm2() >= 0,
{
    assert(
        (v.x.raw as int) * (v.x.raw as int) >= 0 && (v.y.raw as int) * (v.y.raw as int) >= 0 && (
        v.z.raw as int) * (v.z.raw as int) >= 0) by (nonlinear_arith);
}

/// The exact sum of squares is zero only for the zero vector.
pub proof fn lemma_norm_zero_iff_zero(v: Vec3)
    ensures
        (v.norm2() == 0) <==> (v.x.raw == 0 && v.y.raw == 0 && v.z.raw == 0),
{
    assert(
        (v.x.raw as int) * (v.x.raw as int) >= 0 && (v.y.raw as int) * (v.y.raw as int) >= 0 && (
        v.z.raw as int) * (v.z.raw as int) >= 0) by (nonlinear_arith);
    if v.norm2() == 0 {
        assert(v.x.raw == 0 && v.y.raw == 0 && v.z.raw == 0) by (nonlinear_arith)
            requires
                (v.x.raw as int) * (v.x.raw as int) + (v.y.raw as int) * (v.y.raw as int) + (
                v.z.raw as int) * (v.z.raw as int) == 0,
        ;
    }
}

/// Each component's magnitude is at most the floor of the length.
pub proof fn lemma_component_le_norm(v: Vec3)
    ensures
        abs_int(v.x.raw as int) <= sqrt_floor(v.norm2()),
        abs_int(v.y.raw as int) <= sqrt_floor(v.norm2()),
        abs_int(v.z.raw as int) <= sqrt_floor(v.norm2()),
{
    let n = v.norm2();
    lemma_norm2_nonneg(v);
    assert(n >= (v.x.raw as int) * (v.x.raw as int) && n >= (v.y.raw as int) * (v.y.raw as int)
        && n >= (v.z.raw as int) * (v.z.raw as int)) by (nonlinear_arith)
        requires
            n == (v.x.raw as int) * (v.x.raw as int) + (v.y.raw as int) * (v.y.raw as int) + (
            v.z.raw as int) * (v.z.raw as int),
    ;
    lemma_sqrt_floor_props(n);
    let l = sqrt_floor(n);
    lemma_abs_le_sqrt(v.x.raw as int, n, l);
    lemma_abs_le_sqrt(v.y.raw as int, n, l);
    lemma_abs_le_sqrt(v.z.raw as int, n, l);
}

proof fn lemma_abs_le_sqrt(c: int, n: int, l: int)
    requires
        c * c <= n,
        l >= 0,
        n < (l + 1) * (l + 1),
    ensures
        abs_int(c) <= l,
{
    if abs_int(c) > l {
        assert((l + 1) * (l + 1) <= abs_int(c) * abs_int(c)) by (nonlinear_arith)
            requires
                l + 1 <= abs_int(c),
                l >= 0,
        ;
        assert(abs_int(c) * abs_int(c) == c * c) by (nonlinear_arith);
    }
}

/// Exact Euclidean norm floor of a vector, as a machine integer.
fn norm_u64(v: Vec3) -> (r: u64)
    ensures
        r == sqrt_floor(v.norm2()),
{
    let xx: u128 = sq_u128(v.x.raw);
    let yy: u128 = sq_u128(v.y.raw);
    let zz: u128 = sq_u128(v.z.raw);
    proof {
        assert(xx <= 0x4000_0000_0000_0000_0000_0000_0000_0000u128 && yy
            <= 0x4000_0000_0000_0000_0000_0000_0000_0000u128 && zz
            <= 0x4000_0000_0000_0000_0000_0000_0000_0000u128);
    }
    isqrt_u128(xx + yy + zz)
}

/// Square of an `i64`, as an exact `u128`.
fn sq_u128(a: i64) -> (r: u128)
    ensures
        r == (a as int) * (a as int),
        r <= 0x4000_0000_0000_0000_0000_0000_0000_0000u128,
{
    let m: u128 = if a < 0 {
        (-(a as i128)) as u128
    } else {
        a as u128
    };
    proof {
        assert(m == abs_int(a as int));
        assert((m as int) * (m as int) == (a as int) * (a as int)) by (nonlinear_arith)
            requires
                m == abs_int(a as int),
        ;
        assert((m as int) * (m as int) <= 0x4000_0000_0000_0000_0000_0000_0000_0000)
            by (nonlinear_arith)
            requires
                m <= 0x8000_0000_0000_0000u128,
        ;
    }
    m * m
}

} // verus!
