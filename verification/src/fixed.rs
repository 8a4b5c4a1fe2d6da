//! Signed fixed-point scalars: an `i64` raw value with 16 fractional
//! bits, so `raw == 65536` stands for the real number `1.0`.
//!
//! Every operation is total: results outside the representable range
//! saturate to the nearest bound, and a division by zero yields zero.
//! The spec functions below give each operation its exact meaning
//! over `int`.

use vstd::prelude::*;

verus! {

/// Raw representation of `1.0`: the fixed-point scale factor.
pub const FX_SCALE: i64 = 65536;

/// A fixed-point scalar: the real value `raw / 65536`.
#[derive(Clone, Copy, Debug, PartialEq, Eq, Structural)]
pub struct Fx {
    pub raw: i64,
}

/// Clamp an unbounded integer into the `i64` range.
pub open spec fn sat64(x: int) -> int {
    if x > i64::MAX as int {
        i64::MAX as int
    } else if x < i64::MIN as int {
        i64::MIN as int
    } else {
        x
    }
}

/// Division truncated toward zero (the rounding of the hardware `/`),
/// with a zero divisor mapped to zero.
pub open spec fn tdivz(a: int, b: int) -> int {
    if b == 0 {
        0
    } else if (a >= 0) == (b >= 0) {
        abs_int(a) / abs_int(b)
    } else {
        -(abs_int(a) / abs_int(b))
    }
}

pub open spec fn abs_int(a: int) -> int {
    if a >= 0 {
        a
    } else {
        -a
    }
}

/// Exact meaning of fixed-point addition.
pub open spec fn fx_add(a: int, b: int) -> int {
    sat64(a + b)
}

/// Exact meaning of fixed-point subtraction.
pub open spec fn fx_sub(a: int, b: int) -> int {
    sat64(a - b)
}

/// Exact meaning of fixed-point multiplication.
pub open spec fn fx_mul(a: int, b: int) -> int {
    sat64(tdivz(a * b, FX_SCALE as int))
}

/// Exact meaning of fixed-point division.
pub open spec fn fx_div(a: int, b: int) -> int {
    sat64(tdivz(a * (FX_SCALE as int), b))
}

impl Fx {
    pub fn add(self, rhs: Fx) -> (r: Fx)
        ensures
            r.raw == fx_add(self.raw as int, rhs.raw as int),
    {
        sat_from_i128(self.raw as i128 + rhs.raw as i128)
    }

    pub fn sub(self, rhs: Fx) -> (r: Fx)
        ensures
            r.raw == fx_sub(self.raw as int, rhs.raw as int),
    {
        sat_from_i128(self.raw as i128 - rhs.raw as i128)
    }

    pub fn neg(self) -> (r: Fx)
        ensures
            r.raw == sat64(-(self.raw as int)),
    {
        sat_from_i128(-(self.raw as i128))
    }

    pub fn abs(self) -> (r: Fx)
        ensures
            r.raw == sat64(abs_int(self.raw as int)),
    {
        if self.raw >= 0 {
            self
        } else {
            sat_from_i128(-(self.raw as i128))
        }
    }

    pub fn mul(self, rhs: Fx) -> (r: Fx)
        ensures
            r.raw == fx_mul(self.raw as int, rhs.raw as int),
    {
        proof {
            lemma_i64_prod_in_i128(self.raw as int, rhs.raw as int);
        }
        let p: i128 = (self.raw as i128) * (rhs.raw as i128);
        sat_from_i128(div_trunc_i128(p, FX_SCALE as i128))
    }

    pub fn div(self, rhs: Fx) -> (r: Fx)
        ensures
            r.raw == fx_div(self.raw as int, rhs.raw as int),
    {
        if rhs.raw == 0 {
            Fx { raw: 0 }
        } else {
            proof {
                lemma_i64_prod_in_i128(self.raw as int, FX_SCALE as int);
            }
            let n: i128 = (self.raw as i128) * (FX_SCALE as i128);
            sat_from_i128(div_trunc_i128(n, rhs.raw as i128))
        }
    }

}

/// Floor of the square root of an integer (zero on negative input).
pub open spec fn sqrt_floor(n: int) -> int
    decreases n,
{
    if n <= 0 {
        0
    } else {
        let r = sqrt_floor(n - 1);
        if (r + 1) * (r + 1) <= n {
            r + 1
        } else {
            r
        }
    }
}

/// Exact meaning of the fixed-point square root: floor of the root,
/// in raw units; zero on a non-positive argument.
pub open spec fn fx_sqrt(a: int) -> int {
    if a <= 0 {
        0
    } else {
        sqrt_floor(a * (FX_SCALE as int))
    }
}

/// `sqrt_floor(n)` is the unique `r >= 0` with `r * r <= n < (r + 1) * (r + 1)`.
pub proof fn lemma_sqrt_floor_props(n: int)
    requires
        n >= 0,
    ensures
        0 <= sqrt_floor(n),
        sqrt_floor(n) * sqrt_floor(n) <= n,
        n < (sqrt_floor(n) + 1) * (sqrt_floor(n) + 1),
    decreases n,
{
    if n == 0 {
    } else {
        lemma_sqrt_floor_props(n - 1);
        let r = sqrt_floor(n - 1);
        if (r + 1) * (r + 1) <= n {
            assert(n <= (r + 1) * (r + 1)) by {
                assert(n - 1 < (r + 1) * (r + 1));
            }
            assert((r + 2) * (r + 2) > (r + 1) * (r + 1)) by (nonlinear_arith)
                requires
                    r >= 0,
            ;
        }
    }
}

pub proof fn lemma_sqrt_floor_unique(n: int, r: int)
    requires
        n >= 0,
        r >= 0,
        r * r <= n,
        n < (r + 1) * (r + 1),
    ensures
        r == sqrt_floor(n),
{
    let s = sqrt_floor(n);
    lemma_sqrt_floor_props(n);
    if r < s {
        assert((r + 1) * (r + 1) <= s * s) by (nonlinear_arith)
            requires
                0 <= r,
                r + 1 <= s,
        ;
    } else if s < r {
        assert((s + 1) * (s + 1) <= r * r) by (nonlinear_arith)
            requires
                0 <= s,
                s + 1 <= r,
        ;
    }
}

/// Binary search for the floor of the square root of a `u128`.
pub fn isqrt_u128(n: u128) -> (r: u64)
    ensures
        r == sqrt_floor(n as int),
{
    let mut lo: u128 = 0;
    let mut hi: u128 = 0x1_0000_0000_0000_0000;
    proof {
        assert((0x1_0000_0000_0000_0000int) * (0x1_0000_0000_0000_0000int) > n) by (nonlinear_arith)
            requires
                n <= u128::MAX,
        ;
    }
    while lo + 1 < hi
        invariant
            lo < hi <= 0x1_0000_0000_0000_0000,
            lo * lo <= n,
            n < hi * hi,
        decreases hi - lo,
    {
        let mid: u128 = lo + (hi - lo) / 2;
        assert(lo < mid < hi);
        assert(mid * mid <= u128::MAX) by (nonlinear_arith)
            requires
                mid <= 0xffff_ffff_ffff_ffff_u128,
        ;
        if mid * mid <= n {
            lo = mid;
        } else {
            hi = mid;
        }
    }
    proof {
        lemma_sqrt_floor_unique(n as int, lo as int);
    }
    lo as u64
}

impl Fx {
    pub fn sqrt(self) -> (r: Fx)
        ensures
            r.raw == fx_sqrt(self.raw as int),
    {
        if self.raw <= 0 {
            Fx { raw: 0 }
        } else {
            let n: u128 = (self.raw as u128) * (FX_SCALE as u128);
            let s: u64 = isqrt_u128(n);
            proof {
                lemma_sqrt_floor_props(n as int);
                assert(s < 0x1_0000_0000_0000u64) by (nonlinear_arith)
                    requires
                        (s as int) * (s as int) <= n as int,
                        n < 0x1_0000_0000_0000_0000_0000u128,
                        s >= 0,
                ;
            }
            Fx { raw: s as i64 }
        }
    }
}

/// Scaling by a zero factor yields zero.
pub proof fn lemma_fx_mul_zero(a: int)
    ensures
        fx_mul(a, 0) == 0,
{
    assert(a * 0 == 0) by (nonlinear_arith);
}

/// The product of two `i64` values never reaches the `i128` bounds.
proof fn lemma_i64_prod_in_i128(a: int, b: int)
    requires
        i64::MIN <= a <= i64::MAX,
        i64::MIN <= b <= i64::MAX,
    ensures
        i128::MIN < a * b < i128::MAX,
{
    assert(i128::MIN < a * b < i128::MAX) by (nonlinear_arith)
        requires
            -0x8000_0000_0000_0000 <= a <= 0x7fff_ffff_ffff_ffff,
            -0x8000_0000_0000_0000 <= b <= 0x7fff_ffff_ffff_ffff,
    ;
}

/// Clamp an `i128` into the `i64` range.
fn sat_from_i128(x: i128) -> (r: Fx)
    ensures
        r.raw == sat64(x as int),
{
    if x > i64::MAX as i128 {
        Fx { raw: i64::MAX }
    } else if x < i64::MIN as i128 {
        Fx { raw: i64::MIN }
    } else {
        Fx { raw: x as i64 }
    }
}

/// `i128` division truncated toward zero; requires the operands to be
/// far from the `i128` bounds so that no magnitude overflows.
fn div_trunc_i128(a: i128, b: i128) -> (r: i128)
    requires
        b != 0,
        a != i128::MIN,
        b != i128::MIN,
    ensures
        r == tdivz(a as int, b as int),
{
    let am: u128 = if a >= 0 {
        a as u128
    } else {
        (-a) as u128
    };
    let bm: u128 = if b >= 0 {
        b as u128
    } else {
        (-b) as u128
    };
    let q: u128 = am / bm;
    assert(q <= am) by {
        vstd::arithmetic::div_mod::lemma_div_is_ordered_by_denominator(am as int, 1, bm as int);
    }
    if (a >= 0) == (b >= 0) {
        q as i128
    } else {
        -(q as i128)
    }
}

} // verus!
