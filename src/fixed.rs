//! Fixed-point scalars and vectors.
//!
//! Every continuous quantity of the camera model (lengths, angles, rates,
//! seconds, mouse deltas) is held as an `i64` count of millionths: the value
//! `1.5` is stored as `1_500_000`. Products are taken in `i128` and then
//! truncated toward zero, as integer division in Rust does, and saturate at the
//! bounds of `i64` instead of overflowing.
use vstd::arithmetic::div_mod::{
    lemma_div_is_ordered,
    lemma_div_multiples_vanish,
    lemma_div_pos_is_pos,
};
use vstd::prelude::*;

verus! {

/// The stored value of `1.0`.
pub const UNIT: i64 = 1_000_000;

/// Division that rounds toward zero, for a positive divisor.
pub open spec fn div_trunc(a: int, b: int) -> int {
    if a >= 0 {
        a / b
    } else {
        -((-a) / b)
    }
}

/// `x` limited to the range `[lo, hi]`.
pub open spec fn clamp(x: int, lo: int, hi: int) -> int {
    if x < lo {
        lo
    } else if x > hi {
        hi
    } else {
        x
    }
}

/// `x` limited to the range of `i64`.
pub open spec fn saturate(x: int) -> int {
    clamp(x, i64::MIN as int, i64::MAX as int)
}

/// Fixed-point product of two stored values.
pub open spec fn fx_mul_spec(a: int, b: int) -> int {
    saturate(div_trunc(a * b, UNIT as int))
}

/// Whether `r` is the square root of `n`, rounded down.
pub open spec fn is_floor_sqrt(r: int, n: int) -> bool {
    0 <= r && r * r <= n && n < (r + 1) * (r + 1)
}

/// The floor of the square root of `n`.
pub open spec fn floor_sqrt(n: int) -> int {
    choose|r: int| is_floor_sqrt(r, n)
}

/// A value of `i128` limited to `[lo, hi]`.
pub fn clamp_wide(x: i128, lo: i64, hi: i64) -> (r: i64)
    requires
        lo <= hi,
    ensures
        r == clamp(x as int, lo as int, hi as int),
{
    if x < lo as i128 {
        lo
    } else if x > hi as i128 {
        hi
    } else {
        x as i64
    }
}

/// Sum of two stored values, saturating at the bounds of `i64`.
pub fn sat_add(a: i64, b: i64) -> (r: i64)
    ensures
        r == saturate(a + b),
{
    clamp_wide(a as i128 + b as i128, i64::MIN, i64::MAX)
}

/// Difference of two stored values, saturating at the bounds of `i64`.
pub fn sat_sub(a: i64, b: i64) -> (r: i64)
    ensures
        r == saturate(a - b),
{
    clamp_wide(a as i128 - b as i128, i64::MIN, i64::MAX)
}

/// Fixed-point product: `a * b / UNIT`, rounded toward zero, saturating.
pub fn fx_mul(a: i64, b: i64) -> (r: i64)
    ensures
        r == fx_mul_spec(a as int, b as int),
{
    assert((a as int) * (b as int) <= 0x4000_0000_0000_0000_0000_0000_0000_0000int) by (nonlinear_arith);
    assert((a as int) * (b as int) >= -0x4000_0000_0000_0000_0000_0000_0000_0000int) by (nonlinear_arith);
    let p: i128 = a as i128 * b as i128;
    clamp_wide(p / (UNIT as i128), i64::MIN, i64::MAX)
}

proof fn lemma_floor_sqrt_unique(r: int, s: int, n: int)
    requires
        0 <= r,
        0 <= s,
        r * r <= n < (r + 1) * (r + 1),
        s * s <= n < (s + 1) * (s + 1),
    ensures
        r == s,
{
    if r < s {
        assert((r + 1) * (r + 1) <= s * s) by (nonlinear_arith)
            requires
                0 <= r,
                r + 1 <= s,
        ;
    } else if s < r {
        assert((s + 1) * (s + 1) <= r * r) by (nonlinear_arith)
            requires
                0 <= s,
                s + 1 <= r,
        ;
    }
}

/// Integer square root, rounded down, by bisection.
pub fn isqrt(n: u128) -> (r: u128)
    ensures
        r as int == floor_sqrt(n as int),
        (r as int) * (r as int) <= n,
        (n as int) < (r as int + 1) * (r as int + 1),
{
    let mut lo: u128 = 0;
    let mut hi: u128 = 0x1_0000_0000_0000_0000;
    assert(0x1_0000_0000_0000_0000int * 0x1_0000_0000_0000_0000int
        == 0x1_0000_0000_0000_0000_0000_0000_0000_0000int);
    while hi - lo > 1
        invariant
            lo < hi <= 0x1_0000_0000_0000_0000,
            (lo as int) * (lo as int) <= n,
            (n as int) < (hi as int) * (hi as int),
        decreases hi - lo,
    {
        let mid: u128 = lo + (hi - lo) / 2;
        assert((mid as int) * (mid as int) < 0x1_0000_0000_0000_0000_0000_0000_0000_0000int)
            by (nonlinear_arith)
            requires
                0 <= mid < 0x1_0000_0000_0000_0000int,
        ;
        if mid * mid <= n {
            lo = mid;
        } else {
            hi = mid;
        }
    }
    proof {
        assert(hi == lo + 1);
        let l = lo as int;
        assert(is_floor_sqrt(l, n as int));
        let c = choose|r: int| is_floor_sqrt(r, n as int);
        lemma_floor_sqrt_unique(c, l, n as int);
    }
    lo
}

/// A fraction `f / u` of `d`, rounded toward zero, lies between zero and `d`.
pub proof fn lemma_fraction_between(d: int, f: int, u: int)
    requires
        0 <= f <= u,
        0 < u,
    ensures
        d >= 0 ==> 0 <= div_trunc(d * f, u) <= d,
        d < 0 ==> d <= div_trunc(d * f, u) <= 0,
        f == u ==> div_trunc(d * f, u) == d,
        f == 0 ==> div_trunc(d * f, u) == 0,
{
    let e = if d >= 0 {
        d
    } else {
        -d
    };
    assert(0 <= e * f <= e * u) by (nonlinear_arith)
        requires
            0 <= e,
            0 <= f <= u,
    ;
    lemma_div_is_ordered(e * f, e * u, u);
    lemma_div_multiples_vanish(e, u);
    lemma_div_pos_is_pos(e * f, u);
    assert(u * e == e * u) by (nonlinear_arith);
    if d < 0 {
        assert(d * f == -(e * f)) by (nonlinear_arith)
            requires
                e == -d,
        ;
    }
    if f == u {
        assert(e * f == e * u);
    }
    if f == 0 {
        assert(e * f == 0);
        assert(d * f == 0);
    }
}

/// Coordinate `c` of a vector whose squared length is `n`, scaled to unit
/// length; zero for the zero vector.
pub open spec fn unit_axis(c: int, n: int) -> int {
    if floor_sqrt(n) == 0 {
        0
    } else {
        div_trunc(c * UNIT, floor_sqrt(n))
    }
}

/// Squared length of the vector `(x, y, z)`.
pub open spec fn norm_squared(x: int, y: int, z: int) -> int {
    x * x + y * y + z * z
}

/// A point or direction in space, each coordinate in millionths.
#[derive(Clone, Copy, Debug, PartialEq, Eq, Structural)]
pub struct Vec3 {
    pub x: i64,
    pub y: i64,
    pub z: i64,
}

/// A pair of values in millionths, such as a mouse delta or a sensitivity.
#[derive(Clone, Copy, Debug, PartialEq, Eq, Structural)]
pub struct Vec2 {
    pub x: i64,
    pub y: i64,
}

impl Vec3 {
    /// The origin.
    pub fn zero() -> (r: Vec3)
        ensures
            r.x == 0 && r.y == 0 && r.z == 0,
    {
        Vec3 { x: 0, y: 0, z: 0 }
    }

    /// This vector scaled to unit length, each coordinate rounded toward
    /// zero; the zero vector stays zero.
    pub fn normalize_or_zero(self) -> (r: Vec3)
        ensures
            r.x == unit_axis(self.x as int, norm_squared(self.x as int, self.y as int, self.z as int)),
            r.y == unit_axis(self.y as int, norm_squared(self.x as int, self.y as int, self.z as int)),
            r.z == unit_axis(self.z as int, norm_squared(self.x as int, self.y as int, self.z as int)),
            r.within(UNIT as int),
    {
        let (x, y, z) = (self.x as i128, self.y as i128, self.z as i128);
        assert(0 <= x * x <= 0x4000_0000_0000_0000_0000_0000_0000_0000int) by (nonlinear_arith)
            requires
                -0x8000_0000_0000_0000int <= x <= 0x8000_0000_0000_0000int,
        ;
        assert(0 <= y * y <= 0x4000_0000_0000_0000_0000_0000_0000_0000int) by (nonlinear_arith)
            requires
                -0x8000_0000_0000_0000int <= y <= 0x8000_0000_0000_0000int,
        ;
        assert(0 <= z * z <= 0x4000_0000_0000_0000_0000_0000_0000_0000int) by (nonlinear_arith)
            requires
                -0x8000_0000_0000_0000int <= z <= 0x8000_0000_0000_0000int,
        ;
        let n: u128 = (x * x) as u128 + (y * y) as u128 + (z * z) as u128;
        assert(n == norm_squared(x as int, y as int, z as int));
        let len = isqrt(n);
        if len == 0 {
            return Vec3 { x: 0, y: 0, z: 0 };
        }
        let ux = Self::unit_coordinate(x, n, len);
        let uy = Self::unit_coordinate(y, n, len);
        let uz = Self::unit_coordinate(z, n, len);
        Vec3 { x: ux, y: uy, z: uz }
    }

    /// Coordinate `c` divided by the length `len` of its vector.
    fn unit_coordinate(c: i128, n: u128, len: u128) -> (r: i64)
        requires
            -0x8000_0000_0000_0000int <= c < 0x8000_0000_0000_0000int,
            c * c <= n,
            len > 0,
            len as int == floor_sqrt(n as int),
            (len as int) * (len as int) <= n,
            (n as int) < (len as int + 1) * (len as int + 1),
        ensures
            r == unit_axis(c as int, n as int),
            -UNIT <= r <= UNIT,
    {
        let ghost l: int = len as int;
        let ghost e: int = if c >= 0 {
            c as int
        } else {
            -c
        };
        assert(e * e == c * c) by (nonlinear_arith)
            requires
                e == c || e == -c,
        ;
        assert(e <= l) by (nonlinear_arith)
            requires
                0 <= e,
                0 <= l,
                e * e < (l + 1) * (l + 1),
        ;
        assert(l < 0x1_0000_0000_0000_0000int) by (nonlinear_arith)
            requires
                0 <= l,
                l * l <= n,
                n < 0x1_0000_0000_0000_0000_0000_0000_0000_0000int,
        ;
        proof {
            lemma_fraction_between(UNIT as int, e, l);
            assert(UNIT * e == e * UNIT) by (nonlinear_arith);
        }
        let p: i128 = c * (UNIT as i128);
        let q: i128 = p / (len as i128);
        assert(q == div_trunc(c * UNIT, l)) by {
            if c < 0 {
                assert(c * UNIT == -(e * UNIT)) by (nonlinear_arith)
                    requires
                        e == -c,
                ;
            }
        }
        q as i64
    }

    /// Whether every coordinate lies in `[-bound, bound]`.
    pub open spec fn within(self, bound: int) -> bool {
        -bound <= self.x <= bound && -bound <= self.y <= bound && -bound <= self.z <= bound
    }
}

} // verus!
