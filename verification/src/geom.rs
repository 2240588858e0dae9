//! Fixed-point planar geometry: vectors in milli-units, angles in
//! microradians, with verified integer square root and small-angle
//! approximations for sine, cosine and the arc tangent.

use vstd::prelude::*;

verus! {

/// One game unit, expressed in milli-units.
pub const UNIT: i64 = 1000;

/// The angle scale: one radian, expressed in microradians.
pub const RAD: i64 = 1_000_000;

/// Pi in microradians (rounded down so that `PI == 2 * HALF_PI`).
pub const PI_URAD: i64 = 3_141_592;

/// Pi / 2 in microradians.
pub const HALF_PI_URAD: i64 = 1_570_796;

/// 2 * Pi in microradians.
pub const TWO_PI_URAD: i64 = 6_283_184;

/// A planar point or vector, both coordinates in milli-units.
#[derive(Clone, Copy, Debug, PartialEq, Eq, Structural)]
pub struct Vec2 {
    pub x: i64,
    pub y: i64,
}

/// Coordinates no larger than this take part in the geometry; the bound keeps
/// every product in range of `i64`. It is roughly ten times the size of the
/// playing field.
pub const COORD_MAX: i64 = 100_000_000;

/// Whether both coordinates of `v` are small enough for the geometry.
pub open spec fn vec2_bounded(v: Vec2) -> bool {
    -COORD_MAX <= v.x <= COORD_MAX && -COORD_MAX <= v.y <= COORD_MAX
}

impl Vec2 {
    /// The origin.
    pub fn zero() -> (r: Vec2)
        ensures
            r.x == 0 && r.y == 0,
    {
        Vec2 { x: 0, y: 0 }
    }

    /// Component-wise sum.
    pub fn add(self, other: Vec2) -> (r: Vec2)
        requires
            vec2_bounded(self),
            vec2_bounded(other),
        ensures
            r.x == self.x + other.x,
            r.y == self.y + other.y,
    {
        Vec2 { x: self.x + other.x, y: self.y + other.y }
    }

    /// Component-wise difference.
    pub fn sub(self, other: Vec2) -> (r: Vec2)
        requires
            vec2_bounded(self),
            vec2_bounded(other),
        ensures
            r.x == self.x - other.x,
            r.y == self.y - other.y,
    {
        Vec2 { x: self.x - other.x, y: self.y - other.y }
    }
}

/// Absolute value at the spec level.
pub open spec fn abs_spec(a: int) -> int {
    if a >= 0 {
        a
    } else {
        -a
    }
}

/// Absolute value.
pub fn abs_i64(a: i64) -> (r: i64)
    requires
        a > i64::MIN,
    ensures
        r == abs_spec(a as int),
{
    if a >= 0 {
        a
    } else {
        -a
    }
}

/// Clamping at the spec level.
pub open spec fn clamp_spec(a: int, lo: int, hi: int) -> int {
    if a < lo {
        lo
    } else if a > hi {
        hi
    } else {
        a
    }
}

/// Clamp `a` into `[lo, hi]`.
pub fn clamp_i64(a: i64, lo: i64, hi: i64) -> (r: i64)
    requires
        lo <= hi,
    ensures
        r == clamp_spec(a as int, lo as int, hi as int),
{
    if a < lo {
        lo
    } else if a > hi {
        hi
    } else {
        a
    }
}

/// Division that rounds toward zero, defined over the Euclidean division of
/// the absolute values. On non-negative operands it coincides with `/`.
pub open spec fn div_zero_spec(p: int, d: int) -> int
    recommends
        d > 0,
{
    if p >= 0 {
        p / d
    } else {
        -((-p) / d)
    }
}

/// `a * b / d`, rounding the quotient toward zero.
pub open spec fn muldiv_spec(a: int, b: int, d: int) -> int
    recommends
        d > 0,
{
    div_zero_spec(a * b, d)
}

/// The operand bound under which `muldiv` cannot overflow.
pub const FACTOR_MAX: i64 = 2_000_000_000;

/// `a * b / d` with the quotient rounded toward zero, as Rust's own integer
/// division does.
pub fn muldiv(a: i64, b: i64, d: i64) -> (r: i64)
    requires
        d > 0,
        -FACTOR_MAX <= a <= FACTOR_MAX,
        -FACTOR_MAX <= b <= FACTOR_MAX,
    ensures
        r == muldiv_spec(a as int, b as int, d as int),
        abs_spec(b as int) <= d ==> abs_spec(r as int) <= abs_spec(a as int),
        abs_spec(a as int) <= d ==> abs_spec(r as int) <= abs_spec(b as int),
        abs_spec(r as int) <= abs_spec(a as int) * abs_spec(b as int),
{
    let a_abs = abs_i64(a);
    let b_abs = abs_i64(b);
    proof {
        assert((a as int) * (b as int) == (a_abs as int) * (b_abs as int) || (a as int) * (b
            as int) == -((a_abs as int) * (b_abs as int))) by (nonlinear_arith)
            requires
                a_abs == abs_spec(a as int),
                b_abs == abs_spec(b as int),
        ;
        assert(0 <= (a_abs as int) * (b_abs as int) <= 4_000_000_000_000_000_000int)
            by (nonlinear_arith)
            requires
                0 <= a_abs <= FACTOR_MAX,
                0 <= b_abs <= FACTOR_MAX,
                FACTOR_MAX == 2_000_000_000,
        ;
    }
    let p_abs: i64 = a_abs * b_abs;
    let q_abs: i64 = p_abs / d;
    proof {
        vstd::arithmetic::div_mod::lemma_div_pos_is_pos(p_abs as int, d as int);
        if b_abs <= d {
            assert((p_abs as int) <= (d as int) * (a_abs as int)) by (nonlinear_arith)
                requires
                    p_abs == (a_abs as int) * (b_abs as int),
                    0 <= b_abs <= d,
                    0 <= a_abs,
            ;
            vstd::arithmetic::div_mod::lemma_multiply_divide_le(
                p_abs as int,
                d as int,
                a_abs as int,
            );
        }
        if a_abs <= d {
            assert((p_abs as int) <= (d as int) * (b_abs as int)) by (nonlinear_arith)
                requires
                    p_abs == (a_abs as int) * (b_abs as int),
                    0 <= a_abs <= d,
                    0 <= b_abs,
            ;
            vstd::arithmetic::div_mod::lemma_multiply_divide_le(
                p_abs as int,
                d as int,
                b_abs as int,
            );
        }
    }
    proof {
        assert(q_abs <= p_abs) by {
            vstd::arithmetic::div_mod::lemma_div_is_ordered_by_denominator(
                p_abs as int,
                1,
                d as int,
            );
        }
    }
    let neg = (a < 0) != (b < 0);
    proof {
        assert(((a < 0) != (b < 0)) ==> (a as int) * (b as int) <= 0) by (nonlinear_arith);
        assert(!((a < 0) != (b < 0)) ==> (a as int) * (b as int) >= 0) by (nonlinear_arith);
    }
    if neg && p_abs != 0 {
        -q_abs
    } else {
        q_abs
    }
}

/// `p / d` rounded toward zero, as Rust's own integer division does.
pub fn div_zero(p: i64, d: i64) -> (r: i64)
    requires
        d > 0,
        p > i64::MIN,
    ensures
        r == div_zero_spec(p as int, d as int),
        abs_spec(r as int) * (d as int) <= abs_spec(p as int),
{
    let p_abs = abs_i64(p);
    let q_abs: i64 = p_abs / d;
    proof {
        vstd::arithmetic::div_mod::lemma_div_pos_is_pos(p_abs as int, d as int);
        assert((q_abs as int) * (d as int) <= p_abs) by (nonlinear_arith)
            requires
                q_abs == (p_abs as int) / (d as int),
                p_abs >= 0,
                d > 0,
        ;
    }
    if p < 0 && q_abs != 0 {
        -q_abs
    } else {
        q_abs
    }
}

/// Whether two angles in microradians name the same direction.
pub open spec fn angle_congruent(a: int, b: int) -> bool {
    (a - b) % (TWO_PI_URAD as int) == 0
}

/// The canonical range of a normalized angle: `(-PI, PI]`.
pub open spec fn angle_normalized(a: int) -> bool {
    -PI_URAD < a <= PI_URAD
}

/// Bring an angle within a few turns of zero back into `(-PI, PI]` without
/// changing the direction it names.
pub fn normalize_angle(a: i64) -> (r: i64)
    requires
        -4 * TWO_PI_URAD <= a <= 4 * TWO_PI_URAD,
    ensures
        angle_normalized(r as int),
        angle_congruent(r as int, a as int),
        r == norm_angle_spec(a as int),
{
    let mut v: i64 = a;
    proof {
        vstd::arithmetic::div_mod::lemma_mod_self_0(TWO_PI_URAD as int);
        assert(angle_congruent(v as int, a as int)) by {
            assert((v - a) == 0int);
        }
    }
    while v > PI_URAD
        invariant
            angle_congruent(v as int, a as int),
            -4 * TWO_PI_URAD <= v <= 4 * TWO_PI_URAD,
        decreases v + 4 * TWO_PI_URAD,
    {
        proof {
            vstd::arithmetic::div_mod::lemma_mod_sub_multiples_vanish(
                (v - a) as int,
                TWO_PI_URAD as int,
            );
        }
        v = v - TWO_PI_URAD;
    }
    while v <= -PI_URAD
        invariant
            angle_congruent(v as int, a as int),
            -4 * TWO_PI_URAD <= v <= PI_URAD,
        decreases PI_URAD - v,
    {
        proof {
            vstd::arithmetic::div_mod::lemma_mod_add_multiples_vanish(
                (v - a) as int,
                TWO_PI_URAD as int,
            );
        }
        v = v + TWO_PI_URAD;
    }
    proof {
        lemma_norm_angle_spec(a as int);
        vstd::arithmetic::div_mod::lemma_mod_sub_multiples_vanish(
            (norm_angle_spec(a as int) - a) as int,
            TWO_PI_URAD as int,
        );
        assert(angle_congruent(v as int, norm_angle_spec(a as int))) by {
            let t = TWO_PI_URAD as int;
            let x = (v - a) % t;
            let y = (norm_angle_spec(a as int) - a) % t;
            assert(x == 0 && y == 0);
            assert((v - norm_angle_spec(a as int)) % t == 0) by {
                vstd::arithmetic::div_mod::lemma_fundamental_div_mod(v as int - a, t);
                vstd::arithmetic::div_mod::lemma_fundamental_div_mod(
                    norm_angle_spec(a as int) - a,
                    t,
                );
                let q1 = (v as int - a) / t;
                let q2 = (norm_angle_spec(a as int) - a) / t;
                assert(v - norm_angle_spec(a as int) == t * q1 - t * q2);
                assert(t * q1 - t * q2 == (q1 - q2) * t) by (nonlinear_arith);
                vstd::arithmetic::div_mod::lemma_mod_multiples_basic(q1 - q2, t);
            }
        }
        lemma_normalized_congruent_equal(v as int, norm_angle_spec(a as int));
    }
    v
}

/// Bhaskara's rational approximation of the sine on `[0, PI]`, in
/// micro-units: `sin(x) ~ 16 x (PI - x) / (5 PI^2 - 4 x (PI - x))`.
pub open spec fn sin_half_spec(x: int) -> int
    recommends
        0 <= x <= PI_URAD,
{
    let q = (x * (PI_URAD - x)) / (RAD as int);
    (16 * q * (RAD as int)) / (5 * 9_869_600 - 4 * q)
}

/// The sine of a normalized angle, in micro-units (`RAD` stands for one).
pub open spec fn sin_spec(x: int) -> int
    recommends
        -PI_URAD <= x <= PI_URAD,
{
    if x >= 0 {
        sin_half_spec(x)
    } else {
        -sin_half_spec(-x)
    }
}

/// The cosine of a normalized angle, in micro-units.
pub open spec fn cos_spec(x: int) -> int
    recommends
        -PI_URAD <= x <= PI_URAD,
{
    let y = (HALF_PI_URAD as int) - x;
    if y > PI_URAD {
        sin_spec(y - TWO_PI_URAD)
    } else {
        sin_spec(y)
    }
}

/// Sine on `[0, PI]`, by Bhaskara's approximation.
fn sin_half(x: i64) -> (r: i64)
    requires
        0 <= x <= PI_URAD,
    ensures
        r == sin_half_spec(x as int),
        0 <= r <= RAD,
{
    proof {
        assert(0 <= (x as int) * ((PI_URAD as int) - x) <= 2_467_400_073_616int)
            by (nonlinear_arith)
            requires
                0 <= x <= PI_URAD,
                PI_URAD == 3_141_592,
        ;
    }
    let t: i64 = x * (PI_URAD - x);
    let q: i64 = t / RAD;
    proof {
        vstd::arithmetic::div_mod::lemma_div_pos_is_pos(t as int, RAD as int);
        vstd::arithmetic::div_mod::lemma_div_is_ordered(t as int, 2_467_400_073_616int, RAD as int);
        assert(2_467_400_073_616int / 1_000_000int == 2_467_400int) by (nonlinear_arith);
    }
    let d: i64 = 5 * 9_869_600 - 4 * q;
    let num: i64 = 16 * q * RAD;
    let r: i64 = num / d;
    proof {
        vstd::arithmetic::div_mod::lemma_div_pos_is_pos(num as int, d as int);
        assert(num <= (d as int) * (RAD as int)) by (nonlinear_arith)
            requires
                num == 16 * (q as int) * (RAD as int),
                d == 5 * 9_869_600 - 4 * (q as int),
                0 <= q <= 2_467_400,
                RAD == 1_000_000,
        ;
        vstd::arithmetic::div_mod::lemma_multiply_divide_le(num as int, d as int, RAD as int);
    }
    r
}

/// The sine of a normalized angle, in micro-units.
pub fn sin_micro(x: i64) -> (r: i64)
    requires
        -PI_URAD <= x <= PI_URAD,
    ensures
        r == sin_spec(x as int),
        -RAD <= r <= RAD,
{
    if x >= 0 {
        sin_half(x)
    } else {
        -sin_half(-x)
    }
}

/// The cosine of a normalized angle, in micro-units.
pub fn cos_micro(x: i64) -> (r: i64)
    requires
        -PI_URAD <= x <= PI_URAD,
    ensures
        r == cos_spec(x as int),
        -RAD <= r <= RAD,
{
    let y: i64 = HALF_PI_URAD - x;
    if y > PI_URAD {
        sin_micro(y - TWO_PI_URAD)
    } else {
        sin_micro(y)
    }
}

/// Spec-level integer square root: `r` such that `r * r <= n < (r + 1) * (r + 1)`.
pub open spec fn is_isqrt(n: int, r: int) -> bool {
    0 <= r && r * r <= n && n < (r + 1) * (r + 1)
}

/// Integer square root by bisection.
pub fn isqrt(n: i64) -> (r: i64)
    requires
        n >= 0,
    ensures
        is_isqrt(n as int, r as int),
{
    if n == 0 {
        proof {
            assert(is_isqrt(0, 0)) by (nonlinear_arith);
        }
        return 0;
    }
    let mut lo: i64 = 0;
    let mut hi: i64 = 3_037_000_500;
    if n < hi {
        hi = n + 1;
    }
    proof {
        assert((hi as int) * (hi as int) > n) by (nonlinear_arith)
            requires
                n > 0,
                hi == n + 1 || (hi == 3_037_000_500 && n >= 3_037_000_500),
                n <= 0x7fff_ffff_ffff_ffff,
        ;
    }
    while lo + 1 < hi
        invariant
            0 <= lo < hi <= 3_037_000_500,
            (lo as int) * (lo as int) <= n,
            (hi as int) * (hi as int) > n,
            n <= i64::MAX,
        decreases hi - lo,
    {
        let mid: i64 = lo + (hi - lo) / 2;
        proof {
            assert(lo < mid < hi);
            assert((mid as int) * (mid as int) < 0x7fff_ffff_ffff_ffff) by (nonlinear_arith)
                requires
                    0 < mid < 3_037_000_500,
            ;
        }
        if mid * mid <= n {
            lo = mid;
        } else {
            hi = mid;
        }
    }
    proof {
        assert(((lo + 1) as int) * ((lo + 1) as int) >= (hi as int) * (hi as int))
            by (nonlinear_arith)
            requires
                lo + 1 >= hi >= 0,
        ;
    }
    lo
}

/// The arc tangent on `[0, 1]` (argument and result scaled by `RAD`), by the
/// quadratic approximation `atan(z) ~ (PI/4) z + 0.273 z (1 - z)`.
pub open spec fn atan_unit_spec(z: int) -> int
    recommends
        0 <= z <= RAD,
{
    (785_398 * z) / (RAD as int) + (273 * z * ((RAD as int) - z)) / 1_000_000_000
}

/// The angle of the vector `(x, y)` against the positive x axis, in
/// microradians within `[-PI, PI]`; zero when both arguments are zero.
pub open spec fn atan2_spec(y: int, x: int) -> int {
    let ax = abs_spec(x);
    let ay = abs_spec(y);
    if ax == 0 && ay == 0 {
        0
    } else {
        let base = if ay <= ax {
            atan_unit_spec((ay * (RAD as int)) / ax)
        } else {
            (HALF_PI_URAD as int) - atan_unit_spec((ax * (RAD as int)) / ay)
        };
        if x >= 0 {
            if y >= 0 {
                base
            } else {
                -base
            }
        } else {
            if y >= 0 {
                (PI_URAD as int) - base
            } else {
                -((PI_URAD as int) - base)
            }
        }
    }
}

/// The arc tangent on `[0, 1]`, scaled by `RAD`.
fn atan_unit(z: i64) -> (r: i64)
    requires
        0 <= z <= RAD,
    ensures
        r == atan_unit_spec(z as int),
        0 <= r <= 853_648,
{
    let t1: i64 = (785_398 * z) / RAD;
    proof {
        vstd::arithmetic::div_mod::lemma_div_pos_is_pos(785_398 * (z as int), RAD as int);
        assert(785_398 * (z as int) <= (RAD as int) * 785_398) by (nonlinear_arith)
            requires
                0 <= z <= RAD,
                RAD == 1_000_000,
        ;
        vstd::arithmetic::div_mod::lemma_multiply_divide_le(
            785_398 * (z as int),
            RAD as int,
            785_398int,
        );
    }
    proof {
        assert(0 <= 273 * (z as int) * ((RAD as int) - z) <= 68_250_000_000_000int)
            by (nonlinear_arith)
            requires
                0 <= z <= RAD,
                RAD == 1_000_000,
        ;
    }
    let t2: i64 = (273 * z * (RAD - z)) / 1_000_000_000;
    proof {
        vstd::arithmetic::div_mod::lemma_div_pos_is_pos(
            273 * (z as int) * ((RAD as int) - z),
            1_000_000_000int,
        );
        vstd::arithmetic::div_mod::lemma_div_is_ordered(
            273 * (z as int) * ((RAD as int) - z),
            68_250_000_000_000int,
            1_000_000_000int,
        );
    }
    t1 + t2
}

/// The angle of the vector `(x, y)` against the positive x axis.
pub fn atan2_micro(y: i64, x: i64) -> (r: i64)
    requires
        -2 * COORD_MAX <= x <= 2 * COORD_MAX,
        -2 * COORD_MAX <= y <= 2 * COORD_MAX,
    ensures
        r == atan2_spec(y as int, x as int),
        -PI_URAD <= r <= PI_URAD,
{
    let ax = abs_i64(x);
    let ay = abs_i64(y);
    if ax == 0 && ay == 0 {
        return 0;
    }
    let base: i64 = if ay <= ax {
        let z: i64 = (ay * RAD) / ax;
        proof {
            vstd::arithmetic::div_mod::lemma_div_pos_is_pos((ay as int) * (RAD as int), ax as int);
            assert((ay as int) * (RAD as int) <= (ax as int) * (RAD as int)) by (nonlinear_arith)
                requires
                    0 <= ay <= ax,
                    RAD == 1_000_000,
            ;
            vstd::arithmetic::div_mod::lemma_multiply_divide_le(
                (ay as int) * (RAD as int),
                ax as int,
                RAD as int,
            );
        }
        atan_unit(z)
    } else {
        let z: i64 = (ax * RAD) / ay;
        proof {
            vstd::arithmetic::div_mod::lemma_div_pos_is_pos((ax as int) * (RAD as int), ay as int);
            assert((ax as int) * (RAD as int) <= (ay as int) * (RAD as int)) by (nonlinear_arith)
                requires
                    0 <= ax <= ay,
                    RAD == 1_000_000,
            ;
            vstd::arithmetic::div_mod::lemma_multiply_divide_le(
                (ax as int) * (RAD as int),
                ay as int,
                RAD as int,
            );
        }
        HALF_PI_URAD - atan_unit(z)
    };
    if x >= 0 {
        if y >= 0 {
            base
        } else {
            -base
        }
    } else {
        if y >= 0 {
            PI_URAD - base
        } else {
            -(PI_URAD - base)
        }
    }
}

/// The x component of `v` rotated by a normalized angle.
pub open spec fn rotate_x_spec(v: Vec2, ang: int) -> int
    recommends
        vec2_bounded(v),
        -PI_URAD <= ang <= PI_URAD,
{
    div_zero_spec(v.x * cos_spec(ang) - v.y * sin_spec(ang), RAD as int)
}

/// The y component of `v` rotated by a normalized angle.
pub open spec fn rotate_y_spec(v: Vec2, ang: int) -> int
    recommends
        vec2_bounded(v),
        -PI_URAD <= ang <= PI_URAD,
{
    div_zero_spec(v.x * sin_spec(ang) + v.y * cos_spec(ang), RAD as int)
}

/// Rotate `v` by the normalized angle `ang`.
pub fn rotate(v: Vec2, ang: i64) -> (r: Vec2)
    requires
        vec2_bounded(v),
        -PI_URAD <= ang <= PI_URAD,
    ensures
        r.x == rotate_x_spec(v, ang as int),
        r.y == rotate_y_spec(v, ang as int),
        abs_spec(r.x as int) <= abs_spec(v.x as int) + abs_spec(v.y as int),
        abs_spec(r.y as int) <= abs_spec(v.x as int) + abs_spec(v.y as int),
{
    let c = cos_micro(ang);
    let s = sin_micro(ang);
    proof {
        assert(abs_spec((v.x as int) * (c as int) - (v.y as int) * (s as int)) <= (abs_spec(
            v.x as int,
        ) + abs_spec(v.y as int)) * (RAD as int)) by (nonlinear_arith)
            requires
                -RAD <= c <= RAD,
                -RAD <= s <= RAD,
                -COORD_MAX <= v.x <= COORD_MAX,
                -COORD_MAX <= v.y <= COORD_MAX,
                RAD == 1_000_000,
                COORD_MAX == 100_000_000,
        ;
        assert(abs_spec((v.x as int) * (s as int) + (v.y as int) * (c as int)) <= (abs_spec(
            v.x as int,
        ) + abs_spec(v.y as int)) * (RAD as int)) by (nonlinear_arith)
            requires
                -RAD <= c <= RAD,
                -RAD <= s <= RAD,
                -COORD_MAX <= v.x <= COORD_MAX,
                -COORD_MAX <= v.y <= COORD_MAX,
                RAD == 1_000_000,
                COORD_MAX == 100_000_000,
        ;
    }
    proof {
        assert(abs_spec((v.x as int) * (c as int)) <= 100_000_000_000_000int && abs_spec(
            (v.y as int) * (s as int),
        ) <= 100_000_000_000_000int && abs_spec((v.x as int) * (s as int))
            <= 100_000_000_000_000int && abs_spec((v.y as int) * (c as int))
            <= 100_000_000_000_000int) by (nonlinear_arith)
            requires
                -RAD <= c <= RAD,
                -RAD <= s <= RAD,
                -COORD_MAX <= v.x <= COORD_MAX,
                -COORD_MAX <= v.y <= COORD_MAX,
                RAD == 1_000_000,
                COORD_MAX == 100_000_000,
        ;
    }
    let xnum: i64 = v.x * c - v.y * s;
    let ynum: i64 = v.x * s + v.y * c;
    let rx = div_zero(xnum, RAD);
    let ry = div_zero(ynum, RAD);
    proof {
        assert(abs_spec(rx as int) <= abs_spec(v.x as int) + abs_spec(v.y as int))
            by (nonlinear_arith)
            requires
                abs_spec(rx as int) * (RAD as int) <= abs_spec(xnum as int),
                abs_spec(xnum as int) <= (abs_spec(v.x as int) + abs_spec(v.y as int)) * (
                RAD as int),
                RAD == 1_000_000,
        ;
        assert(abs_spec(ry as int) <= abs_spec(v.x as int) + abs_spec(v.y as int))
            by (nonlinear_arith)
            requires
                abs_spec(ry as int) * (RAD as int) <= abs_spec(ynum as int),
                abs_spec(ynum as int) <= (abs_spec(v.x as int) + abs_spec(v.y as int)) * (
                RAD as int),
                RAD == 1_000_000,
        ;
    }
    Vec2 { x: rx, y: ry }
}

/// The length of `v`, rounded down to whole milli-units.
pub fn norm(v: Vec2) -> (r: i64)
    requires
        vec2_bounded(v),
    ensures
        is_isqrt((v.x as int) * (v.x as int) + (v.y as int) * (v.y as int), r as int),
        0 <= r <= 150_000_000,
{
    proof {
        assert(0 <= (v.x as int) * (v.x as int) + (v.y as int) * (v.y as int)
            <= 20_000_000_000_000_000int) by (nonlinear_arith)
            requires
                -COORD_MAX <= v.x <= COORD_MAX,
                -COORD_MAX <= v.y <= COORD_MAX,
                COORD_MAX == 100_000_000,
        ;
    }
    proof {
        assert(0 <= (v.x as int) * (v.x as int) <= 10_000_000_000_000_000int && 0 <= (v.y
            as int) * (v.y as int) <= 10_000_000_000_000_000int) by (nonlinear_arith)
            requires
                -COORD_MAX <= v.x <= COORD_MAX,
                -COORD_MAX <= v.y <= COORD_MAX,
                COORD_MAX == 100_000_000,
        ;
    }
    let sq: i64 = v.x * v.x + v.y * v.y;
    let r = isqrt(sq);
    proof {
        assert(r <= 150_000_000) by (nonlinear_arith)
            requires
                is_isqrt(sq as int, r as int),
                sq <= 20_000_000_000_000_000int,
        ;
    }
    r
}

/// The distance between two points, rounded down to whole milli-units.
pub fn dist(a: Vec2, b: Vec2) -> (r: i64)
    requires
        vec2_bounded(a),
        vec2_bounded(b),
    ensures
        is_isqrt(
            ((a.x - b.x) as int) * ((a.x - b.x) as int) + ((a.y - b.y) as int) * ((a.y - b.y)
                as int),
            r as int,
        ),
        0 <= r <= 300_000_000,
{
    proof {
        assert(0 <= ((a.x - b.x) as int) * ((a.x - b.x) as int) + ((a.y - b.y) as int) * ((a.y
            - b.y) as int) <= 80_000_000_000_000_000int) by (nonlinear_arith)
            requires
                -COORD_MAX <= a.x <= COORD_MAX,
                -COORD_MAX <= a.y <= COORD_MAX,
                -COORD_MAX <= b.x <= COORD_MAX,
                -COORD_MAX <= b.y <= COORD_MAX,
                COORD_MAX == 100_000_000,
        ;
    }
    let dx: i64 = a.x - b.x;
    let dy: i64 = a.y - b.y;
    proof {
        assert(0 <= (dx as int) * (dx as int) <= 40_000_000_000_000_000int && 0 <= (dy as int)
            * (dy as int) <= 40_000_000_000_000_000int) by (nonlinear_arith)
            requires
                -200_000_000 <= dx <= 200_000_000,
                -200_000_000 <= dy <= 200_000_000,
        ;
    }
    let sq: i64 = dx * dx + dy * dy;
    let r = isqrt(sq);
    proof {
        assert(r <= 300_000_000) by (nonlinear_arith)
            requires
                is_isqrt(sq as int, r as int),
                sq <= 80_000_000_000_000_000int,
        ;
    }
    r
}

/// A spatial point or vector, coordinates in milli-units.
#[derive(Clone, Copy, Debug, PartialEq, Eq, Structural)]
pub struct Vec3 {
    pub x: i64,
    pub y: i64,
    pub z: i64,
}

/// Whether all three coordinates of `v` are small enough for the geometry.
pub open spec fn vec3_bounded(v: Vec3) -> bool {
    -COORD_MAX <= v.x <= COORD_MAX && -COORD_MAX <= v.y <= COORD_MAX && -COORD_MAX <= v.z
        <= COORD_MAX
}

impl Vec3 {
    /// The planar projection, dropping the height.
    pub fn to_2d(self) -> (r: Vec2)
        ensures
            r.x == self.x,
            r.y == self.y,
    {
        Vec2 { x: self.x, y: self.y }
    }
}

/// Two integer square roots of the same number are the same number.
pub proof fn lemma_isqrt_unique(n: int, a: int, b: int)
    requires
        is_isqrt(n, a),
        is_isqrt(n, b),
    ensures
        a == b,
{
    assert(a == b) by (nonlinear_arith)
        requires
            0 <= a && a * a <= n && n < (a + 1) * (a + 1),
            0 <= b && b * b <= n && n < (b + 1) * (b + 1),
    ;
}

/// The canonical representative of an angle: the unique congruent value in
/// `(-PI, PI]`.
pub open spec fn norm_angle_spec(a: int) -> int {
    (PI_URAD as int) - (((PI_URAD as int) - a) % (TWO_PI_URAD as int))
}

/// The canonical representative is normalized and congruent to its argument.
pub proof fn lemma_norm_angle_spec(a: int)
    ensures
        angle_normalized(norm_angle_spec(a)),
        angle_congruent(norm_angle_spec(a), a),
{
    let t = TWO_PI_URAD as int;
    let m = ((PI_URAD as int) - a) % t;
    vstd::arithmetic::div_mod::lemma_mod_division_less_than_divisor((PI_URAD as int) - a, t);
    vstd::arithmetic::div_mod::lemma_fundamental_div_mod((PI_URAD as int) - a, t);
    let q = ((PI_URAD as int) - a) / t;
    assert((PI_URAD as int) - a == t * q + m);
    assert(norm_angle_spec(a) - a == t * q);
    vstd::arithmetic::div_mod::lemma_mod_multiples_basic(q, t);
    assert((q * t) % t == 0);
    assert(t * q == q * t) by (nonlinear_arith);
}

/// Two normalized angles naming the same direction are the same angle.
pub proof fn lemma_normalized_congruent_equal(a: int, b: int)
    requires
        angle_normalized(a),
        angle_normalized(b),
        angle_congruent(a, b),
    ensures
        a == b,
{
    let t = TWO_PI_URAD as int;
    let m = a - b;
    vstd::arithmetic::div_mod::lemma_fundamental_div_mod(m, t);
    let q = m / t;
    assert(m == t * q);
    assert(q == 0) by (nonlinear_arith)
        requires
            m == t * q,
            -t < m < t,
            t > 0,
    ;
}

} // verus!
