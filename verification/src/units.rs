//! Units of measure and the integer arithmetic shared by all systems.

use vstd::prelude::*;

verus! {

/// Sub-units in one world unit.
pub const UNIT: i64 = 1_000_000;

/// No coordinate of a position lies farther than this from the origin.
pub const WORLD_EDGE: i64 = 1_000_000_000_000_000_000;

/// The longest way, along one axis, that a body travels in one frame.
pub const STEP_MAX: i64 = 1_000_000_000_000_000;

/// A y coordinate of this many sub-units lowers the depth by one sub-unit.
pub const DEPTH_SLOPE: i64 = 10_000;

/// Numerator and denominator of the factor 1/sqrt(5), to ten decimal places,
/// by which a diagonal movement on the tile grid is shortened.
pub const DIAGONAL_NUM: i64 = 4_472_135_955;

pub const DIAGONAL_DEN: i64 = 10_000_000_000;

/// The absolute value of an integer.
pub open spec fn abs(x: int) -> int {
    if x >= 0 {
        x
    } else {
        -x
    }
}

/// The quotient of `a` by a positive `b`, rounded towards zero.
pub open spec fn trunc_div(a: int, b: int) -> int {
    if a >= 0 {
        a / b
    } else {
        -((-a) / b)
    }
}

/// A length `s` laid along an axis by a sign.
pub open spec fn directed(sign: int, s: int) -> int {
    if sign > 0 {
        s
    } else if sign < 0 {
        -s
    } else {
        0
    }
}

/// Whether a coordinate lies inside the world.
pub open spec fn in_world(x: int) -> bool {
    -(WORLD_EDGE as int) <= x <= WORLD_EDGE as int
}

/// Whether a displacement is one that a single frame can produce.
pub open spec fn is_step(x: int) -> bool {
    -(STEP_MAX as int) <= x <= STEP_MAX as int
}

/// Whether a coordinate stays inside the world whatever step is added to it.
pub open spec fn has_headroom(x: int) -> bool {
    -(WORLD_EDGE as int) + STEP_MAX as int <= x <= WORLD_EDGE as int - STEP_MAX as int
}

/// The depth at which a sprite standing at height `y` is drawn: one world
/// unit, less a ten-thousandth of `y`, so that sprites farther up the screen
/// are drawn behind those farther down.
pub open spec fn depth_of(y: int) -> int {
    UNIT as int - trunc_div(y, DEPTH_SLOPE as int)
}

pub fn depth(y: i64) -> (z: i64)
    requires
        in_world(y as int),
    ensures
        z == depth_of(y as int),
{
    UNIT - y / DEPTH_SLOPE
}

/// `v * num / den`, rounded towards zero.
pub open spec fn scaled(v: int, num: int, den: int) -> int {
    trunc_div(v * num, den)
}

pub proof fn lemma_scaled_shrinks(v: int, num: int, den: int)
    requires
        0 <= num <= den,
        0 < den,
    ensures
        abs(scaled(v, num, den)) <= abs(v),
        v >= 0 ==> scaled(v, num, den) >= 0,
        v <= 0 ==> scaled(v, num, den) <= 0,
{
    let a = abs(v);
    assert(a * num <= a * den) by (nonlinear_arith)
        requires
            0 <= a,
            0 <= num <= den,
    ;
    assert(0 <= a * num) by (nonlinear_arith)
        requires
            0 <= a,
            0 <= num,
    ;
    assert((a * num) / den <= a) by (nonlinear_arith)
        requires
            0 <= a * num <= a * den,
            0 < den,
    ;
    assert(0 <= (a * num) / den) by (nonlinear_arith)
        requires
            0 <= a * num,
            0 < den,
    ;
    if v >= 0 {
        assert(v * num == a * num);
    } else {
        assert(-(v * num) == a * num) by (nonlinear_arith)
            requires
                a == -v,
        ;
    }
}

/// Scales `v` by the fraction `num / den`, rounding towards zero.
pub fn scale(v: i64, num: i64, den: i64) -> (r: i64)
    requires
        0 <= num <= den,
        0 < den,
    ensures
        r == scaled(v as int, num as int, den as int),
{
    let wide: i128 = v as i128;
    let n: i128 = num as i128;
    let d: i128 = den as i128;
    assert(-0x8000_0000_0000_0000_0000_0000_0000_0000 < wide * n < 0x7fff_ffff_ffff_ffff_ffff_ffff_ffff_ffff)
        by (nonlinear_arith)
        requires
            -0x8000_0000_0000_0000 <= wide < 0x8000_0000_0000_0000,
            0 <= n < 0x8000_0000_0000_0000,
    ;
    proof {
        lemma_scaled_shrinks(v as int, num as int, den as int);
    }
    let q: i128 = (wide * n) / d;
    q as i64
}

} // verus!
