use vstd::prelude::*;

verus! {

/// Units in one full turn (2π radians).
pub const FULL_TURN: i64 = 4294967296;

/// Units in one half turn (π radians).
pub const HALF_TURN: i64 = 2147483648;

/// A point on the sphere: declination (polar angle) and azimuth, in turn units.
#[derive(Clone, Copy, Debug, PartialEq, Eq, Structural)]
pub struct SphereAngles {
    pub declination: i64,
    pub azimuth: i64,
}

/// `a` wrapped into `[0, period)`.
pub open spec fn wrap(a: int, period: int) -> int {
    a % period
}

/// Wraps an azimuth into `[0, FULL_TURN)`, negative operands included.
pub fn normalize_azimuth(a: i64) -> (r: i64)
    ensures
        r == wrap(a as int, FULL_TURN as int),
        0 <= r < FULL_TURN,
{
    let m = a % FULL_TURN;
    if m < 0 {
        m + FULL_TURN
    } else {
        m
    }
}

/// Wraps a declination into `[0, HALF_TURN)`, negative operands included.
pub fn normalize_declination(d: i64) -> (r: i64)
    ensures
        r == wrap(d as int, HALF_TURN as int),
        0 <= r < HALF_TURN,
{
    let m = d % HALF_TURN;
    if m < 0 {
        m + HALF_TURN
    } else {
        m
    }
}

/// Wrapping is idempotent: wrapping a wrapped angle changes nothing.
pub proof fn lemma_wrap_idempotent(a: int, period: int)
    requires
        period > 0,
    ensures
        wrap(wrap(a, period), period) == wrap(a, period),
{
    vstd::arithmetic::div_mod::lemma_mod_twice(a, period);
}

/// Normalizing an azimuth or a declination twice gives the same angle as once.
pub proof fn lemma_normalize_idempotent(angles: SphereAngles)
    ensures
        wrap(wrap(angles.azimuth as int, FULL_TURN as int), FULL_TURN as int) == wrap(
            angles.azimuth as int,
            FULL_TURN as int,
        ),
        wrap(wrap(angles.declination as int, HALF_TURN as int), HALF_TURN as int) == wrap(
            angles.declination as int,
            HALF_TURN as int,
        ),
{
    lemma_wrap_idempotent(angles.azimuth as int, FULL_TURN as int);
    lemma_wrap_idempotent(angles.declination as int, HALF_TURN as int);
}

/// Texture row of a normalized declination: `floor(d / π * height)`.
pub open spec fn row_of(d: int, height: int) -> int {
    d * height / (HALF_TURN as int)
}

/// Texture column of a normalized azimuth: `floor(a / 2π * width)`.
pub open spec fn col_of(a: int, width: int) -> int {
    a * width / (FULL_TURN as int)
}

/// Row of the texel that a normalized declination falls on; always below `height`.
pub fn texel_row(d: i64, height: u32) -> (r: u32)
    requires
        0 <= d < HALF_TURN,
        height > 0,
    ensures
        r == row_of(d as int, height as int),
        r < height,
{
    assert(0 <= d * height < HALF_TURN * height <= HALF_TURN * 0x1_0000_0000) by (nonlinear_arith)
        requires 0 <= d < HALF_TURN, 0 < height < 0x1_0000_0000;
    let p: u64 = d as u64 * height as u64;
    proof {
        assert(HALF_TURN * height == height * HALF_TURN) by (nonlinear_arith);
        assert((p as int) < HALF_TURN * height);
        vstd::arithmetic::div_mod::lemma_div_by_multiple_is_strongly_ordered(p as int, HALF_TURN * height, height as int, HALF_TURN as int);
    }
    (p / (HALF_TURN as u64)) as u32
}

/// Column of the texel that a normalized azimuth falls on; always below `width`.
pub fn texel_col(a: i64, width: u32) -> (c: u32)
    requires
        0 <= a < FULL_TURN,
        width > 0,
    ensures
        c == col_of(a as int, width as int),
        c < width,
{
    assert(0 <= a * width < FULL_TURN * width <= FULL_TURN * 0xffff_ffff) by (nonlinear_arith)
        requires 0 <= a < FULL_TURN, 0 < width <= 0xffff_ffff;
    let p: u64 = a as u64 * width as u64;
    proof {
        assert(FULL_TURN * width == width * FULL_TURN) by (nonlinear_arith);
        vstd::arithmetic::div_mod::lemma_div_by_multiple_is_strongly_ordered(p as int, FULL_TURN * width, width as int, FULL_TURN as int);
    }
    (p / (FULL_TURN as u64)) as u32
}

} // verus!
