//! Pointer travel in whole micro-pixels, and its conversion to meters.

use vstd::prelude::*;

verus! {

/// Micro-pixels in one pixel.
pub const MICROPIXELS_PER_PIXEL: u64 = 1_000_000;

/// Numerator of the meters in one micro-pixel. One pixel is 0.0002645833
/// meters (96 DPI), so one micro-pixel is 2645833 / 10^16 meters.
pub const METERS_PER_MICROPIXEL_NUMERATOR: u64 = 2_645_833;

/// Denominator of the meters in one micro-pixel, 10^16.
pub const METERS_PER_MICROPIXEL_DENOMINATOR: u64 = 10_000_000_000_000_000;

/// `r` is the square root of `n`, rounded down.
pub open spec fn is_floor_sqrt(n: nat, r: nat) -> bool {
    r * r <= n < (r + 1) * (r + 1)
}

/// The square root of `n`, rounded down.
pub open spec fn floor_sqrt(n: nat) -> nat {
    choose|r: nat| is_floor_sqrt(n, r)
}

/// At most one number is the rounded-down square root of `n`.
pub proof fn lemma_floor_sqrt_unique(n: nat, a: nat, b: nat)
    requires
        is_floor_sqrt(n, a),
        is_floor_sqrt(n, b),
    ensures
        a == b,
{
    if a < b {
        assert((a + 1) * (a + 1) <= b * b) by (nonlinear_arith)
            requires
                a + 1 <= b,
        ;
    }
    if b < a {
        assert((b + 1) * (b + 1) <= a * a) by (nonlinear_arith)
            requires
                b + 1 <= a,
        ;
    }
}

/// Every number has a rounded-down square root, and `floor_sqrt` is it.
pub proof fn lemma_floor_sqrt(n: nat)
    ensures
        is_floor_sqrt(n, floor_sqrt(n)),
    decreases n,
{
    if n == 0 {
        assert(0 * 0 <= 0 < (0 + 1) * (0 + 1)) by (nonlinear_arith);
        assert(is_floor_sqrt(0, 0));
    } else {
        lemma_floor_sqrt((n - 1) as nat);
        let r = floor_sqrt((n - 1) as nat);
        if (r + 1) * (r + 1) <= n {
            assert((r + 2) * (r + 2) > (r + 1) * (r + 1)) by (nonlinear_arith);
            assert(is_floor_sqrt(n, r + 1));
        } else {
            assert(is_floor_sqrt(n, r));
        }
    }
}

/// The rounded-down square root of a perfect square is its root.
pub proof fn lemma_floor_sqrt_of_square(r: nat)
    ensures
        floor_sqrt(r * r) == r,
{
    assert(r * r < (r + 1) * (r + 1)) by (nonlinear_arith);
    assert(is_floor_sqrt(r * r, r));
    lemma_floor_sqrt(r * r);
    lemma_floor_sqrt_unique(r * r, r, floor_sqrt(r * r));
}

/// The square root of `n`, rounded down.
pub fn integer_sqrt(n: u128) -> (r: u64)
    ensures
        r == floor_sqrt(n as nat),
{
    let mut lo: u128 = 0;
    let mut hi: u128 = 0x1_0000_0000_0000_0000;
    assert(n < 0x1_0000_0000_0000_0000 * 0x1_0000_0000_0000_0000) by (nonlinear_arith)
        requires
            n <= u128::MAX,
    ;
    while hi - lo > 1
        invariant
            lo < hi <= 0x1_0000_0000_0000_0000,
            lo * lo <= n < hi * hi,
        decreases hi - lo,
    {
        let mid: u128 = lo + (hi - lo) / 2;
        assert(mid * mid <= 0xffff_ffff_ffff_ffff * 0xffff_ffff_ffff_ffff) by (nonlinear_arith)
            requires
                0 <= mid <= 0xffff_ffff_ffff_ffff,
        ;
        if mid * mid <= n {
            lo = mid;
        } else {
            hi = mid;
        }
    }
    proof {
        assert(hi == lo + 1);
        assert(is_floor_sqrt(n as nat, lo as nat));
        lemma_floor_sqrt(n as nat);
        lemma_floor_sqrt_unique(n as nat, lo as nat, floor_sqrt(n as nat));
    }
    lo as u64
}

/// The length of a move by `dx` pixels across and `dy` pixels down: its
/// Euclidean length in micro-pixels, rounded down to a whole micro-pixel.
pub open spec fn step_length(dx: int, dy: int) -> nat {
    floor_sqrt(
        ((dx * dx + dy * dy) * (MICROPIXELS_PER_PIXEL * MICROPIXELS_PER_PIXEL)) as nat,
    )
}

/// A move along one axis is as long as the pixels it covers.
pub proof fn lemma_step_length_on_axis(d: int)
    ensures
        step_length(d, 0) == vstd::math::abs(d) * MICROPIXELS_PER_PIXEL,
        step_length(0, d) == vstd::math::abs(d) * MICROPIXELS_PER_PIXEL,
{
    let r = (vstd::math::abs(d) * MICROPIXELS_PER_PIXEL) as nat;
    assert(r * r == (d * d + 0 * 0) * (MICROPIXELS_PER_PIXEL * MICROPIXELS_PER_PIXEL))
        by (nonlinear_arith)
        requires
            r == d * MICROPIXELS_PER_PIXEL || r == -d * MICROPIXELS_PER_PIXEL,
    ;
    assert(d * d + 0 * 0 == 0 * 0 + d * d);
    lemma_floor_sqrt_of_square(r);
}

/// The length in micro-pixels, rounded down, of the move from one pointer
/// position to another.
pub fn move_length(from_x: i32, from_y: i32, to_x: i32, to_y: i32) -> (len: u64)
    ensures
        len == step_length(to_x - from_x, to_y - from_y),
{
    let dx: i64 = to_x as i64 - from_x as i64;
    let dy: i64 = to_y as i64 - from_y as i64;
    let ax: u128 = (if dx < 0 { -dx } else { dx }) as u128;
    let ay: u128 = (if dy < 0 { -dy } else { dy }) as u128;
    assert(ax * ax == dx * dx && ax * ax <= 0xffff_fffe_0000_0001) by (nonlinear_arith)
        requires
            ax == dx || ax == -dx,
            0 <= ax <= 0xffff_ffff,
    ;
    assert(ay * ay == dy * dy && ay * ay <= 0xffff_fffe_0000_0001) by (nonlinear_arith)
        requires
            ay == dy || ay == -dy,
            0 <= ay <= 0xffff_ffff,
    ;
    let squared: u128 = ax * ax + ay * ay;
    let unit: u128 = MICROPIXELS_PER_PIXEL as u128;
    assert(unit * unit == 1_000_000_000_000) by (nonlinear_arith)
        requires
            unit == 1_000_000,
    ;
    let scale: u128 = unit * unit;
    assert(squared * scale <= 0x2_0000_0000_0000_0000 * 1_000_000_000_000) by (nonlinear_arith)
        requires
            0 <= squared <= 0x2_0000_0000_0000_0000,
            scale == 1_000_000_000_000,
    ;
    integer_sqrt(squared * scale)
}

/// Whole meters in `travel` micro-pixels: the travel in pixels times
/// 0.0002645833, rounded toward zero.
pub open spec fn meters_in(travel: nat) -> nat {
    ((travel * METERS_PER_MICROPIXEL_NUMERATOR) / (METERS_PER_MICROPIXEL_DENOMINATOR as int)) as nat
}

/// Converts travel in micro-pixels to whole meters, rounding toward zero.
pub fn whole_meters(travel: u64) -> (meters: u64)
    ensures
        meters == meters_in(travel as nat),
{
    let scaled: u128 = travel as u128 * METERS_PER_MICROPIXEL_NUMERATOR as u128;
    (scaled / METERS_PER_MICROPIXEL_DENOMINATOR as u128) as u64
}

} // verus!
