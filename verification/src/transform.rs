//! The pure mapping between math space and screen space.
//!
//! A math point `(x, y)` in milli-units maps to the screen position
//! `(width/2 + x * sf, height/2 - y * sf)` — the y axis is inverted, since
//! positive math-y points up while positive screen-y points down. Screen
//! positions count micro-pixels (millionths of a pixel): a milli-unit
//! coordinate times a milli-pixel scale factor lands there exactly, so the
//! transform loses nothing and has an exact inverse.
use vstd::prelude::*;

use vstd::arithmetic::div_mod::{lemma_div_multiples_vanish, lemma_fundamental_div_mod};
use vstd::arithmetic::mul::{lemma_mul_is_commutative, lemma_mul_unary_negation};

verus! {

/// Micro-pixels per half pixel: used to center on the viewport.
pub const HALF_PIXEL_MICRO: i64 = 500000;

/// Largest magnitude of a math coordinate, in milli-units.
pub const COORD_LIMIT: i64 = 1000000000;

/// Largest viewport width or height, in pixels.
pub const DIM_LIMIT: i64 = 1000000;

/// Largest scale factor, in milli-pixels per math unit.
pub const SF_LIMIT: i64 = 1000000000;

/// A viewport: its extent in pixels and the current scale factor in
/// milli-pixels per math unit (grid pitch times zoom).
#[derive(Clone, Copy, Debug, PartialEq, Eq, Structural)]
pub struct Viewport {
    pub width: i64,
    pub height: i64,
    pub scale_factor: i64,
}

impl Viewport {
    /// Extents are nonnegative and bounded; the scale factor is positive and
    /// bounded, so that every in-range math point lands on a representable
    /// screen position.
    pub open spec fn wf(self) -> bool {
        &&& 0 <= self.width <= DIM_LIMIT
        &&& 0 <= self.height <= DIM_LIMIT
        &&& 1 <= self.scale_factor <= SF_LIMIT
    }
}

/// A screen position in micro-pixels.
#[derive(Clone, Copy, Debug, PartialEq, Eq, Structural)]
pub struct ScreenPoint {
    pub sx: i64,
    pub sy: i64,
}

/// Where math-x `x` lands on screen: half the width plus `x` scaled.
pub open spec fn screen_x(x: int, width: int, sf: int) -> int {
    width * HALF_PIXEL_MICRO + x * sf
}

/// Where math-y `y` lands on screen: half the height minus `y` scaled.
pub open spec fn screen_y(y: int, height: int, sf: int) -> int {
    height * HALF_PIXEL_MICRO - y * sf
}

/// The math-x that landed on screen-x `sx`, for exactly representable points.
pub open spec fn math_x(sx: int, width: int, sf: int) -> int {
    (sx - width * HALF_PIXEL_MICRO) / sf
}

/// The math-y that landed on screen-y `sy`, for exactly representable points.
pub open spec fn math_y(sy: int, height: int, sf: int) -> int {
    (height * HALF_PIXEL_MICRO - sy) / sf
}

/// Products of an in-range coordinate and an in-range scale factor stay
/// within one quintillion micro-pixels of the origin.
proof fn lemma_product_bound(x: int, sf: int)
    requires
        -COORD_LIMIT <= x <= COORD_LIMIT,
        1 <= sf <= SF_LIMIT,
    ensures
        -(COORD_LIMIT as int) * (SF_LIMIT as int) <= x * sf <= (COORD_LIMIT as int) * (
        SF_LIMIT as int),
{
    assert(-(COORD_LIMIT as int) * (SF_LIMIT as int) <= x * sf <= (COORD_LIMIT as int) * (
    SF_LIMIT as int)) by (nonlinear_arith)
        requires
            -COORD_LIMIT <= x <= COORD_LIMIT,
            1 <= sf <= SF_LIMIT,
    ;
}

/// Map a math point to its screen position under the given viewport.
pub fn to_screen(x: i64, y: i64, vp: &Viewport) -> (p: ScreenPoint)
    requires
        vp.wf(),
        -COORD_LIMIT <= x <= COORD_LIMIT,
        -COORD_LIMIT <= y <= COORD_LIMIT,
    ensures
        p.sx == screen_x(x as int, vp.width as int, vp.scale_factor as int),
        p.sy == screen_y(y as int, vp.height as int, vp.scale_factor as int),
{
    proof {
        lemma_product_bound(x as int, vp.scale_factor as int);
        lemma_product_bound(y as int, vp.scale_factor as int);
    }
    let sx = vp.width * HALF_PIXEL_MICRO + x * vp.scale_factor;
    let sy = vp.height * HALF_PIXEL_MICRO - y * vp.scale_factor;
    ScreenPoint { sx, sy }
}

/// Divide `num` by `den` exactly: `den` must be positive and divide `num`.
fn exact_div(num: i64, den: i64) -> (q: i64)
    requires
        1 <= den,
        num % den == 0,
        i64::MIN < num,
    ensures
        q == num as int / den as int,
        q * den == num,
{
    proof {
        lemma_fundamental_div_mod(num as int, den as int);
        lemma_exact_quotient_in_range(num as int, den as int);
        lemma_mul_is_commutative(num as int / den as int, den as int);
    }
    if num >= 0 {
        ((num as u64) / (den as u64)) as i64
    } else {
        proof {
            let q = num as int / den as int;
            lemma_div_multiples_vanish(-q, den as int);
            lemma_mul_unary_negation(den as int, q);
            assert((den as int) * (-q) == -(num as int));
        }
        let m = (-num) as u64;
        let mq = (m / (den as u64)) as i64;
        -mq
    }
}

/// An exact quotient is no larger in magnitude than what was divided.
proof fn lemma_exact_quotient_in_range(num: int, den: int)
    requires
        1 <= den,
        num % den == 0,
    ensures
        num >= 0 ==> 0 <= num / den <= num,
        num < 0 ==> num <= num / den <= 0,
{
    lemma_fundamental_div_mod(num, den);
    let q = num / den;
    assert(num == den * q);
    assert(num >= 0 ==> 0 <= q <= num) by (nonlinear_arith)
        requires
            1 <= den,
            num == den * q,
    ;
    assert(num < 0 ==> num <= q <= 0) by (nonlinear_arith)
        requires
            1 <= den,
            num == den * q,
    ;
}

/// Map a screen position back to the math point that produced it. Only
/// positions that a math point lands on exactly can come back: the offsets
/// from the viewport center must be multiples of the scale factor.
pub fn from_screen(p: ScreenPoint, vp: &Viewport) -> (xy: (i64, i64))
    requires
        vp.wf(),
        (p.sx - vp.width * HALF_PIXEL_MICRO) % (vp.scale_factor as int) == 0,
        (vp.height * HALF_PIXEL_MICRO - p.sy) % (vp.scale_factor as int) == 0,
        i64::MIN < p.sx - vp.width * HALF_PIXEL_MICRO <= i64::MAX,
        i64::MIN < vp.height * HALF_PIXEL_MICRO - p.sy <= i64::MAX,
    ensures
        xy.0 == math_x(p.sx as int, vp.width as int, vp.scale_factor as int),
        xy.1 == math_y(p.sy as int, vp.height as int, vp.scale_factor as int),
{
    let dx = p.sx - vp.width * HALF_PIXEL_MICRO;
    let dy = vp.height * HALF_PIXEL_MICRO - p.sy;
    let x = exact_div(dx, vp.scale_factor);
    let y = exact_div(dy, vp.scale_factor);
    (x, y)
}

/// The transform is a bijection for a fixed viewport: mapping a math point
/// to the screen and back recovers it exactly.
pub proof fn lemma_transform_round_trip(x: int, y: int, width: int, height: int, sf: int)
    requires
        1 <= sf,
    ensures
        math_x(screen_x(x, width, sf), width, sf) == x,
        math_y(screen_y(y, height, sf), height, sf) == y,
{
    lemma_mul_is_commutative(x, sf);
    lemma_mul_is_commutative(y, sf);
    lemma_div_multiples_vanish(x, sf);
    lemma_div_multiples_vanish(y, sf);
}

/// And back the other way: a screen position whose offsets from the center
/// are exact multiples of the scale factor is recovered by mapping its math
/// point to the screen.
pub proof fn lemma_transform_round_trip_screen(sx: int, sy: int, width: int, height: int, sf: int)
    requires
        1 <= sf,
        (sx - width * HALF_PIXEL_MICRO) % sf == 0,
        (height * HALF_PIXEL_MICRO - sy) % sf == 0,
    ensures
        screen_x(math_x(sx, width, sf), width, sf) == sx,
        screen_y(math_y(sy, height, sf), height, sf) == sy,
{
    lemma_fundamental_div_mod(sx - width * HALF_PIXEL_MICRO, sf);
    lemma_fundamental_div_mod(height * HALF_PIXEL_MICRO - sy, sf);
    lemma_mul_is_commutative((sx - width * HALF_PIXEL_MICRO) / sf, sf);
    lemma_mul_is_commutative((height * HALF_PIXEL_MICRO - sy) / sf, sf);
}

} // verus!
