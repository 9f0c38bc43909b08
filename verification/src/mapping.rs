//! The bidirectional mapping between screen space and image-pixel space for
//! a given display rectangle, and the law that the two directions invert
//! each other exactly at the rectangle's corners.

use vstd::prelude::*;

verus! {

use crate::geom::{Rect, ScreenVec};
use crate::math::{
    div_nonneg_i128, div_trunc, div_trunc_i128, lemma_div_trunc_bounds, lemma_div_trunc_upper,
    sat_i64,
};
use crate::points::PixelCoordinate;
use crate::viewport::{DISPLAY_LIMIT, FP_ONE};
use vstd::arithmetic::div_mod::{lemma_div_multiples_vanish, lemma_div_pos_is_pos};

/// Image x coordinate (in milli-pixels) of a screen position on one axis:
/// the position's fraction of the rectangle's extent, times the image size.
/// Meaningful for `rect_min <= pos <= rect_min + rect_size` and
/// `rect_size > 0`.
pub open spec fn screen_to_image_axis(pos: int, rect_min: int, rect_size: int, img: int) -> int {
    (pos - rect_min) * img * (FP_ONE as int) / rect_size
}

/// Screen coordinate (in milliunits) of an image position on one axis: the
/// linear map that places milli-pixel `0` on the rectangle's near edge and
/// milli-pixel `img * 1000` on its far edge. Meaningful for `img >= 1`.
pub open spec fn image_to_screen_axis(px: int, rect_min: int, rect_size: int, img: int) -> int {
    rect_min + div_trunc(px * rect_size, img * (FP_ONE as int))
}

/// Converts a screen position inside the display rectangle to image-pixel
/// space. A position outside the rectangle, or a degenerate rectangle,
/// yields no conversion rather than a junk coordinate.
pub fn screen_to_image(pos: ScreenVec, rect: &Rect, img_w: u32, img_h: u32) -> (r: Option<
    PixelCoordinate,
>)
    requires
        1 <= img_w,
        1 <= img_h,
    ensures
        r is Some <==> rect.width() > 0 && rect.height() > 0 && rect.contains(pos),
        r matches Some(p) ==> p.x == screen_to_image_axis(
            pos.x as int,
            rect.min_x as int,
            rect.width(),
            img_w as int,
        ) && p.y == screen_to_image_axis(
            pos.y as int,
            rect.min_y as int,
            rect.height(),
            img_h as int,
        ) && 0 <= p.x <= img_w * (FP_ONE as int) && 0 <= p.y <= img_h * (FP_ONE as int),
{
    if rect.max_x <= rect.min_x || rect.max_y <= rect.min_y {
        return None;
    }
    if !rect.contains_point(pos) {
        return None;
    }
    let w: i128 = rect.max_x as i128 - rect.min_x as i128;
    let h: i128 = rect.max_y as i128 - rect.min_y as i128;
    let dx: i128 = pos.x as i128 - rect.min_x as i128;
    let dy: i128 = pos.y as i128 - rect.min_y as i128;
    proof {
        assert(0 <= (dx as int) * (img_w as int) <= 0x2_0000_0000_0000_0000_0000_0000int && (
        dx as int) * (img_w as int) * 1000 <= (img_w as int) * 1000 * (w as int))
            by (nonlinear_arith)
            requires
                0 <= dx as int <= w as int,
                w as int <= 0x2_0000_0000_0000_0000int,
                1 <= img_w as int <= 0x1_0000_0000int,
        ;
        assert(0 <= (dy as int) * (img_h as int) <= 0x2_0000_0000_0000_0000_0000_0000int && (
        dy as int) * (img_h as int) * 1000 <= (img_h as int) * 1000 * (h as int))
            by (nonlinear_arith)
            requires
                0 <= dy as int <= h as int,
                h as int <= 0x2_0000_0000_0000_0000int,
                1 <= img_h as int <= 0x1_0000_0000int,
        ;
    }
    let tx: i128 = dx * (img_w as i128);
    let ty: i128 = dy * (img_h as i128);
    let nx: i128 = tx * (FP_ONE as i128);
    let ny: i128 = ty * (FP_ONE as i128);
    let px: i128 = div_nonneg_i128(nx, w);
    let py: i128 = div_nonneg_i128(ny, h);
    proof {
        lemma_div_trunc_upper(nx as int, w as int, (img_w as int) * (FP_ONE as int));
        lemma_div_trunc_upper(ny as int, h as int, (img_h as int) * (FP_ONE as int));
        lemma_div_pos_is_pos(nx as int, w as int);
        lemma_div_pos_is_pos(ny as int, h as int);
    }
    Some(PixelCoordinate { x: px as i64, y: py as i64 })
}

/// Converts an image-pixel position to screen space for the given display
/// rectangle: the forward direction of the map, used to place annotation
/// marks. Any pixel value is accepted, including ones far outside the image
/// (as a corrupted save may contain); a result beyond the representable
/// range saturates, which leaves the mark off-screen, never a crash.
pub fn image_to_screen(p: PixelCoordinate, rect: &Rect, img_w: u32, img_h: u32) -> (r: ScreenVec)
    requires
        1 <= img_w,
        1 <= img_h,
        rect.bounded(DISPLAY_LIMIT as int),
    ensures
        r.x == sat_i64(
            image_to_screen_axis(p.x as int, rect.min_x as int, rect.width(), img_w as int),
        ),
        r.y == sat_i64(
            image_to_screen_axis(p.y as int, rect.min_y as int, rect.height(), img_h as int),
        ),
{
    let w: i128 = rect.max_x as i128 - rect.min_x as i128;
    let h: i128 = rect.max_y as i128 - rect.min_y as i128;
    proof {
        assert(-0x4_0000_0000_0000_0000_0000_0000_0000int <= (p.x as int) * (w as int)
            <= 0x4_0000_0000_0000_0000_0000_0000_0000int && -0x4_0000_0000_0000_0000_0000_0000_0000int
            <= (p.y as int) * (h as int) <= 0x4_0000_0000_0000_0000_0000_0000_0000int)
            by (nonlinear_arith)
            requires
                -0x8000_0000_0000_0000int <= p.x as int <= 0x8000_0000_0000_0000int,
                -0x8000_0000_0000_0000int <= p.y as int <= 0x8000_0000_0000_0000int,
                -200_000_000_000_000int <= w as int <= 200_000_000_000_000int,
                -200_000_000_000_000int <= h as int <= 200_000_000_000_000int,
        ;
        lemma_div_trunc_bounds((p.x as int) * (w as int), (img_w as int) * (
        FP_ONE as int));
        lemma_div_trunc_bounds((p.y as int) * (h as int), (img_h as int) * (
        FP_ONE as int));
        vstd::arithmetic::mul::lemma_mul_strictly_positive(img_w as int, FP_ONE as int);
        vstd::arithmetic::mul::lemma_mul_strictly_positive(img_h as int, FP_ONE as int);
    }
    let nx: i128 = (p.x as i128) * w;
    let ny: i128 = (p.y as i128) * h;
    let qx: i128 = div_trunc_i128(nx, (img_w as i128) * (FP_ONE as i128));
    let qy: i128 = div_trunc_i128(ny, (img_h as i128) * (FP_ONE as i128));
    let sx: i128 = rect.min_x as i128 + qx;
    let sy: i128 = rect.min_y as i128 + qy;
    let rx: i64 = if sx > i64::MAX as i128 {
        i64::MAX
    } else if sx < i64::MIN as i128 {
        i64::MIN
    } else {
        sx as i64
    };
    let ry: i64 = if sy > i64::MAX as i128 {
        i64::MAX
    } else if sy < i64::MIN as i128 {
        i64::MIN
    } else {
        sy as i64
    };
    ScreenVec { x: rx, y: ry }
}

/// Law: the two conversions invert each other exactly at the display
/// rectangle's corners. A click on the rectangle's top-left corner resolves
/// to pixel `(0, 0)` and one on the bottom-right corner to the image's full
/// size; placing those pixels back on the screen lands on the same corners,
/// so converting a corner, projecting it, and converting again changes
/// nothing.
pub proof fn lemma_corner_round_trip(rect: Rect, img_w: int, img_h: int)
    requires
        rect.wf(),
        rect.width() > 0,
        rect.height() > 0,
        1 <= img_w,
        1 <= img_h,
    ensures
        screen_to_image_axis(rect.min_x as int, rect.min_x as int, rect.width(), img_w) == 0,
        screen_to_image_axis(rect.min_y as int, rect.min_y as int, rect.height(), img_h) == 0,
        screen_to_image_axis(rect.max_x as int, rect.min_x as int, rect.width(), img_w) == img_w
            * (FP_ONE as int),
        screen_to_image_axis(rect.max_y as int, rect.min_y as int, rect.height(), img_h) == img_h
            * (FP_ONE as int),
        image_to_screen_axis(0, rect.min_x as int, rect.width(), img_w) == rect.min_x,
        image_to_screen_axis(0, rect.min_y as int, rect.height(), img_h) == rect.min_y,
        image_to_screen_axis(img_w * (FP_ONE as int), rect.min_x as int, rect.width(), img_w)
            == rect.max_x,
        image_to_screen_axis(img_h * (FP_ONE as int), rect.min_y as int, rect.height(), img_h)
            == rect.max_y,
        screen_to_image_axis(
            image_to_screen_axis(
                screen_to_image_axis(rect.min_x as int, rect.min_x as int, rect.width(), img_w),
                rect.min_x as int,
                rect.width(),
                img_w,
            ),
            rect.min_x as int,
            rect.width(),
            img_w,
        ) == screen_to_image_axis(rect.min_x as int, rect.min_x as int, rect.width(), img_w),
        screen_to_image_axis(
            image_to_screen_axis(
                screen_to_image_axis(rect.max_x as int, rect.min_x as int, rect.width(), img_w),
                rect.min_x as int,
                rect.width(),
                img_w,
            ),
            rect.min_x as int,
            rect.width(),
            img_w,
        ) == screen_to_image_axis(rect.max_x as int, rect.min_x as int, rect.width(), img_w),
{
    let w = rect.width();
    let h = rect.height();
    let kx = img_w * (FP_ONE as int);
    let ky = img_h * (FP_ONE as int);
    // near corners: a zero numerator divides to zero
    lemma_div_pos_is_pos(0, w);
    lemma_div_is_le_zero(0, w);
    lemma_div_pos_is_pos(0, h);
    lemma_div_is_le_zero(0, h);
    lemma_div_pos_is_pos(0, kx);
    lemma_div_is_le_zero(0, kx);
    lemma_div_pos_is_pos(0, ky);
    lemma_div_is_le_zero(0, ky);
    // far corners: the numerator is an exact multiple of the divisor
    assert((rect.max_x - rect.min_x) * img_w * (FP_ONE as int) == w * kx) by (nonlinear_arith)
        requires
            w == rect.max_x - rect.min_x,
            kx == img_w * (FP_ONE as int),
            FP_ONE == 1000,
    ;
    lemma_div_multiples_vanish(kx, w);
    vstd::arithmetic::mul::lemma_mul_is_commutative(kx, w);
    assert((rect.max_y - rect.min_y) * img_h * (FP_ONE as int) == h * ky) by (nonlinear_arith)
        requires
            h == rect.max_y - rect.min_y,
            ky == img_h * (FP_ONE as int),
            FP_ONE == 1000,
    ;
    lemma_div_multiples_vanish(ky, h);
    vstd::arithmetic::mul::lemma_mul_is_commutative(ky, h);
    vstd::arithmetic::mul::lemma_mul_nonnegative(kx, w);
    vstd::arithmetic::mul::lemma_mul_nonnegative(ky, h);
    lemma_div_multiples_vanish(w, kx);
    vstd::arithmetic::mul::lemma_mul_is_commutative(w, kx);
    lemma_div_multiples_vanish(h, ky);
    vstd::arithmetic::mul::lemma_mul_is_commutative(h, ky);
}

/// A nonpositive numerator over a positive divisor stays nonpositive; with
/// `lemma_div_pos_is_pos` this pins a zero quotient.
proof fn lemma_div_is_le_zero(a: int, b: int)
    requires
        a == 0,
        b > 0,
    ensures
        a / b <= 0,
{
    vstd::arithmetic::div_mod::lemma_div_nonincreasing(a, b);
}

} // verus!
