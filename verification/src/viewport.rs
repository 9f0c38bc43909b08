//! The viewport transform: zoom/pan state with clamped scale, and the
//! computation of the screen rectangle in which the image is drawn.
//!
//! Scale factors are fixed-point milliunits: `1000` is a scale of one. The
//! zoom factor is clamped into `[MIN_SCALE, MAX_SCALE]` (0.1 to 10 times the
//! fit scale), and the pan offset is re-clamped against the current scaled
//! size every time the display rectangle is computed, so a viewport resize
//! retroactively pulls an old offset back into range.

use vstd::prelude::*;

verus! {

use crate::geom::{Rect, ScreenVec};
use crate::math::{
    clamp_int, div_nonneg_i128, div_trunc, div_trunc_i128, lemma_div_trunc_bounds,
    lemma_div_trunc_lower, lemma_div_trunc_upper, sat_add_i64, sat_i64,
};
use vstd::arithmetic::div_mod::{
    lemma_div_is_ordered, lemma_div_multiples_vanish, lemma_div_pos_is_pos,
    lemma_fundamental_div_mod,
};
use vstd::arithmetic::mul::{
    lemma_mul_inequality, lemma_mul_is_associative, lemma_mul_is_commutative,
    lemma_mul_nonnegative,
};
use vstd::math::abs;
use vstd::math::max;
use vstd::math::min;

/// One, in fixed-point milliunits.
pub const FP_ONE: i64 = 1000;

/// Smallest zoom factor: one tenth of the fit scale.
pub const MIN_SCALE: i64 = 100;

/// Largest zoom factor: ten times the fit scale.
pub const MAX_SCALE: i64 = 10000;

/// The zoom factor a fresh view starts with: exactly the fit scale.
pub const DEFAULT_SCALE: i64 = 1000;

/// Divisor turning a raw zoom delta into a scale increment; dividing by ten
/// implements the fixed 0.1 zoom sensitivity.
pub const ZOOM_SENSITIVITY_DIV: i64 = 10;

/// Padding kept clear between the viewport edge and the fitted image: twenty
/// screen points per side, in milliunits.
pub const PADDING: i64 = 20000;

/// How far past the image edge the user may pan: one hundred screen points,
/// in milliunits.
pub const EXTRA_PAN_MARGIN: i64 = 100000;

/// Largest viewport coordinate magnitude the transform accepts (a billion
/// screen points, in milliunits); keeps every derived quantity inside `i64`.
pub const COORD_LIMIT: i64 = 1_000_000_000_000;

/// Every display rectangle computed from a viewport within `COORD_LIMIT`
/// stays within this coordinate magnitude.
pub const DISPLAY_LIMIT: i64 = 100_000_000_000_000;

/// Mutable zoom/pan state of one open image. Not persisted across sessions:
/// a fresh session always starts from the default.
#[derive(Clone, Copy, Debug, PartialEq, Eq, Structural)]
pub struct ViewState {
    /// Multiplicative zoom factor relative to the fit scale, in milliunits.
    pub scale: i64,
    /// Translation of the image rectangle's center away from the viewport's
    /// center, in screen-space milliunits.
    pub offset: ScreenVec,
    /// Whether the point-selection sidebar is shown; not part of the
    /// transform itself.
    pub ps_sidebar_shown: bool,
}

impl ViewState {
    /// The scale invariant: always between one tenth and ten times the fit
    /// scale.
    pub open spec fn wf(self) -> bool {
        MIN_SCALE <= self.scale <= MAX_SCALE
    }

    /// The state a fresh view starts in and `reset` returns to.
    pub open spec fn default_spec() -> ViewState {
        ViewState { scale: DEFAULT_SCALE, offset: ScreenVec { x: 0, y: 0 }, ps_sidebar_shown: true }
    }

    /// Restores the default view: fit scale, no pan, sidebar shown.
    pub fn reset(&mut self)
        ensures
            *final(self) == ViewState::default_spec(),
            final(self).wf(),
    {
        self.scale = DEFAULT_SCALE;
        self.offset = ScreenVec { x: 0, y: 0 };
        self.ps_sidebar_shown = true;
    }

    /// Flips the sidebar visibility flag; the transform state is untouched.
    pub fn toggle_sidebar(&mut self)
        ensures
            final(self).ps_sidebar_shown == !old(self).ps_sidebar_shown,
            final(self).scale == old(self).scale,
            final(self).offset == old(self).offset,
    {
        self.ps_sidebar_shown = !self.ps_sidebar_shown;
    }
}

impl Default for ViewState {
    /// A fresh view: fit scale, centered, sidebar shown.
    fn default() -> (r: ViewState)
        ensures
            r == ViewState::default_spec(),
            r.wf(),
    {
        ViewState { scale: DEFAULT_SCALE, offset: ScreenVec { x: 0, y: 0 }, ps_sidebar_shown: true }
    }
}

/// The incremental scale factor a raw zoom delta produces, in milliunits:
/// one plus a tenth of the delta.
pub open spec fn zoom_factor(delta: int) -> int {
    FP_ONE + div_trunc(delta, ZOOM_SENSITIVITY_DIV as int)
}

/// The scale after one zoom step: the old scale times the zoom factor,
/// clamped into the legal range.
pub open spec fn zoomed_scale(scale: int, delta: int) -> int {
    clamp_int(
        div_trunc(scale * zoom_factor(delta), FP_ONE as int),
        MIN_SCALE as int,
        MAX_SCALE as int,
    )
}

/// Law (scale clamp): whatever scale a zoom step starts from and however
/// extreme its delta, the resulting scale lies between one tenth and ten
/// times the fit scale; so over any sequence of zoom inputs the scale
/// never leaves that range.
pub proof fn lemma_scale_always_clamped(scale: int, delta: int)
    ensures
        MIN_SCALE <= zoomed_scale(scale, delta) <= MAX_SCALE,
{
}

/// The width left for the image after the fixed padding, never negative.
pub open spec fn avail_w(vp: Rect) -> int {
    max(vp.width() - 2 * (PADDING as int), 0)
}

/// The height left for the image after the fixed padding, never negative.
pub open spec fn avail_h(vp: Rect) -> int {
    max(vp.height() - 2 * (PADDING as int), 0)
}

/// The fit scale, in milliunits per pixel: the largest scale at which the
/// whole image fits into the padded viewport.
pub open spec fn base_scale(vp: Rect, img_w: int, img_h: int) -> int {
    min(avail_w(vp) / img_w, avail_h(vp) / img_h)
}

/// The effective scale: fit scale times the user's zoom factor.
pub open spec fn total_scale(vp: Rect, img_w: int, img_h: int, scale: int) -> int {
    base_scale(vp, img_w, img_h) * scale / (FP_ONE as int)
}

/// Width of the image as drawn, in screen-space milliunits.
pub open spec fn scaled_w(vp: Rect, img_w: int, img_h: int, scale: int) -> int {
    img_w * total_scale(vp, img_w, img_h, scale)
}

/// Height of the image as drawn, in screen-space milliunits.
pub open spec fn scaled_h(vp: Rect, img_w: int, img_h: int, scale: int) -> int {
    img_h * total_scale(vp, img_w, img_h, scale)
}

/// How far the pan offset may reach on the x axis: half the overhang of the
/// scaled image beyond the viewport, plus the extra pan margin, but never
/// negative.
pub open spec fn max_offset_x(vp: Rect, img_w: int, img_h: int, scale: int) -> int {
    max(
        div_trunc(scaled_w(vp, img_w, img_h, scale) - vp.width(), 2) + EXTRA_PAN_MARGIN as int,
        0,
    )
}

/// The y-axis counterpart of `max_offset_x`.
pub open spec fn max_offset_y(vp: Rect, img_w: int, img_h: int, scale: int) -> int {
    max(
        div_trunc(scaled_h(vp, img_w, img_h, scale) - vp.height(), 2) + EXTRA_PAN_MARGIN as int,
        0,
    )
}

/// x coordinate of the viewport's center.
pub open spec fn center_x(vp: Rect) -> int {
    div_trunc(vp.min_x + vp.max_x, 2)
}

/// y coordinate of the viewport's center.
pub open spec fn center_y(vp: Rect) -> int {
    div_trunc(vp.min_y + vp.max_y, 2)
}

/// Left edge of the display rectangle: the scaled image centered on the
/// viewport, translated by the clamped pan offset.
pub open spec fn rect_min_x(vp: Rect, img_w: int, img_h: int, scale: int, off_x: int) -> int {
    center_x(vp) - scaled_w(vp, img_w, img_h, scale) / 2 + clamp_int(
        off_x,
        -max_offset_x(vp, img_w, img_h, scale),
        max_offset_x(vp, img_w, img_h, scale),
    )
}

/// Top edge of the display rectangle; see `rect_min_x`.
pub open spec fn rect_min_y(vp: Rect, img_w: int, img_h: int, scale: int, off_y: int) -> int {
    center_y(vp) - scaled_h(vp, img_w, img_h, scale) / 2 + clamp_int(
        off_y,
        -max_offset_y(vp, img_w, img_h, scale),
        max_offset_y(vp, img_w, img_h, scale),
    )
}

impl ViewState {
    /// Applies one zoom input sample. A delta arriving while the user is
    /// panning is ignored outright, as is a zero delta; otherwise the scale
    /// is multiplied by the zoom factor and clamped into the legal range,
    /// whatever the delta's magnitude.
    pub fn apply_zoom(&mut self, zoom_delta: i64, is_panning: bool)
        requires
            old(self).wf(),
        ensures
            final(self).wf(),
            final(self).offset == old(self).offset,
            final(self).ps_sidebar_shown == old(self).ps_sidebar_shown,
            (is_panning || zoom_delta == 0) ==> final(self).scale == old(self).scale,
            (!is_panning && zoom_delta != 0) ==> final(self).scale == zoomed_scale(
                old(self).scale as int,
                zoom_delta as int,
            ),
    {
        if is_panning || zoom_delta == 0 {
            return;
        }
        let q: i128 = div_trunc_i128(zoom_delta as i128, ZOOM_SENSITIVITY_DIV as i128);
        let factor: i128 = FP_ONE as i128 + q;
        let s: i128 = self.scale as i128;
        proof {
            lemma_div_trunc_bounds(zoom_delta as int, ZOOM_SENSITIVITY_DIV as int);
            assert(s * factor <= 10000 * 9_300_000_000_000_000_000_i128
                && s * factor >= -10000 * 9_300_000_000_000_000_000_i128) by (nonlinear_arith)
                requires
                    100 <= s <= 10000,
                    -9_300_000_000_000_000_000_i128 <= factor <= 9_300_000_000_000_000_000_i128,
            ;
        }
        let product: i128 = s * factor;
        let lo: i128 = (MIN_SCALE as i128) * (FP_ONE as i128);
        let hi: i128 = (MAX_SCALE as i128) * (FP_ONE as i128);
        let new_scale: i64 = if product <= lo {
            proof {
                lemma_div_trunc_upper(product as int, FP_ONE as int, MIN_SCALE as int);
            }
            MIN_SCALE
        } else if product >= hi {
            proof {
                lemma_div_trunc_lower(product as int, FP_ONE as int, MAX_SCALE as int);
            }
            MAX_SCALE
        } else {
            let d: i128 = div_nonneg_i128(product, FP_ONE as i128);
            proof {
                lemma_div_is_ordered(lo as int, product as int, FP_ONE as int);
                lemma_div_is_ordered(product as int, hi as int, FP_ONE as int);
                lemma_div_multiples_vanish(MIN_SCALE as int, FP_ONE as int);
                lemma_div_multiples_vanish(MAX_SCALE as int, FP_ONE as int);
                lemma_mul_is_commutative(MIN_SCALE as int, FP_ONE as int);
                lemma_mul_is_commutative(MAX_SCALE as int, FP_ONE as int);
            }
            d as i64
        };
        self.scale = new_scale;
    }

    /// Applies one pan input sample. When the user is not dragging nothing
    /// moves; otherwise the drag delta is added to the offset, saturating at
    /// the representable range. The offset is clamped against the image
    /// overhang when the display rectangle is next computed.
    pub fn apply_pan(&mut self, drag_delta: ScreenVec, is_dragging: bool)
        ensures
            final(self).scale == old(self).scale,
            final(self).ps_sidebar_shown == old(self).ps_sidebar_shown,
            !is_dragging ==> final(self).offset == old(self).offset,
            is_dragging ==> final(self).offset.x == sat_i64(
                old(self).offset.x + drag_delta.x,
            ) && final(self).offset.y == sat_i64(old(self).offset.y + drag_delta.y),
    {
        if !is_dragging {
            return;
        }
        self.offset.x = sat_add_i64(self.offset.x, drag_delta.x);
        self.offset.y = sat_add_i64(self.offset.y, drag_delta.y);
    }
}

/// The scaled image size is nonnegative and at most ten times the available
/// area, which keeps every display-rectangle coordinate representable.
proof fn lemma_scaled_bound(vp: Rect, img_w: int, img_h: int, scale: int)
    requires
        vp.wf(),
        1 <= img_w,
        1 <= img_h,
        MIN_SCALE as int <= scale <= MAX_SCALE as int,
    ensures
        0 <= total_scale(vp, img_w, img_h, scale),
        0 <= scaled_w(vp, img_w, img_h, scale) <= 10 * avail_w(vp),
        0 <= scaled_h(vp, img_w, img_h, scale) <= 10 * avail_h(vp),
{
    let aw = avail_w(vp);
    let ah = avail_h(vp);
    let qx = aw / img_w;
    let qy = ah / img_h;
    let b = base_scale(vp, img_w, img_h);
    let t = total_scale(vp, img_w, img_h, scale);
    lemma_div_pos_is_pos(aw, img_w);
    lemma_div_pos_is_pos(ah, img_h);
    // t is nonnegative
    lemma_mul_nonnegative(b, scale);
    lemma_div_pos_is_pos(b * scale, FP_ONE as int);
    lemma_mul_nonnegative(img_w, t);
    lemma_mul_nonnegative(img_h, t);
    // t <= 10 * b
    lemma_mul_inequality(scale, MAX_SCALE as int, b);
    lemma_mul_is_commutative(scale, b);
    lemma_mul_is_commutative(MAX_SCALE as int, b);
    lemma_div_is_ordered(b * scale, MAX_SCALE as int * b, FP_ONE as int);
    assert(MAX_SCALE as int * b == FP_ONE as int * (10 * b));
    lemma_div_multiples_vanish(10 * b, FP_ONE as int);
    assert(t <= 10 * b);
    // img_w * b <= aw and img_h * b <= ah
    lemma_mul_inequality(b, qx, img_w);
    lemma_mul_is_commutative(b, img_w);
    lemma_mul_is_commutative(qx, img_w);
    lemma_fundamental_div_mod(aw, img_w);
    assert(img_w * qx <= aw);
    assert(img_w * b <= aw);
    lemma_mul_inequality(b, qy, img_h);
    lemma_mul_is_commutative(b, img_h);
    lemma_mul_is_commutative(qy, img_h);
    lemma_fundamental_div_mod(ah, img_h);
    assert(img_h * qy <= ah);
    assert(img_h * b <= ah);
    // img_w * t <= img_w * (10 * b) == 10 * (img_w * b) <= 10 * aw
    lemma_mul_inequality(t, 10 * b, img_w);
    lemma_mul_is_commutative(t, img_w);
    lemma_mul_is_commutative(10 * b, img_w);
    lemma_mul_is_associative(10, b, img_w);
    lemma_mul_is_commutative(b, img_w);
    assert(img_w * t <= 10 * (img_w * b));
    lemma_mul_inequality(t, 10 * b, img_h);
    lemma_mul_is_commutative(t, img_h);
    lemma_mul_is_commutative(10 * b, img_h);
    lemma_mul_is_associative(10, b, img_h);
    lemma_mul_is_commutative(b, img_h);
    assert(img_h * t <= 10 * (img_h * b));
}

/// Computes the size of the image as drawn: the image size times the fit
/// scale times the zoom factor, all in milliunits.
fn scaled_size(viewport: &Rect, img_w: u32, img_h: u32, scale: i64) -> (s: (i64, i64))
    requires
        viewport.wf(),
        viewport.bounded(COORD_LIMIT as int),
        1 <= img_w,
        1 <= img_h,
        MIN_SCALE <= scale <= MAX_SCALE,
    ensures
        s.0 == scaled_w(*viewport, img_w as int, img_h as int, scale as int),
        s.1 == scaled_h(*viewport, img_w as int, img_h as int, scale as int),
        0 <= s.0 <= 20_000_000_000_000,
        0 <= s.1 <= 20_000_000_000_000,
{
    let ghost vp: Rect = *viewport;
    let ghost iw: int = img_w as int;
    let ghost ih: int = img_h as int;
    let vp_w: i128 = viewport.max_x as i128 - viewport.min_x as i128;
    let vp_h: i128 = viewport.max_y as i128 - viewport.min_y as i128;

    // available area after padding
    let mut aw: i128 = vp_w - 2 * (PADDING as i128);
    if aw < 0 {
        aw = 0;
    }
    let mut ah: i128 = vp_h - 2 * (PADDING as i128);
    if ah < 0 {
        ah = 0;
    }
    assert(aw == avail_w(vp) && ah == avail_h(vp));

    // fit scale, then effective scale
    let qx: i128 = div_nonneg_i128(aw, img_w as i128);
    let qy: i128 = div_nonneg_i128(ah, img_h as i128);
    let base: i128 = if qx <= qy {
        qx
    } else {
        qy
    };
    assert(base == base_scale(vp, iw, ih));
    proof {
        assert(base * (s128_of(scale)) >= 0 && base * (s128_of(scale)) <= 0x2_0000_0000_0000_i128
            * 10000) by (nonlinear_arith)
            requires
                0 <= base <= 0x2_0000_0000_0000_i128,
                100 <= s128_of(scale) <= 10000,
        ;
    }
    let product: i128 = base * (scale as i128);
    let total: i128 = div_nonneg_i128(product, FP_ONE as i128);
    assert(total == total_scale(vp, iw, ih, scale as int));
    proof {
        lemma_scaled_bound(vp, iw, ih, scale as int);
        assert(iw * (total as int) == scaled_w(vp, iw, ih, scale as int));
        assert(ih * (total as int) == scaled_h(vp, iw, ih, scale as int));
    }
    let sw: i128 = (img_w as i128) * total;
    let sh: i128 = (img_h as i128) * total;
    (sw as i64, sh as i64)
}

impl ViewState {
    /// Computes the screen rectangle in which the image is drawn: the image
    /// is scaled by the fit scale times the zoom factor, centered on the
    /// padded viewport, and translated by the pan offset, which is first
    /// re-clamped against the current overhang. The re-clamp is a side
    /// effect on the state, so an offset that a viewport resize has made too
    /// large is pulled back into range here.
    #[verifier::rlimit(100)]
    pub fn compute_display_rect(&mut self, viewport: &Rect, img_w: u32, img_h: u32) -> (r: Rect)
        requires
            old(self).wf(),
            viewport.wf(),
            viewport.bounded(COORD_LIMIT as int),
            1 <= img_w,
            1 <= img_h,
        ensures
            final(self).wf(),
            final(self).scale == old(self).scale,
            final(self).ps_sidebar_shown == old(self).ps_sidebar_shown,
            final(self).offset.x == clamp_int(
                old(self).offset.x as int,
                -max_offset_x(*viewport, img_w as int, img_h as int, old(self).scale as int),
                max_offset_x(*viewport, img_w as int, img_h as int, old(self).scale as int),
            ),
            final(self).offset.y == clamp_int(
                old(self).offset.y as int,
                -max_offset_y(*viewport, img_w as int, img_h as int, old(self).scale as int),
                max_offset_y(*viewport, img_w as int, img_h as int, old(self).scale as int),
            ),
            abs(final(self).offset.x as int) <= max_offset_x(
                *viewport,
                img_w as int,
                img_h as int,
                old(self).scale as int,
            ),
            abs(final(self).offset.y as int) <= max_offset_y(
                *viewport,
                img_w as int,
                img_h as int,
                old(self).scale as int,
            ),
            r.min_x == rect_min_x(
                *viewport,
                img_w as int,
                img_h as int,
                old(self).scale as int,
                old(self).offset.x as int,
            ),
            r.min_y == rect_min_y(
                *viewport,
                img_w as int,
                img_h as int,
                old(self).scale as int,
                old(self).offset.y as int,
            ),
            r.width() == scaled_w(*viewport, img_w as int, img_h as int, old(self).scale as int),
            r.height() == scaled_h(*viewport, img_w as int, img_h as int, old(self).scale as int),
            r.wf(),
            r.bounded(DISPLAY_LIMIT as int),
    {
        let ghost vp: Rect = *viewport;
        let ghost iw: int = img_w as int;
        let ghost ih: int = img_h as int;
        let ghost sc: int = self.scale as int;
        let vp_min_x: i128 = viewport.min_x as i128;
        let vp_max_x: i128 = viewport.max_x as i128;
        let vp_min_y: i128 = viewport.min_y as i128;
        let vp_max_y: i128 = viewport.max_y as i128;
        let vp_w: i128 = vp_max_x - vp_min_x;
        let vp_h: i128 = vp_max_y - vp_min_y;

        let size: (i64, i64) = scaled_size(viewport, img_w, img_h, self.scale);
        let sw: i128 = size.0 as i128;
        let sh: i128 = size.1 as i128;

        // pan clamp margins
        let tx: i128 = div_trunc_i128(sw - vp_w, 2) + EXTRA_PAN_MARGIN as i128;
        let ty: i128 = div_trunc_i128(sh - vp_h, 2) + EXTRA_PAN_MARGIN as i128;
        let mox: i128 = if tx > 0 {
            tx
        } else {
            0
        };
        let moy: i128 = if ty > 0 {
            ty
        } else {
            0
        };
        proof {
            lemma_div_trunc_upper((sw - vp_w) as int, 2, 10_000_000_000_000int);
            lemma_div_trunc_upper((sh - vp_h) as int, 2, 10_000_000_000_000int);
        }
        assert(mox == max_offset_x(vp, iw, ih, sc) && moy == max_offset_y(vp, iw, ih, sc));
        assert(0 <= mox <= 10_000_100_000_000_i128 && 0 <= moy <= 10_000_100_000_000_i128);

        // re-clamp the pan offset
        let mut ox: i128 = self.offset.x as i128;
        if ox < -mox {
            ox = -mox;
        }
        if ox > mox {
            ox = mox;
        }
        let mut oy: i128 = self.offset.y as i128;
        if oy < -moy {
            oy = -moy;
        }
        if oy > moy {
            oy = moy;
        }
        assert(ox == clamp_int(old(self).offset.x as int, -(mox as int), mox as int));
        assert(oy == clamp_int(old(self).offset.y as int, -(moy as int), moy as int));
        self.offset.x = ox as i64;
        self.offset.y = oy as i64;

        // the scaled rectangle, centered and translated
        let cx: i128 = div_trunc_i128(vp_min_x + vp_max_x, 2);
        let cy: i128 = div_trunc_i128(vp_min_y + vp_max_y, 2);
        proof {
            lemma_div_trunc_bounds((vp_min_x + vp_max_x) as int, 2);
            lemma_div_trunc_bounds((vp_min_y + vp_max_y) as int, 2);
        }
        let half_w: i128 = div_nonneg_i128(sw, 2);
        let half_h: i128 = div_nonneg_i128(sh, 2);
        let min_x: i128 = cx - half_w + ox;
        let min_y: i128 = cy - half_h + oy;
        let max_x: i128 = min_x + sw;
        let max_y: i128 = min_y + sh;
        assert(min_x == rect_min_x(vp, iw, ih, sc, old(self).offset.x as int));
        assert(min_y == rect_min_y(vp, iw, ih, sc, old(self).offset.y as int));
        Rect {
            min_x: min_x as i64,
            min_y: min_y as i64,
            max_x: max_x as i64,
            max_y: max_y as i64,
        }
    }
}

/// Spec-level name for widening an `i64` to an `i128`, used to phrase
/// nonlinear side conditions.
pub open spec fn s128_of(v: i64) -> i128 {
    v as i128
}

} // verus!
