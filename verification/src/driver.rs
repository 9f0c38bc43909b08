//! The per-frame interaction driver: ties one sampled batch of pointer and
//! scroll input to the viewport transform and the annotation store. The
//! hosting UI reads the raw input, hands it over as plain values, performs
//! the drawing, and feeds the next batch; every decision in between is made
//! here.

use vstd::prelude::*;

verus! {

use crate::geom::{Rect, ScreenVec};
use crate::mapping::{screen_to_image, screen_to_image_axis};
use crate::math::{clamp_int, sat_i64};
use crate::points::{CoordinatePair, PixelCoordinate};
use crate::store::{added, AnnotationStore, contains_pixel, hits, new_pair, HIT_RADIUS_LIMIT};
use crate::viewport::{
    max_offset_x, max_offset_y, rect_min_x, rect_min_y, scaled_h, scaled_w, zoomed_scale,
    ViewState, COORD_LIMIT, DISPLAY_LIMIT,
};

/// One frame's worth of raw input, sampled once by the hosting UI. Panning
/// and zooming are mutually exclusive within a sample: a zoom delta
/// arriving mid-drag is ignored. A click is reported only once it has
/// completed (button released, not a drag).
pub struct FrameInput {
    /// Where the pointer currently is, if it is over the surface at all.
    pub pointer: Option<ScreenVec>,
    /// How far the pointer was dragged since the previous frame.
    pub drag_delta: ScreenVec,
    /// The combined zoom signal's distance from one, in milliunits.
    pub zoom_delta: i64,
    /// Whether the primary drag is in progress.
    pub dragging: bool,
    /// Whether a click completed this frame.
    pub clicked: bool,
}

/// What one frame of interaction produced: where to draw the image, which
/// point a completed click created, and which point the pointer hovers.
pub struct FrameOutput {
    /// The screen rectangle the image is to be drawn into.
    pub display_rect: Rect,
    /// The point created by this frame's click, if the click landed inside
    /// the image and on a fresh pixel.
    pub added: Option<CoordinatePair>,
    /// The stored point whose mark the pointer currently hovers, for
    /// highlighting; insertion order breaks ties.
    pub hovered: Option<CoordinatePair>,
}

/// The scale after this frame's zoom input is applied.
pub open spec fn scale_after(v: ViewState, input: FrameInput) -> int {
    if input.dragging || input.zoom_delta == 0 {
        v.scale as int
    } else {
        zoomed_scale(v.scale as int, input.zoom_delta as int)
    }
}

/// The x offset after this frame's pan input, before the display-rect
/// clamp.
pub open spec fn offset_x_after_pan(v: ViewState, input: FrameInput) -> int {
    if input.dragging {
        sat_i64(v.offset.x + input.drag_delta.x)
    } else {
        v.offset.x as int
    }
}

/// The y offset after this frame's pan input, before the display-rect
/// clamp.
pub open spec fn offset_y_after_pan(v: ViewState, input: FrameInput) -> int {
    if input.dragging {
        sat_i64(v.offset.y + input.drag_delta.y)
    } else {
        v.offset.y as int
    }
}

/// The image-space point a screen position converts to, for a given
/// display rectangle; meaningful when the position lies inside a
/// non-degenerate rectangle.
pub open spec fn pixel_at(pos: ScreenVec, rect: Rect, img_w: int, img_h: int) -> PixelCoordinate {
    PixelCoordinate {
        x: screen_to_image_axis(pos.x as int, rect.min_x as int, rect.width(), img_w) as i64,
        y: screen_to_image_axis(pos.y as int, rect.min_y as int, rect.height(), img_h) as i64,
    }
}

/// Whether this frame's input clicks inside the given display rectangle:
/// only then is a point added.
pub open spec fn clicks_inside(input: FrameInput, rect: Rect) -> bool {
    &&& input.clicked
    &&& input.pointer is Some
    &&& rect.width() > 0
    &&& rect.height() > 0
    &&& rect.contains(input.pointer.unwrap())
}

/// Runs one frame: applies the zoom and pan samples to the view (zoom
/// first, and never during a drag), computes the display rectangle
/// (re-clamping the pan offset), then resolves a completed click through
/// the screen-to-image mapping into an addition attempt on the store, and
/// finally hit-tests the pointer against the (possibly grown) store for
/// hover highlighting.
pub fn process_frame(
    view: &mut ViewState,
    store: &mut AnnotationStore,
    input: &FrameInput,
    viewport: &Rect,
    img_w: u32,
    img_h: u32,
    hover_radius: i64,
) -> (out: FrameOutput)
    requires
        old(view).wf(),
        old(store).wf(),
        viewport.wf(),
        viewport.bounded(COORD_LIMIT as int),
        1 <= img_w,
        1 <= img_h,
        0 <= hover_radius <= HIT_RADIUS_LIMIT,
    ensures
        final(view).wf(),
        final(store).wf(),
        final(view).ps_sidebar_shown == old(view).ps_sidebar_shown,
        final(view).scale == scale_after(*old(view), *input),
        final(view).offset.x == clamp_int(
            offset_x_after_pan(*old(view), *input),
            -max_offset_x(*viewport, img_w as int, img_h as int, scale_after(*old(view), *input)),
            max_offset_x(*viewport, img_w as int, img_h as int, scale_after(*old(view), *input)),
        ),
        final(view).offset.y == clamp_int(
            offset_y_after_pan(*old(view), *input),
            -max_offset_y(*viewport, img_w as int, img_h as int, scale_after(*old(view), *input)),
            max_offset_y(*viewport, img_w as int, img_h as int, scale_after(*old(view), *input)),
        ),
        out.display_rect.min_x == rect_min_x(
            *viewport,
            img_w as int,
            img_h as int,
            scale_after(*old(view), *input),
            offset_x_after_pan(*old(view), *input),
        ),
        out.display_rect.min_y == rect_min_y(
            *viewport,
            img_w as int,
            img_h as int,
            scale_after(*old(view), *input),
            offset_y_after_pan(*old(view), *input),
        ),
        out.display_rect.width() == scaled_w(
            *viewport,
            img_w as int,
            img_h as int,
            scale_after(*old(view), *input),
        ),
        out.display_rect.height() == scaled_h(
            *viewport,
            img_w as int,
            img_h as int,
            scale_after(*old(view), *input),
        ),
        out.display_rect.wf(),
        out.display_rect.bounded(DISPLAY_LIMIT as int),
        clicks_inside(*input, out.display_rect) ==> {
            let px = pixel_at(
                input.pointer.unwrap(),
                out.display_rect,
                img_w as int,
                img_h as int,
            );
            &&& final(store)@ == added(old(store)@, px)
            &&& (contains_pixel(old(store)@, px) ==> out.added is None)
            &&& (!contains_pixel(old(store)@, px) ==> out.added == Some(new_pair(px)))
        },
        !clicks_inside(*input, out.display_rect) ==> final(store)@ == old(store)@ && out.added
            is None,
        input.pointer is None ==> out.hovered is None,
        input.pointer is Some && out.hovered is None ==> forall|i: int|
            0 <= i < final(store)@.len() ==> !hits(
                final(store)@[i],
                input.pointer.unwrap(),
                out.display_rect,
                img_w as int,
                img_h as int,
                hover_radius as int,
            ),
        out.hovered is Some ==> input.pointer is Some && exists|i: int|
            {
                &&& 0 <= i < final(store)@.len()
                &&& final(store)@[i] == out.hovered.unwrap()
                &&& hits(
                    final(store)@[i],
                    input.pointer.unwrap(),
                    out.display_rect,
                    img_w as int,
                    img_h as int,
                    hover_radius as int,
                )
                &&& forall|j: int|
                    0 <= j < i ==> !hits(
                        final(store)@[j],
                        input.pointer.unwrap(),
                        out.display_rect,
                        img_w as int,
                        img_h as int,
                        hover_radius as int,
                    )
            },
{
    view.apply_zoom(input.zoom_delta, input.dragging);
    view.apply_pan(input.drag_delta, input.dragging);
    let display_rect: Rect = view.compute_display_rect(viewport, img_w, img_h);

    let mut added_point: Option<CoordinatePair> = None;
    if input.clicked {
        if let Some(pos) = input.pointer {
            if let Some(px) = screen_to_image(pos, &display_rect, img_w, img_h) {
                added_point = store.try_add_point(px);
            }
        }
    }

    let hovered: Option<CoordinatePair> = match input.pointer {
        Some(pos) => store.hit_test(pos, &display_rect, img_w, img_h, hover_radius),
        None => None,
    };

    FrameOutput { display_rect, added: added_point, hovered }
}

} // verus!
