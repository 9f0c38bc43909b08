use livechart::driver::{process_frame, FrameInput};
use livechart::geom::{Rect, ScreenVec};
use livechart::points::PixelCoordinate;
use livechart::store::AnnotationStore;
use livechart::viewport::ViewState;

fn viewport_800x600() -> Rect {
    Rect { min_x: 0, min_y: 0, max_x: 800_000, max_y: 600_000 }
}

fn idle_input() -> FrameInput {
    FrameInput {
        pointer: None,
        drag_delta: ScreenVec { x: 0, y: 0 },
        zoom_delta: 0,
        dragging: false,
        clicked: false,
    }
}

#[test]
fn click_in_center_adds_center_pixel() {
    let mut view = ViewState::default();
    let mut store = AnnotationStore::new();
    let vp = viewport_800x600();
    let input = FrameInput {
        pointer: Some(ScreenVec { x: 400_000, y: 300_000 }),
        clicked: true,
        ..idle_input()
    };
    let out = process_frame(&mut view, &mut store, &input, &vp, 400, 300, 12_000);
    assert_eq!(out.display_rect.min_x, 26_800);
    assert_eq!(out.display_rect.min_y, 20_100);
    let added = out.added.expect("the click lands inside the image");
    assert_eq!(added.pixels, PixelCoordinate { x: 200_000, y: 150_000 });
    assert_eq!(store.len(), 1);
    // the pointer rests on the new mark, so it is hovered
    assert_eq!(out.hovered.unwrap().pixels, added.pixels);
}

#[test]
fn second_identical_click_adds_nothing() {
    let mut view = ViewState::default();
    let mut store = AnnotationStore::new();
    let vp = viewport_800x600();
    let input = FrameInput {
        pointer: Some(ScreenVec { x: 400_000, y: 300_000 }),
        clicked: true,
        ..idle_input()
    };
    let first = process_frame(&mut view, &mut store, &input, &vp, 400, 300, 12_000);
    assert!(first.added.is_some());
    let second = process_frame(&mut view, &mut store, &input, &vp, 400, 300, 12_000);
    assert!(second.added.is_none());
    assert_eq!(store.len(), 1);
}

#[test]
fn click_outside_image_adds_nothing() {
    let mut view = ViewState::default();
    let mut store = AnnotationStore::new();
    let vp = viewport_800x600();
    // inside the viewport but left of the display rectangle
    let input = FrameInput {
        pointer: Some(ScreenVec { x: 10_000, y: 300_000 }),
        clicked: true,
        ..idle_input()
    };
    let out = process_frame(&mut view, &mut store, &input, &vp, 400, 300, 12_000);
    assert!(out.added.is_none());
    assert_eq!(store.len(), 0);
}

#[test]
fn drag_pans_and_suppresses_zoom() {
    let mut view = ViewState::default();
    let mut store = AnnotationStore::new();
    let vp = viewport_800x600();
    let input = FrameInput {
        pointer: Some(ScreenVec { x: 400_000, y: 300_000 }),
        drag_delta: ScreenVec { x: 10_000, y: 5_000 },
        zoom_delta: 500,
        dragging: true,
        clicked: false,
    };
    let out = process_frame(&mut view, &mut store, &input, &vp, 400, 300, 12_000);
    assert_eq!(view.scale, 1000);
    assert_eq!((view.offset.x, view.offset.y), (10_000, 5_000));
    assert_eq!(out.display_rect.min_x, 36_800);
    assert_eq!(out.display_rect.min_y, 25_100);
    assert_eq!(store.len(), 0);
}

#[test]
fn zoom_frame_rescales_rect() {
    let mut view = ViewState::default();
    let mut store = AnnotationStore::new();
    let vp = viewport_800x600();
    let input = FrameInput { zoom_delta: 500, ..idle_input() };
    let out = process_frame(&mut view, &mut store, &input, &vp, 400, 300, 12_000);
    assert_eq!(view.scale, 1050);
    // total scale 1.866 * 1.05 = 1.959 (in milli, truncated: 1959)
    assert_eq!(out.display_rect.max_x - out.display_rect.min_x, 400 * 1959);
    assert_eq!(out.display_rect.max_y - out.display_rect.min_y, 300 * 1959);
}

#[test]
fn no_pointer_means_no_hover_and_no_add() {
    let mut view = ViewState::default();
    let mut store = AnnotationStore::new();
    let vp = viewport_800x600();
    let input = FrameInput { clicked: true, ..idle_input() };
    let out = process_frame(&mut view, &mut store, &input, &vp, 400, 300, 12_000);
    assert!(out.added.is_none());
    assert!(out.hovered.is_none());
    assert_eq!(store.len(), 0);
}

#[test]
fn frames_then_reset_restore_view() {
    let mut view = ViewState::default();
    let mut store = AnnotationStore::new();
    let vp = viewport_800x600();
    for k in 0..10i64 {
        let input = FrameInput {
            pointer: Some(ScreenVec { x: 400_000, y: 300_000 }),
            drag_delta: ScreenVec { x: 7_000 * k, y: -3_000 * k },
            zoom_delta: 200 * k,
            dragging: k % 2 == 0,
            clicked: false,
        };
        let _ = process_frame(&mut view, &mut store, &input, &vp, 400, 300, 12_000);
        assert!(view.scale >= 100 && view.scale <= 10000);
    }
    view.reset();
    assert_eq!(view.scale, 1000);
    assert_eq!((view.offset.x, view.offset.y), (0, 0));
    assert!(view.ps_sidebar_shown);
}
