use livechart::geom::{Rect, ScreenVec};
use livechart::mapping::{image_to_screen, screen_to_image};
use livechart::viewport::ViewState;

fn viewport_800x600() -> Rect {
    Rect { min_x: 0, min_y: 0, max_x: 800_000, max_y: 600_000 }
}

#[test]
fn zoom_delta_is_scaled_by_sensitivity() {
    // a raw delta of 0.5 (500 milli) moves the scale from 1.0 to 1.05
    let mut view = ViewState::default();
    view.apply_zoom(500, false);
    assert_eq!(view.scale, 1050);
}

#[test]
fn zoom_ignored_while_panning() {
    let mut view = ViewState::default();
    view.apply_zoom(500, true);
    assert_eq!(view.scale, 1000);
    view.apply_zoom(0, false);
    assert_eq!(view.scale, 1000);
}

#[test]
fn zoom_quantizes_small_deltas() {
    let mut view = ViewState::default();
    view.apply_zoom(9, false);
    assert_eq!(view.scale, 1000);
    view.apply_zoom(10, false);
    assert_eq!(view.scale, 1001);
}

#[test]
fn scale_stays_clamped_for_any_delta_sequence() {
    let mut view = ViewState::default();
    let deltas: [i64; 12] = [
        i64::MAX,
        500,
        -100_000_000,
        i64::MIN,
        -3,
        7_777_777,
        0,
        -1,
        1,
        i64::MAX,
        i64::MIN,
        123_456,
    ];
    for (k, d) in deltas.iter().enumerate() {
        view.apply_zoom(*d, k % 5 == 0);
        assert!(view.scale >= 100 && view.scale <= 10000);
    }
}

#[test]
fn zoom_clamps_at_both_ends() {
    let mut view = ViewState::default();
    view.apply_zoom(i64::MAX, false);
    assert_eq!(view.scale, 10000);
    view.apply_zoom(i64::MIN, false);
    assert_eq!(view.scale, 100);
}

#[test]
fn pan_moves_only_while_dragging() {
    let mut view = ViewState::default();
    view.apply_pan(ScreenVec { x: 5000, y: -2500 }, false);
    assert_eq!((view.offset.x, view.offset.y), (0, 0));
    view.apply_pan(ScreenVec { x: 5000, y: -2500 }, true);
    assert_eq!((view.offset.x, view.offset.y), (5000, -2500));
    view.apply_pan(ScreenVec { x: 1000, y: 1000 }, true);
    assert_eq!((view.offset.x, view.offset.y), (6000, -1500));
}

#[test]
fn display_rect_for_default_view() {
    // viewport 800x600, image 400x300: the padded area is 760x560, the fit
    // is height-limited, and the image is drawn 746.4 x 559.8 centered
    let mut view = ViewState::default();
    let vp = viewport_800x600();
    let rect = view.compute_display_rect(&vp, 400, 300);
    assert_eq!(rect.min_x, 26_800);
    assert_eq!(rect.min_y, 20_100);
    assert_eq!(rect.max_x, 773_200);
    assert_eq!(rect.max_y, 579_900);
}

#[test]
fn display_rect_reclamps_offset() {
    // an offset far past the margin is pulled back to the margin
    let mut view = ViewState::default();
    view.apply_pan(ScreenVec { x: 2_000_000, y: -2_000_000 }, true);
    let vp = viewport_800x600();
    let rect = view.compute_display_rect(&vp, 400, 300);
    assert_eq!(view.offset.x, 73_200);
    assert_eq!(view.offset.y, -79_900);
    // the rectangle is the centered one translated by the clamped offset
    assert_eq!(rect.min_x, 26_800 + 73_200);
    assert_eq!(rect.min_y, 20_100 - 79_900);
}

#[test]
fn display_rect_translates_by_offset() {
    let mut view = ViewState::default();
    view.apply_pan(ScreenVec { x: 10_000, y: 5_000 }, true);
    let vp = viewport_800x600();
    let rect = view.compute_display_rect(&vp, 400, 300);
    assert_eq!(rect.min_x, 36_800);
    assert_eq!(rect.min_y, 25_100);
    assert_eq!(rect.max_x - rect.min_x, 746_400);
    assert_eq!(rect.max_y - rect.min_y, 559_800);
}

#[test]
fn reset_restores_defaults() {
    let mut view = ViewState::default();
    view.apply_zoom(700, false);
    view.apply_pan(ScreenVec { x: 31_000, y: -8_000 }, true);
    view.toggle_sidebar();
    let vp = viewport_800x600();
    let _ = view.compute_display_rect(&vp, 400, 300);
    view.reset();
    assert_eq!(view.scale, 1000);
    assert_eq!((view.offset.x, view.offset.y), (0, 0));
    assert!(view.ps_sidebar_shown);
}

#[test]
fn toggle_sidebar_flips_flag_only() {
    let mut view = ViewState::default();
    assert!(view.ps_sidebar_shown);
    view.toggle_sidebar();
    assert!(!view.ps_sidebar_shown);
    assert_eq!(view.scale, 1000);
    view.toggle_sidebar();
    assert!(view.ps_sidebar_shown);
}

#[test]
fn corner_clicks_map_to_image_corners() {
    let rect = Rect { min_x: 26_800, min_y: 20_100, max_x: 773_200, max_y: 579_900 };
    let top_left = screen_to_image(ScreenVec { x: 26_800, y: 20_100 }, &rect, 400, 300).unwrap();
    assert_eq!((top_left.x, top_left.y), (0, 0));
    let bottom_right =
        screen_to_image(ScreenVec { x: 773_200, y: 579_900 }, &rect, 400, 300).unwrap();
    assert_eq!((bottom_right.x, bottom_right.y), (400_000, 300_000));
}

#[test]
fn corner_round_trip_is_exact() {
    let rect = Rect { min_x: 26_800, min_y: 20_100, max_x: 773_200, max_y: 579_900 };
    let px = screen_to_image(ScreenVec { x: 773_200, y: 579_900 }, &rect, 400, 300).unwrap();
    let back = image_to_screen(px, &rect, 400, 300);
    assert_eq!((back.x, back.y), (773_200, 579_900));
    let px2 = screen_to_image(back, &rect, 400, 300).unwrap();
    assert_eq!((px2.x, px2.y), (px.x, px.y));
    let origin = screen_to_image(ScreenVec { x: 26_800, y: 20_100 }, &rect, 400, 300).unwrap();
    let back0 = image_to_screen(origin, &rect, 400, 300);
    assert_eq!((back0.x, back0.y), (26_800, 20_100));
}

#[test]
fn center_click_maps_to_image_center() {
    let rect = Rect { min_x: 26_800, min_y: 20_100, max_x: 773_200, max_y: 579_900 };
    let p = screen_to_image(ScreenVec { x: 400_000, y: 300_000 }, &rect, 400, 300).unwrap();
    assert_eq!((p.x, p.y), (200_000, 150_000));
}

#[test]
fn conversion_refused_outside_rect() {
    let rect = Rect { min_x: 26_800, min_y: 20_100, max_x: 773_200, max_y: 579_900 };
    assert!(screen_to_image(ScreenVec { x: 26_799, y: 300_000 }, &rect, 400, 300).is_none());
    assert!(screen_to_image(ScreenVec { x: 400_000, y: 579_901 }, &rect, 400, 300).is_none());
}

#[test]
fn conversion_refused_on_degenerate_rect() {
    let rect = Rect { min_x: 5_000, min_y: 5_000, max_x: 5_000, max_y: 5_000 };
    assert!(screen_to_image(ScreenVec { x: 5_000, y: 5_000 }, &rect, 400, 300).is_none());
}

#[test]
fn tiny_viewport_collapses_to_center() {
    // a viewport smaller than the padding leaves no room: the display
    // rectangle is empty and no click converts
    let mut view = ViewState::default();
    let vp = Rect { min_x: 0, min_y: 0, max_x: 10_000, max_y: 10_000 };
    let rect = view.compute_display_rect(&vp, 400, 300);
    assert_eq!(rect.min_x, rect.max_x);
    assert_eq!(rect.min_y, rect.max_y);
    assert!(screen_to_image(ScreenVec { x: rect.min_x, y: rect.min_y }, &rect, 400, 300).is_none());
}

#[test]
fn far_out_pixel_projects_offscreen_without_panic() {
    let rect = Rect { min_x: 26_800, min_y: 20_100, max_x: 773_200, max_y: 579_900 };
    let p = livechart::points::PixelCoordinate { x: i64::MAX, y: -i64::MAX };
    let s = image_to_screen(p, &rect, 400, 300);
    assert!(s.x > rect.max_x);
    assert!(s.y < rect.min_y);
}
