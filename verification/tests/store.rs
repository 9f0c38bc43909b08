use livechart::geom::{Rect, ScreenVec};
use livechart::points::{CoordinatePair, PixelCoordinate, RealCoordinate};
use livechart::store::AnnotationStore;

fn px(x: i64, y: i64) -> PixelCoordinate {
    PixelCoordinate { x, y }
}

#[test]
fn add_then_duplicate_is_rejected() {
    let mut store = AnnotationStore::new();
    let p = px(200_000, 150_000);
    let first = store.try_add_point(p);
    assert!(first.is_some());
    let pair = first.unwrap();
    assert_eq!(pair.pixels, p);
    assert!(pair.real.is_none());
    assert_eq!(store.len(), 1);
    // a second identical value never adds and never changes the size
    assert!(store.try_add_point(p).is_none());
    assert_eq!(store.len(), 1);
    assert!(store.try_add_point(p).is_none());
    assert_eq!(store.len(), 1);
}

#[test]
fn nearby_pixels_are_distinct_identities() {
    let mut store = AnnotationStore::new();
    assert!(store.try_add_point(px(200_000, 150_000)).is_some());
    assert!(store.try_add_point(px(200_001, 150_000)).is_some());
    assert!(store.try_add_point(px(200_000, 149_999)).is_some());
    assert_eq!(store.len(), 3);
}

#[test]
fn delete_removes_exactly_one_then_fails() {
    let mut store = AnnotationStore::new();
    let p = px(42_000, 17_500);
    assert!(store.try_add_point(p).is_some());
    assert!(store.try_add_point(px(1, 2)).is_some());
    assert_eq!(store.len(), 2);
    assert!(store.delete(p));
    assert_eq!(store.len(), 1);
    assert!(!store.delete(p));
    assert_eq!(store.len(), 1);
    assert_eq!(store.get(0).pixels, px(1, 2));
}

#[test]
fn delete_of_absent_value_is_noop() {
    let mut store = AnnotationStore::new();
    assert!(!store.delete(px(5, 5)));
    assert!(store.try_add_point(px(1, 1)).is_some());
    assert!(!store.delete(px(5, 5)));
    assert_eq!(store.len(), 1);
}

#[test]
fn display_order_is_newest_first() {
    let mut store = AnnotationStore::new();
    let p1 = px(1_000, 1_000);
    let p2 = px(2_000, 2_000);
    let p3 = px(3_000, 3_000);
    store.try_add_point(p1);
    store.try_add_point(p2);
    store.try_add_point(p3);
    let listed = store.list_for_display();
    let pixels: Vec<PixelCoordinate> = listed.iter().map(|c| c.pixels).collect();
    assert_eq!(pixels, vec![p3, p2, p1]);
    // the stored order itself is untouched
    assert_eq!(store.get(0).pixels, p1);
    assert_eq!(store.get(1).pixels, p2);
    assert_eq!(store.get(2).pixels, p3);
}

#[test]
fn from_saved_keeps_first_of_duplicates() {
    let enriched = CoordinatePair {
        pixels: px(10, 20),
        real: Some(RealCoordinate { lat: 52_370_000, lon: 4_890_000 }),
    };
    let saved = vec![
        enriched,
        CoordinatePair { pixels: px(30, 40), real: None },
        CoordinatePair { pixels: px(10, 20), real: None },
    ];
    let store = AnnotationStore::from_saved(saved);
    assert_eq!(store.len(), 2);
    assert_eq!(store.get(0), enriched);
    assert_eq!(store.get(1).pixels, px(30, 40));
}

#[test]
fn from_saved_tolerates_out_of_range_points() {
    let saved = vec![
        CoordinatePair { pixels: px(-5_000_000, 9_999_999_999), real: None },
        CoordinatePair { pixels: px(0, 0), real: None },
    ];
    let store = AnnotationStore::from_saved(saved);
    assert_eq!(store.len(), 2);
    assert_eq!(store.points()[0].pixels, px(-5_000_000, 9_999_999_999));
}

#[test]
fn hit_test_finds_point_within_radius() {
    let mut store = AnnotationStore::new();
    let rect = Rect { min_x: 26_800, min_y: 20_100, max_x: 773_200, max_y: 579_900 };
    // pixel (200, 150) projects exactly onto the screen center (400, 300)
    store.try_add_point(px(200_000, 150_000));
    let pos = ScreenVec { x: 400_300, y: 300_400 };
    // distance is exactly 500 milliunits
    let hit = store.hit_test(pos, &rect, 400, 300, 500);
    assert!(hit.is_some());
    assert_eq!(hit.unwrap().pixels, px(200_000, 150_000));
    assert!(store.hit_test(pos, &rect, 400, 300, 499).is_none());
}

#[test]
fn hit_test_tie_break_is_insertion_order() {
    let mut store = AnnotationStore::new();
    let rect = Rect { min_x: 26_800, min_y: 20_100, max_x: 773_200, max_y: 579_900 };
    store.try_add_point(px(200_000, 150_000));
    store.try_add_point(px(200_500, 150_000));
    // both marks lie within the radius of this pointer position
    let pos = ScreenVec { x: 400_466, y: 300_000 };
    let hit = store.hit_test(pos, &rect, 400, 300, 600).unwrap();
    assert_eq!(hit.pixels, px(200_000, 150_000));
}

#[test]
fn hit_test_ignores_far_points_and_survives_corrupt_values() {
    let mut store = AnnotationStore::new();
    let rect = Rect { min_x: 26_800, min_y: 20_100, max_x: 773_200, max_y: 579_900 };
    store.try_add_point(px(i64::MAX, i64::MIN));
    store.try_add_point(px(0, 0));
    let pos = ScreenVec { x: 26_800, y: 20_100 };
    let hit = store.hit_test(pos, &rect, 400, 300, 1_000);
    assert_eq!(hit.unwrap().pixels, px(0, 0));
    let miss = store.hit_test(ScreenVec { x: 400_000, y: 300_000 }, &rect, 400, 300, 1_000);
    assert!(miss.is_none());
}

#[test]
fn empty_store_reports_nothing() {
    let store = AnnotationStore::new();
    assert_eq!(store.len(), 0);
    assert!(store.list_for_display().is_empty());
    let rect = Rect { min_x: 0, min_y: 0, max_x: 100_000, max_y: 100_000 };
    assert!(store.hit_test(ScreenVec { x: 50_000, y: 50_000 }, &rect, 10, 10, 10_000).is_none());
}
