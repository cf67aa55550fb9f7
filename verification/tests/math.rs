use boids::params::{bump, view_map, ViewParams};
use boids::vecmath::{clamp_axis, dist2_exec, floor_div, scaled_term, within_range_exec, Vec2i};

#[test]
fn floor_div_rounds_toward_negative_infinity() {
    assert_eq!(floor_div(7, 2), 3);
    assert_eq!(floor_div(-7, 2), -4);
    assert_eq!(floor_div(-6, 2), -3);
    assert_eq!(floor_div(0, 5), 0);
    assert_eq!(floor_div(-1, 1_000_000), -1);
}

#[test]
fn scaled_term_applies_fractional_factor() {
    // 0.013 of -0.5 units: 13_000 * -500_000 / 1_000_000.
    assert_eq!(scaled_term(13_000, -500_000), -6_500);
    assert_eq!(scaled_term(1_000_000, 42), 42);
    assert_eq!(scaled_term(500_000, 10), 5);
    // Flooring, not truncation, on a negative product.
    assert_eq!(scaled_term(1, -1), -1);
    assert_eq!(scaled_term(0, 123_456), 0);
}

#[test]
fn clamp_axis_applies_max_then_min() {
    assert_eq!(clamp_axis(5, -10, 10), 5);
    assert_eq!(clamp_axis(-50, -10, 10), -10);
    assert_eq!(clamp_axis(50, -10, 10), 10);
    // A degenerate range still yields the defined result: the high bound.
    assert_eq!(clamp_axis(5, 10, 3), 3);
}

#[test]
fn within_range_is_strict_and_rejects_nonpositive_ranges() {
    let a = Vec2i { x: 0, y: 0 };
    let b = Vec2i { x: 3, y: 4 };
    assert!(within_range_exec(a, b, 6));
    assert!(!within_range_exec(a, b, 5));
    assert!(!within_range_exec(a, b, 0));
    assert!(!within_range_exec(a, b, -7));
    assert!(!within_range_exec(a, a, 0));
}

#[test]
fn dist2_matches_squares() {
    let a = Vec2i { x: 1, y: 2 };
    let b = Vec2i { x: 4, y: -2 };
    assert_eq!(dist2_exec(a, b), 25);
    assert_eq!(dist2_exec(a, a), 0);
}

#[test]
fn bump_floors_and_caps() {
    assert_eq!(bump(5, -10, 0), 0);
    assert_eq!(bump(5, 10, 0), 15);
    assert_eq!(bump(100, -30, 50), 70);
    assert_eq!(bump(999_999_999, 5, 0), 1_000_000_000);
}

#[test]
fn view_map_pans_then_zooms() {
    let v = ViewParams { x_shift: 0, y_shift: 0, zoom: 10_000, time_modifier: 10_000 };
    let p = Vec2i { x: 10_000_000, y: -10_000_000 };
    let r = view_map(p, v);
    assert_eq!(r, Vec2i { x: 100_000, y: -100_000 });

    let shifted = ViewParams { x_shift: 10_000_000, y_shift: -10_000_000, ..v };
    let r2 = view_map(p, shifted);
    assert_eq!(r2, Vec2i { x: 0, y: 0 });
}

#[test]
fn pan_scales_with_inverse_zoom() {
    let mut v = ViewParams::default();
    v.pan(-1, 1);
    assert_eq!(v.x_shift, -1_000_000);
    assert_eq!(v.y_shift, 1_000_000);
    assert_eq!(v.zoom, 10_000);
    v.pan(0, 0);
    assert_eq!(v.x_shift, -1_000_000);
}

#[test]
fn zoom_steps_by_a_tenth() {
    let mut v = ViewParams::default();
    v.zoom_step(1);
    assert_eq!(v.zoom, 11_000);
    v.zoom_step(-1);
    assert_eq!(v.zoom, 9_900);
    let mut tiny = ViewParams { zoom: 1, ..ViewParams::default() };
    tiny.zoom_step(-1);
    assert_eq!(tiny.zoom, 1);
}
