use canvas_core::angle::{adjust_end_angle, ellipse_is_renderable, round_to_grid};
use canvas_core::geometry::{PI_FIXED, TWO_PI_FIXED};

#[test]
fn full_turn_clockwise_clamps_to_one_turn() {
    // end - start of exactly two pi clamps to start + two pi, then lands on
    // the three-decimal grid.
    assert_eq!(adjust_end_angle(0, TWO_PI_FIXED, false), 62830);
}

#[test]
fn full_turn_anticlockwise_clamps_to_minus_one_turn() {
    assert_eq!(adjust_end_angle(0, -TWO_PI_FIXED, true), -62830);
}

#[test]
fn in_range_end_angle_is_only_rounded() {
    // pi radians, clockwise: already on the right side of the start angle.
    assert_eq!(adjust_end_angle(0, PI_FIXED, false), 31420);
    assert_eq!(adjust_end_angle(0, 31420, false), 31420);
}

#[test]
fn clockwise_wraps_end_angle_forward() {
    // start > end with clockwise winding wraps the end forward by one turn.
    assert_eq!(adjust_end_angle(10000, 0, false), 10000 + 52830);
}

#[test]
fn anticlockwise_wraps_end_angle_backward() {
    assert_eq!(adjust_end_angle(0, 10000, true), -52830);
}

#[test]
fn adjustment_is_idempotent_on_grid_starts() {
    let cases: [(i64, i64, bool); 6] = [
        (0, TWO_PI_FIXED, false),
        (0, -TWO_PI_FIXED, true),
        (0, PI_FIXED, false),
        (10000, 0, false),
        (0, 10000, true),
        (31420, 123457, false),
    ];
    for (start, end, ccw) in cases {
        let once = adjust_end_angle(start, end, ccw);
        let twice = adjust_end_angle(start, once, ccw);
        assert_eq!(once, twice, "start={start} end={end} ccw={ccw}");
    }
}

#[test]
fn renderability_is_half_turn_or_nearly_full_turn() {
    assert!(ellipse_is_renderable(0, PI_FIXED - 1));
    assert!(!ellipse_is_renderable(0, PI_FIXED));
    assert!(ellipse_is_renderable(0, TWO_PI_FIXED));
    assert!(ellipse_is_renderable(0, TWO_PI_FIXED - 2));
    assert!(!ellipse_is_renderable(0, TWO_PI_FIXED - 3));
    assert!(ellipse_is_renderable(0, -TWO_PI_FIXED));
}

#[test]
fn grid_rounding_rounds_halves_away_from_zero() {
    assert_eq!(round_to_grid(14), 10);
    assert_eq!(round_to_grid(15), 20);
    assert_eq!(round_to_grid(-14), -10);
    assert_eq!(round_to_grid(-15), -20);
    assert_eq!(round_to_grid(62832), 62830);
}
