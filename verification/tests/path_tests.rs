use canvas_core::geometry::{Point, Rect, PI_FIXED, TWO_PI_FIXED};
use canvas_core::path::{FillRule, Path, PathCmd};

#[test]
fn new_path_is_empty_with_nonzero_rule() {
    let p = Path::new();
    assert!(p.commands.is_empty());
    assert_eq!(p.fill_rule, FillRule::NonZero);
}

#[test]
fn fill_rule_parsing_falls_back_to_nonzero() {
    assert_eq!(FillRule::from_label("evenodd"), FillRule::EvenOdd);
    assert_eq!(FillRule::from_label("nonzero"), FillRule::NonZero);
    assert_eq!(FillRule::from_label("bogus"), FillRule::NonZero);
    assert_eq!(FillRule::from_label(""), FillRule::NonZero);
}

#[test]
fn mutators_append_commands_in_order() {
    let mut p = Path::new();
    p.move_to(0, 0);
    p.line_to(100000, 0);
    p.quadratic_curve_to(5, 6, 7, 8);
    p.bezier_curve_to(1, 2, 3, 4, 5, 6);
    p.arc_to(10, 20, 30, 40, 50);
    p.close_path();
    assert_eq!(p.commands.len(), 6);
    assert_eq!(p.commands[0], PathCmd::MoveTo(Point { x: 0, y: 0 }));
    assert_eq!(p.commands[1], PathCmd::LineTo(Point { x: 100000, y: 0 }));
    assert_eq!(
        p.commands[2],
        PathCmd::QuadTo(Point { x: 5, y: 6 }, Point { x: 7, y: 8 })
    );
    assert_eq!(
        p.commands[3],
        PathCmd::CubicTo(Point { x: 1, y: 2 }, Point { x: 3, y: 4 }, Point { x: 5, y: 6 })
    );
    assert_eq!(
        p.commands[4],
        PathCmd::ArcToTangent(Point { x: 10, y: 20 }, Point { x: 30, y: 40 }, 50)
    );
    assert_eq!(p.commands[5], PathCmd::Close);
}

#[test]
fn close_on_empty_path_is_a_no_op() {
    let mut p = Path::new();
    p.close_path();
    assert!(p.commands.is_empty());
}

#[test]
fn rect_appends_a_rectangle_without_moving() {
    let mut p = Path::new();
    p.rect(10000, 20000, 30000, 40000);
    assert_eq!(p.commands.len(), 1);
    assert_eq!(
        p.commands[0],
        PathCmd::AddRect(Rect { left: 10000, top: 20000, right: 40000, bottom: 60000 })
    );
}

#[test]
fn full_circle_arcs_agree_clockwise_and_anticlockwise() {
    // Both a positive and a negative whole-turn sweep render the complete
    // circle, split into two half-turn arcs over the same bounding oval.
    let mut cw = Path::new();
    cw.arc(500000, 500000, 300000, 0, TWO_PI_FIXED, false);
    let mut ccw = Path::new();
    ccw.arc(500000, 500000, 300000, 0, -TWO_PI_FIXED, true);

    let oval = Rect { left: 200000, top: 200000, right: 800000, bottom: 800000 };
    assert_eq!(cw.commands.len(), 2);
    assert_eq!(ccw.commands.len(), 2);
    assert_eq!(
        cw.commands[0],
        PathCmd::ArcToOval { oval, start_angle: 0, sweep_angle: PI_FIXED }
    );
    assert_eq!(
        cw.commands[1],
        PathCmd::ArcToOval { oval, start_angle: PI_FIXED, sweep_angle: PI_FIXED }
    );
    assert_eq!(
        ccw.commands[0],
        PathCmd::ArcToOval { oval, start_angle: 0, sweep_angle: -PI_FIXED }
    );
    assert_eq!(
        ccw.commands[1],
        PathCmd::ArcToOval { oval, start_angle: -PI_FIXED, sweep_angle: -PI_FIXED }
    );
}

#[test]
fn half_circle_is_a_single_arc() {
    // ellipse(50, 50, 30, 30, 0, 0, pi, false): the bottom half of the
    // circle of radius 30 about (50, 50), as one oval arc.
    let mut p = Path::new();
    p.ellipse(500000, 500000, 300000, 300000, 0, 0, PI_FIXED, false);
    assert_eq!(p.commands.len(), 1);
    assert_eq!(
        p.commands[0],
        PathCmd::ArcToOval {
            oval: Rect { left: 200000, top: 200000, right: 800000, bottom: 800000 },
            start_angle: 0,
            sweep_angle: 31420,
        }
    );
}

#[test]
fn rotated_ellipse_records_inverse_rotation_then_unrotated_arcs() {
    let mut p = Path::new();
    p.ellipse(10000, 20000, 30000, 40000, 7853, 0, PI_FIXED, false);
    assert_eq!(p.commands.len(), 2);
    assert_eq!(
        p.commands[0],
        PathCmd::TransformInverseRotation {
            center: Point { x: 10000, y: 20000 },
            rotation: 7853,
        }
    );
    // The arcs are rendered at the origin with the already-adjusted end
    // angle; the adjustment is not re-applied under the rotation.
    assert_eq!(
        p.commands[1],
        PathCmd::ArcToOval {
            oval: Rect { left: -30000, top: -40000, right: 30000, bottom: 40000 },
            start_angle: 0,
            sweep_angle: 31420,
        }
    );
}

#[test]
fn append_path_concatenates_commands() {
    let mut a = Path::new();
    a.move_to(1, 2);
    let mut b = Path::new();
    b.line_to(3, 4);
    a.append_path(&b);
    assert_eq!(a.commands.len(), 2);
    assert_eq!(a.commands[1], PathCmd::LineTo(Point { x: 3, y: 4 }));
}
