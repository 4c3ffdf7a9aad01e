use canvas_core::composite::BlendMode;
use canvas_core::context::CanvasNative;
use canvas_core::geometry::{Point, Rect};
use canvas_core::ops::DrawOp;
use canvas_core::paint::{FilterQuality, LineCap, PaintStyle, Shader, COLOR_BLACK};
use canvas_core::path::{FillRule, PathCmd};

fn ctx() -> CanvasNative {
    CanvasNative::new(300, 150, 10000)
}

#[test]
fn filled_triangle_draws_the_triangle_with_black_fill() {
    // beginPath; moveTo(0,0); lineTo(10,0); lineTo(10,10); closePath; fill
    let mut c = ctx();
    c.begin_path();
    c.path.move_to(0, 0);
    c.path.line_to(100000, 0);
    c.path.line_to(100000, 100000);
    c.path.close_path();
    c.fill();
    assert_eq!(c.surface.ops.len(), 1);
    match &c.surface.ops[0] {
        DrawOp::DrawPath { commands, fill_rule, paint } => {
            assert_eq!(
                commands.as_slice(),
                &[
                    PathCmd::MoveTo(Point { x: 0, y: 0 }),
                    PathCmd::LineTo(Point { x: 100000, y: 0 }),
                    PathCmd::LineTo(Point { x: 100000, y: 100000 }),
                    PathCmd::Close,
                ]
            );
            assert_eq!(*fill_rule, FillRule::NonZero);
            assert_eq!(paint.color, COLOR_BLACK);
            assert_eq!(paint.style, PaintStyle::Fill);
            assert!(paint.image_filter.is_none());
        }
        other => panic!("expected a path draw, got {other:?}"),
    }
}

#[test]
fn unbalanced_restore_changes_nothing() {
    let mut c = ctx();
    c.set_fill_color(0xff123456);
    c.path.move_to(7, 8);
    c.restore();
    assert_eq!(c.fill_paint.color, 0xff123456);
    assert_eq!(c.path.commands.len(), 1);
    assert_eq!(c.surface.ops.len(), 0);
    assert_eq!(c.surface.save_count, 1);
    assert!(c.state.is_empty());
}

#[test]
fn save_restore_round_trips_in_lifo_order() {
    let mut c = ctx();
    c.set_fill_color(0xff000001);
    c.save();
    c.set_fill_color(0xff000002);
    c.set_shadow_blur(55);
    c.set_text_align("center");
    c.save();
    c.set_fill_color(0xff000003);
    c.path.line_to(1, 1);
    c.set_image_smoothing_quality("high");

    c.restore();
    assert_eq!(c.fill_paint.color, 0xff000002);
    assert_eq!(c.shadow_blur, 55);
    assert_eq!(c.text_align, "center");
    assert_eq!(c.path.commands.len(), 0);
    assert_eq!(c.image_smoothing_quality, "low");

    c.restore();
    assert_eq!(c.fill_paint.color, 0xff000001);
    assert_eq!(c.shadow_blur, 0);
    assert_eq!(c.text_align, "left");
    assert!(c.state.is_empty());
}

#[test]
fn degenerate_rect_becomes_a_line_path_not_a_no_op() {
    let mut c = ctx();
    // Zero width but positive height: drawn as a closed two-point path.
    c.draw_rect(10000, 20000, 0, 100000, false);
    assert_eq!(c.surface.ops.len(), 1);
    match &c.surface.ops[0] {
        DrawOp::DrawPath { commands, .. } => {
            assert_eq!(
                commands.as_slice(),
                &[
                    PathCmd::MoveTo(Point { x: 10000, y: 20000 }),
                    PathCmd::LineTo(Point { x: 10000, y: 120000 }),
                    PathCmd::Close,
                ]
            );
        }
        other => panic!("expected a path draw, got {other:?}"),
    }
    // Zero width and zero height: nothing is drawn.
    c.draw_rect(10000, 20000, 0, 0, false);
    assert_eq!(c.surface.ops.len(), 1);
    // Both positive: a plain rectangle draw.
    c.draw_rect(0, 0, 10000, 10000, true);
    assert_eq!(c.surface.ops.len(), 2);
    match &c.surface.ops[1] {
        DrawOp::DrawRect { rect, paint } => {
            assert_eq!(*rect, Rect { left: 0, top: 0, right: 10000, bottom: 10000 });
            assert_eq!(paint.style, PaintStyle::Stroke);
        }
        other => panic!("expected a rectangle draw, got {other:?}"),
    }
}

#[test]
fn gradient_fill_style_leaves_the_fill_rule_alone() {
    let mut c = ctx();
    c.path.set_fill_rule(FillRule::EvenOdd);
    c.path.rect(0, 0, 10000, 10000);
    c.set_gradient_linear(0, 0, 100000, 0, vec![0xff000000, 0xffffffff], vec![0, 10000], false);
    assert_eq!(c.path.fill_rule, FillRule::EvenOdd);
    assert_eq!(c.path.commands.len(), 1);
    match &c.fill_paint.shader {
        Some(Shader::LinearGradient { start, end, colors, positions }) => {
            assert_eq!(*start, Point { x: 0, y: 0 });
            assert_eq!(*end, Point { x: 100000, y: 0 });
            assert_eq!(colors.as_slice(), &[0xff000000u32, 0xffffffffu32]);
            assert_eq!(positions.as_slice(), &[0i64, 10000i64]);
        }
        other => panic!("expected a linear gradient, got {other:?}"),
    }
}

#[test]
fn shadow_attaches_only_for_the_draw() {
    let mut c = ctx();
    c.set_shadow_blur(20000);
    // Default shadow color is opaque black, so a positive blur activates it.
    c.path.rect(0, 0, 10000, 10000);
    c.fill();
    match &c.surface.ops[0] {
        DrawOp::DrawPath { paint, .. } => {
            let f = paint.image_filter.expect("shadow filter expected");
            assert_eq!(f.sigma_x, 20000);
            assert_eq!(f.color, COLOR_BLACK);
        }
        other => panic!("expected a path draw, got {other:?}"),
    }
    // The stored descriptor itself is untouched.
    assert!(c.fill_paint.image_filter.is_none());
}

#[test]
fn text_draw_adds_a_blurred_offset_pass_when_shadowed() {
    let mut c = ctx();
    c.set_shadow_blur(10000);
    c.set_shadow_offset_x(20000);
    c.set_text_align("right");
    c.draw_text("hi", 50000, 60000, false);
    assert_eq!(c.surface.ops.len(), 2);
    match (&c.surface.ops[0], &c.surface.ops[1]) {
        (
            DrawOp::DrawText { text: t1, x: x1, paint: p1, .. },
            DrawOp::DrawText { text: t2, x: x2, y: y2, paint: p2, .. },
        ) => {
            assert_eq!(t1, "hi");
            assert_eq!(t2, "hi");
            assert_eq!(*x1, 50000);
            assert_eq!(*x2, 70000);
            assert_eq!(*y2, 60000);
            assert!(p1.mask_blur.is_none());
            assert_eq!(p2.mask_blur, Some(10000));
            assert_eq!(p2.color, COLOR_BLACK);
        }
        other => panic!("expected two text draws, got {other:?}"),
    }
    // Empty text draws nothing.
    c.draw_text("", 0, 0, false);
    assert_eq!(c.surface.ops.len(), 2);
}

#[test]
fn composite_operation_sets_both_blend_modes() {
    let mut c = ctx();
    c.set_global_composite_operation("multiply");
    assert_eq!(c.fill_paint.blend_mode, BlendMode::Multiply);
    assert_eq!(c.stroke_paint.blend_mode, BlendMode::Multiply);
    c.set_global_composite_operation("unknown-thing");
    assert_eq!(c.fill_paint.blend_mode, BlendMode::SrcOver);
}

#[test]
fn smoothing_quality_clamps_and_applies() {
    let mut c = ctx();
    c.set_image_smoothing_quality("medium");
    assert_eq!(c.image_smoothing_quality, "medium");
    // Smoothing still disabled: no filtering.
    assert_eq!(c.fill_paint.filter_quality, FilterQuality::NoFiltering);
    c.set_image_smoothing_enabled(true);
    assert_eq!(c.fill_paint.filter_quality, FilterQuality::Medium);
    c.set_image_smoothing_quality("bogus");
    assert_eq!(c.image_smoothing_quality, "low");
    assert_eq!(c.fill_paint.filter_quality, FilterQuality::Low);
}

#[test]
fn line_dash_needs_a_positive_even_count() {
    let mut c = ctx();
    c.set_line_dash_offset(77);
    c.set_line_dash(vec![10000, 20000]);
    let d = c.stroke_paint.dash.as_ref().expect("dash expected");
    assert_eq!(d.intervals.as_slice(), &[10000i64, 20000i64]);
    assert_eq!(d.phase, 77);
    // An odd count cannot build a dash effect; the old one stays.
    c.set_line_dash(vec![1, 2, 3]);
    assert!(c.stroke_paint.dash.is_some());
    // An empty list clears it.
    c.set_line_dash(Vec::new());
    assert!(c.stroke_paint.dash.is_none());
}

#[test]
fn clear_rect_draws_with_the_clear_blend() {
    let mut c = ctx();
    c.clear_rect(0, 0, 50000, 50000);
    match &c.surface.ops[0] {
        DrawOp::DrawRect { paint, .. } => assert_eq!(paint.blend_mode, BlendMode::Clear),
        other => panic!("expected a rectangle draw, got {other:?}"),
    }
}

#[test]
fn clip_uses_the_nonzero_rule() {
    let mut c = ctx();
    c.path.rect(0, 0, 10000, 10000);
    c.clip();
    match &c.surface.ops[0] {
        DrawOp::ClipPath { fill_rule, commands } => {
            assert_eq!(*fill_rule, FillRule::NonZero);
            assert_eq!(commands.len(), 1);
        }
        other => panic!("expected a clip, got {other:?}"),
    }
}

#[test]
fn flush_drains_the_op_log() {
    let mut c = ctx();
    c.clear_canvas();
    c.scale(20000, 20000);
    let ops = c.flush();
    assert_eq!(ops.len(), 2);
    assert!(c.surface.ops.is_empty());
    assert!(matches!(ops[0], DrawOp::Clear { color: 0xffffffff }));
    assert!(matches!(ops[1], DrawOp::Scale { x: 20000, y: 20000 }));
}

#[test]
fn line_settings_land_on_the_stroke_paint() {
    let mut c = ctx();
    c.set_line_width(35000);
    c.set_line_cap("square");
    c.set_miter_limit(42);
    assert_eq!(c.stroke_paint.stroke_width, 35000);
    assert_eq!(c.stroke_paint.stroke_cap, LineCap::Square);
    assert_eq!(c.stroke_paint.stroke_miter, 42);
}

#[test]
fn global_alpha_rewrites_both_alpha_bytes() {
    let mut c = ctx();
    c.set_fill_color(0xff336699);
    c.set_global_alpha(0x80);
    assert_eq!(c.fill_paint.color, 0x80336699);
    assert_eq!(c.stroke_paint.color, 0x80000000);
}

#[test]
fn image_data_round_trip_and_white_fallback() {
    let c = ctx();
    let zeros = canvas_core::context::create_image_data(2, 2);
    assert_eq!(zeros.len(), 16);
    assert!(zeros.iter().all(|b| *b == 0));
    let px = vec![7u8; 16];
    let got = c.get_image_data(2, 2, Some(px.clone()));
    assert_eq!(got, px);
    let white = c.get_image_data(2, 2, None);
    assert_eq!(white.len(), 16);
    assert!(white.iter().all(|b| *b == 255));
    let short = c.get_image_data(2, 2, Some(vec![1u8; 3]));
    assert!(short.iter().all(|b| *b == 255));
}

#[test]
fn put_image_data_truncates_to_whole_pixels() {
    let mut c = ctx();
    c.put_image_data(vec![0u8; 16], 2, 2, 15000, -15000, 0, 0);
    match &c.surface.ops[0] {
        DrawOp::WritePixels { x, y, width, height, pixels } => {
            assert_eq!((*x, *y), (1, -1));
            assert_eq!((*width, *height), (2, 2));
            assert_eq!(pixels.len(), 16);
        }
        other => panic!("expected a pixel write, got {other:?}"),
    }
}

#[test]
fn raw_image_draw_checks_the_buffer_size() {
    let mut c = ctx();
    // Too small a buffer for 2x2: nothing is drawn.
    c.draw_image(vec![0u8; 15], 2, 2, 0, 0);
    assert_eq!(c.surface.ops.len(), 0);
    c.set_global_composite_operation("screen");
    c.set_image_smoothing_enabled(true);
    c.draw_image(vec![0u8; 16], 2, 2, 10000, 20000);
    match &c.surface.ops[0] {
        DrawOp::DrawImage { width, height, dst_point, paint, .. } => {
            assert_eq!((*width, *height), (2, 2));
            assert_eq!(*dst_point, Some(Point { x: 10000, y: 20000 }));
            assert_eq!(paint.blend_mode, BlendMode::Screen);
            assert_eq!(paint.filter_quality, FilterQuality::Low);
        }
        other => panic!("expected an image draw, got {other:?}"),
    }
}

#[test]
fn stroked_half_ellipse_is_one_oval_arc() {
    // ellipse(50, 50, 30, 30, 0, 0, pi, false) then stroke: exactly the
    // bottom half of the circle of radius 30 about (50, 50).
    let mut c = ctx();
    c.path.ellipse(500000, 500000, 300000, 300000, 0, 0, 31416, false);
    c.stroke();
    assert_eq!(c.surface.ops.len(), 1);
    match &c.surface.ops[0] {
        DrawOp::DrawPath { commands, paint, .. } => {
            assert_eq!(
                commands.as_slice(),
                &[PathCmd::ArcToOval {
                    oval: Rect { left: 200000, top: 200000, right: 800000, bottom: 800000 },
                    start_angle: 0,
                    sweep_angle: 31420,
                }]
            );
            assert_eq!(paint.style, PaintStyle::Stroke);
        }
        other => panic!("expected a path draw, got {other:?}"),
    }
}

#[test]
fn transparent_shadow_color_disables_the_shadow() {
    let mut c = ctx();
    c.set_shadow_blur(10000);
    c.set_shadow_color(canvas_core::paint::COLOR_TRANSPARENT);
    c.path.rect(0, 0, 10000, 10000);
    c.fill();
    match &c.surface.ops[0] {
        DrawOp::DrawPath { paint, .. } => assert!(paint.image_filter.is_none()),
        other => panic!("expected a path draw, got {other:?}"),
    }
}
