use canvas_core::geometry::Point;
use canvas_core::handles::{
    add_path_to_path, arc, create_canvas, create_matrix, create_path_2d, create_path_from_path,
    create_pattern, create_text_decoder, create_text_encoder, free_matrix, free_path_2d,
    free_pattern, free_text_decoder, free_text_encoder, get_matrix, line_to, move_to,
    null_handle, rect, set_fill_pattern, set_matrix, set_pattern_transform, text_decoder_decode,
    text_encoder_encode, text_encoder_get_encoding, Registry, Target,
};
use canvas_core::paint::{Repetition, Shader};
use canvas_core::path::PathCmd;

#[test]
fn path_handles_build_paths() {
    let mut reg = Registry::new();
    let p = create_path_2d(&mut reg);
    let t = move_to(&mut reg, Target::Path(p), 10, 20);
    assert_eq!(t, Target::Path(p));
    line_to(&mut reg, Target::Path(p), 30, 40);
    let stored = reg.paths.slots[p.index].value.as_ref().unwrap();
    assert_eq!(stored.commands.len(), 2);
    assert_eq!(stored.commands[0], PathCmd::MoveTo(Point { x: 10, y: 20 }));
}

#[test]
fn canvas_targets_reach_the_current_path() {
    let mut reg = Registry::new();
    let c = create_canvas(&mut reg, 100, 100, 10000);
    rect(&mut reg, Target::Canvas(c), 0, 0, 10000, 10000);
    arc(&mut reg, Target::Canvas(c), 0, 0, 10000, 0, 31416, false);
    let stored = reg.canvases.slots[c.index].value.as_ref().unwrap();
    assert_eq!(stored.path.commands.len(), 2);
}

#[test]
fn null_and_stale_handles_are_silent_no_ops() {
    let mut reg = Registry::new();
    let t = move_to(&mut reg, Target::Path(null_handle()), 1, 2);
    assert_eq!(t, Target::Path(null_handle()));
    assert!(reg.paths.slots.is_empty());

    let p = create_path_2d(&mut reg);
    free_path_2d(&mut reg, p);
    // The handle is stale now: the slot's generation moved on.
    line_to(&mut reg, Target::Path(p), 1, 2);
    assert!(reg.paths.slots[p.index].value.is_none());
    // Freeing twice is harmless.
    free_path_2d(&mut reg, p);
}

#[test]
fn path_copies_are_deep() {
    let mut reg = Registry::new();
    let a = create_path_2d(&mut reg);
    move_to(&mut reg, Target::Path(a), 5, 6);
    let b = create_path_from_path(&mut reg, a);
    line_to(&mut reg, Target::Path(b), 7, 8);
    assert_eq!(reg.paths.slots[a.index].value.as_ref().unwrap().commands.len(), 1);
    assert_eq!(reg.paths.slots[b.index].value.as_ref().unwrap().commands.len(), 2);
    assert_eq!(create_path_from_path(&mut reg, null_handle()), null_handle());
}

#[test]
fn adding_a_path_appends_and_keeps_the_source() {
    let mut reg = Registry::new();
    let a = create_path_2d(&mut reg);
    let b = create_path_2d(&mut reg);
    move_to(&mut reg, Target::Path(a), 1, 1);
    line_to(&mut reg, Target::Path(b), 2, 2);
    let r = add_path_to_path(&mut reg, a, b);
    assert_eq!(r, a);
    assert_eq!(reg.paths.slots[a.index].value.as_ref().unwrap().commands.len(), 2);
    assert_eq!(reg.paths.slots[b.index].value.as_ref().unwrap().commands.len(), 1);
}

#[test]
fn matrix_objects_hold_affine_entries() {
    let mut reg = Registry::new();
    let m = create_matrix(&mut reg);
    assert_eq!(get_matrix(&reg, m), vec![10000, 0, 0, 10000, 0, 0]);
    set_matrix(&mut reg, m, &[1, 2, 3, 4, 5, 6]);
    assert_eq!(get_matrix(&reg, m), vec![1, 2, 3, 4, 5, 6]);
    // Too few entries change nothing.
    set_matrix(&mut reg, m, &[9, 9]);
    assert_eq!(get_matrix(&reg, m), vec![1, 2, 3, 4, 5, 6]);
    free_matrix(&mut reg, m);
    assert_eq!(get_matrix(&reg, m), vec![10000, 0, 0, 10000, 0, 0]);
}

#[test]
fn codec_handles_encode_and_free() {
    let mut reg = Registry::new();
    let e = create_text_encoder(&mut reg, "utf-8");
    assert_eq!(text_encoder_get_encoding(&reg, e).as_deref(), Some("UTF-8"));
    assert_eq!(text_encoder_encode(&reg, e, "hi"), b"hi".to_vec());
    free_text_encoder(&mut reg, e);
    assert_eq!(text_encoder_get_encoding(&reg, e), None);
    assert_eq!(text_encoder_encode(&reg, e, "hi"), Vec::<u8>::new());

    let d = create_text_decoder(&mut reg, "utf-8");
    assert_eq!(text_decoder_decode(&reg, d, b"ok"), "ok");
    free_text_decoder(&mut reg, d);
    assert_eq!(text_decoder_decode(&reg, d, b"ok"), "");
}

#[test]
fn patterns_attach_to_paints_and_take_transforms() {
    let mut reg = Registry::new();
    let c = create_canvas(&mut reg, 10, 10, 10000);
    let p = create_pattern(&mut reg, 1, 1, vec![1, 2, 3, 4], "repeat-x");
    let m = create_matrix(&mut reg);
    set_matrix(&mut reg, m, &[1, 2, 3, 4, 5, 6]);
    set_pattern_transform(&mut reg, p, m);
    set_fill_pattern(&mut reg, c, p);
    let canvas = reg.canvases.slots[c.index].value.as_ref().unwrap();
    match canvas.fill_paint.shader.as_ref().unwrap() {
        Shader::Pattern { width, height, pixels, repetition, matrix } => {
            assert_eq!((*width, *height), (1, 1));
            assert_eq!(pixels.as_slice(), &[1, 2, 3, 4]);
            assert_eq!(*repetition, Repetition::RepeatX);
            let mx = matrix.expect("transform expected");
            assert_eq!((mx.a, mx.b, mx.c, mx.d, mx.e, mx.f), (1, 2, 3, 4, 5, 6));
        }
        other => panic!("expected a pattern, got {other:?}"),
    }
    free_pattern(&mut reg, p);
    // Attaching through the stale handle changes nothing.
    set_fill_pattern(&mut reg, c, p);
    let canvas = reg.canvases.slots[c.index].value.as_ref().unwrap();
    assert!(canvas.fill_paint.shader.is_some());
}
