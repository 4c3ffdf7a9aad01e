//! The canvas context: one rendering surface, one current path, two paints,
//! the save/restore state stack, and the drawing pipeline that composes
//! shadow, blend mode and fill rule into the backend paint immediately
//! before each draw.

use vstd::prelude::*;

use crate::composite::{spec_blend_mode_of, spec_composite_op_of, CanvasCompositeOperationType};
use crate::font::{parse_font, spec_parse_font, FontDescriptor, FontModel};
use crate::geometry::{scalar_in_range, spec_rect_xywh, Matrix, Point, Rect, SCALAR_LIMIT};
use crate::ops::{DrawOp, OpModel, Surface, SurfaceModel, TextAlign};
use crate::paint::{
    color_from_argb, color_with_alpha, spec_argb, spec_default_fill_paint,
    spec_default_stroke_paint, spec_with_alpha, DashEffect, DashModel, DropShadow, FilterQuality,
    LineCap, LineJoin, Paint, PaintModel, PaintStyle, Shader, ShaderModel, COLOR_BLACK,
};
use crate::path::{spec_fill_rule_of, FillRule, Path, PathCmd};
use crate::strutil::{chars_eq_str, chars_of};
use crate::veclib::copy_vec;

verus! {

broadcast use vstd::string::group_string_axioms;

/// The advance width of a measured text run, in fixed-point pixels.
#[derive(Clone, Copy, Debug, PartialEq, Eq, Structural)]
pub struct CanvasTextMetrics {
    pub width: i64,
}

/// The mutable drawing state a snapshot captures: everything the context
/// owns except the surface and the stack itself.
#[derive(Debug)]
pub struct CanvasState {
    pub stroke_paint: Paint,
    pub fill_paint: Paint,
    pub path: Path,
    pub font: FontDescriptor,
    pub line_dash_offset: i64,
    pub shadow_blur: i64,
    pub shadow_color: u32,
    pub shadow_offset_x: i64,
    pub shadow_offset_y: i64,
    pub image_smoothing_enabled: bool,
    pub image_smoothing_quality: String,
    pub device_scale: i64,
    pub text_align: String,
}

/// Ghost value of the mutable drawing state.
#[verifier::ext_equal]
pub ghost struct CanvasStateModel {
    pub stroke_paint: PaintModel,
    pub fill_paint: PaintModel,
    pub commands: Seq<PathCmd>,
    pub fill_rule: FillRule,
    pub font: FontModel,
    pub line_dash_offset: i64,
    pub shadow_blur: i64,
    pub shadow_color: u32,
    pub shadow_offset_x: i64,
    pub shadow_offset_y: i64,
    pub image_smoothing_enabled: bool,
    pub image_smoothing_quality: Seq<char>,
    pub device_scale: i64,
    pub text_align: Seq<char>,
}

impl View for CanvasState {
    type V = CanvasStateModel;

    open spec fn view(&self) -> CanvasStateModel {
        CanvasStateModel {
            stroke_paint: self.stroke_paint@,
            fill_paint: self.fill_paint@,
            commands: self.path.commands@,
            fill_rule: self.path.fill_rule,
            font: self.font@,
            line_dash_offset: self.line_dash_offset,
            shadow_blur: self.shadow_blur,
            shadow_color: self.shadow_color,
            shadow_offset_x: self.shadow_offset_x,
            shadow_offset_y: self.shadow_offset_y,
            image_smoothing_enabled: self.image_smoothing_enabled,
            image_smoothing_quality: self.image_smoothing_quality@,
            device_scale: self.device_scale,
            text_align: self.text_align@,
        }
    }
}

/// One stack entry: a snapshot and the backend save-count it belongs to.
#[derive(Debug)]
pub struct CanvasStateItem {
    pub state: CanvasState,
    pub count: u64,
}

/// Ghost value of one stack entry.
#[verifier::ext_equal]
pub ghost struct StateItemModel {
    pub state: CanvasStateModel,
    pub count: u64,
}

impl View for CanvasStateItem {
    type V = StateItemModel;

    open spec fn view(&self) -> StateItemModel {
        StateItemModel { state: self.state@, count: self.count }
    }
}

impl CanvasStateItem {
    pub fn new(state: CanvasState, count: u64) -> (r: CanvasStateItem)
        ensures
            r@ == (StateItemModel { state: state@, count }),
    {
        CanvasStateItem { state, count }
    }
}

/// The canvas context.
#[derive(Debug)]
pub struct CanvasNative {
    pub surface: Surface,
    pub stroke_paint: Paint,
    pub fill_paint: Paint,
    pub path: Path,
    pub font: FontDescriptor,
    pub state: Vec<CanvasStateItem>,
    pub line_dash_offset: i64,
    pub shadow_blur: i64,
    pub shadow_color: u32,
    pub shadow_offset_x: i64,
    pub shadow_offset_y: i64,
    pub image_smoothing_enabled: bool,
    pub image_smoothing_quality: String,
    pub device_scale: i64,
    pub text_align: String,
}

/// Ghost value of a canvas context: its surface, its mutable drawing fields,
/// and the snapshot stack.
#[verifier::ext_equal]
pub ghost struct CanvasModel {
    pub surface: SurfaceModel,
    pub fields: CanvasStateModel,
    pub state: Seq<StateItemModel>,
}

impl View for CanvasNative {
    type V = CanvasModel;

    open spec fn view(&self) -> CanvasModel {
        CanvasModel {
            surface: self.surface@,
            fields: CanvasStateModel {
                stroke_paint: self.stroke_paint@,
                fill_paint: self.fill_paint@,
                commands: self.path.commands@,
                fill_rule: self.path.fill_rule,
                font: self.font@,
                line_dash_offset: self.line_dash_offset,
                shadow_blur: self.shadow_blur,
                shadow_color: self.shadow_color,
                shadow_offset_x: self.shadow_offset_x,
                shadow_offset_y: self.shadow_offset_y,
                image_smoothing_enabled: self.image_smoothing_enabled,
                image_smoothing_quality: self.image_smoothing_quality@,
                device_scale: self.device_scale,
                text_align: self.text_align@,
            },
            state: Seq::new(self.state@.len(), |i: int| self.state@[i]@),
        }
    }
}

/// The starting drawing state: black paints, empty path, ten-pixel
/// sans-serif, black shadow color with zero blur and offsets, smoothing off
/// at low quality, left-aligned text.
pub open spec fn spec_initial_fields(device_scale: i64) -> CanvasStateModel {
    CanvasStateModel {
        stroke_paint: spec_default_stroke_paint(),
        fill_paint: spec_default_fill_paint(),
        commands: Seq::<PathCmd>::empty(),
        fill_rule: FillRule::NonZero,
        font: crate::font::spec_default_font(),
        line_dash_offset: 0,
        shadow_blur: 0,
        shadow_color: COLOR_BLACK,
        shadow_offset_x: 0,
        shadow_offset_y: 0,
        image_smoothing_enabled: false,
        image_smoothing_quality: "low"@,
        device_scale,
        text_align: "left"@,
    }
}

/// A shadow is drawn when a shadow color is set and any of blur or the two
/// offsets is positive.
pub open spec fn spec_shadow_active(f: CanvasStateModel) -> bool {
    f.shadow_color > 0 && (f.shadow_blur > 0 || f.shadow_offset_x > 0 || f.shadow_offset_y > 0)
}

/// The drop-shadow filter built from the context's shadow parameters.
pub open spec fn spec_shadow_filter(f: CanvasStateModel) -> DropShadow {
    DropShadow {
        dx: f.shadow_offset_x,
        dy: f.shadow_offset_y,
        sigma_x: f.shadow_blur,
        sigma_y: f.shadow_blur,
        color: f.shadow_color,
    }
}

/// The paint a fill or stroke call hands the backend: the stored descriptor
/// with the drop-shadow filter attached for this call when a shadow is
/// active.
pub open spec fn spec_effective_paint(p: PaintModel, f: CanvasStateModel) -> PaintModel {
    if spec_shadow_active(f) {
        PaintModel { image_filter: Option::Some(spec_shadow_filter(f)), ..p }
    } else {
        p
    }
}

/// The backend save-count after one more save.
pub open spec fn spec_bump(c: u64) -> u64 {
    if c == u64::MAX {
        c
    } else {
        (c + 1) as u64
    }
}

/// The backend save-count after restoring to `target`: the count never
/// rises and never drops below the root state.
pub open spec fn spec_restore_to(cur: u64, target: u64) -> u64 {
    if target > cur {
        cur
    } else if target < 1 {
        1
    } else {
        target
    }
}

/// The fields restore leaves behind: the top snapshot when there is one,
/// the current fields otherwise.
pub open spec fn spec_restored_fields(c: CanvasModel) -> CanvasStateModel {
    if c.state.len() == 0 {
        c.fields
    } else {
        c.state.last().state
    }
}

/// Law: restore undoes the matching save, whatever happened in between.
/// If a context's stack extends a previous context's stack by a snapshot of
/// that context's fields, then however the mutable fields were changed
/// since, a restore brings the fields back to exactly the earlier value and
/// the stack back to the earlier stack. Applied once per level, this rolls
/// any tower of saves back in last-in first-out order.
pub proof fn lemma_save_restore_round_trip(before: CanvasModel, mutated: CanvasModel, count: u64)
    requires
        mutated.state == before.state.push(StateItemModel { state: before.fields, count }),
    ensures
        spec_restored_fields(mutated) == before.fields,
        mutated.state.drop_last() == before.state,
{
    assert(mutated.state.last() == (StateItemModel { state: before.fields, count }));
    assert(mutated.state.drop_last() =~= before.state);
}

impl CanvasNative {
    /// A fresh context over a new surface, with the default drawing state.
    pub fn new(width: i32, height: i32, device_scale: i64) -> (r: CanvasNative)
        ensures
            r@.surface.width == width,
            r@.surface.height == height,
            r@.surface.scale == device_scale,
            r@.surface.save_count == 1,
            r@.surface.ops =~= Seq::<OpModel>::empty(),
            r@.fields == spec_initial_fields(device_scale),
            r@.state =~= Seq::<StateItemModel>::empty(),
    {
        CanvasNative {
            surface: Surface::new(width, height, device_scale),
            stroke_paint: Paint::default_stroke(),
            fill_paint: Paint::default_fill(),
            path: Path::new(),
            font: FontDescriptor::default_font(),
            state: Vec::new(),
            line_dash_offset: 0,
            shadow_blur: 0,
            shadow_color: COLOR_BLACK,
            shadow_offset_x: 0,
            shadow_offset_y: 0,
            image_smoothing_enabled: false,
            image_smoothing_quality: "low".to_owned(),
            device_scale,
            text_align: "left".to_owned(),
        }
    }

    /// A value snapshot of the mutable drawing state.
    pub fn snapshot(&self) -> (r: CanvasState)
        ensures
            r@ == self@.fields,
    {
        CanvasState {
            stroke_paint: self.stroke_paint.duplicate(),
            fill_paint: self.fill_paint.duplicate(),
            path: self.duplicate_path(),
            font: self.font.duplicate(),
            line_dash_offset: self.line_dash_offset,
            shadow_blur: self.shadow_blur,
            shadow_color: self.shadow_color,
            shadow_offset_x: self.shadow_offset_x,
            shadow_offset_y: self.shadow_offset_y,
            image_smoothing_enabled: self.image_smoothing_enabled,
            image_smoothing_quality: self.image_smoothing_quality.clone(),
            device_scale: self.device_scale,
            text_align: self.text_align.clone(),
        }
    }

    fn duplicate_path(&self) -> (r: Path)
        ensures
            r.commands@ == self.path.commands@,
            r.fill_rule == self.path.fill_rule,
    {
        Path { commands: copy_vec(&self.path.commands), fill_rule: self.path.fill_rule }
    }

    /// Field-wise replacement of the drawing state from a snapshot; every
    /// field is overwritten, the surface and the stack stay.
    pub fn restore_from_state(&mut self, state: CanvasState)
        ensures
            final(self)@ == (CanvasModel { fields: state@, ..old(self)@ }),
    {
        self.stroke_paint = state.stroke_paint;
        self.fill_paint = state.fill_paint;
        self.path = state.path;
        self.font = state.font;
        self.line_dash_offset = state.line_dash_offset;
        self.shadow_blur = state.shadow_blur;
        self.shadow_color = state.shadow_color;
        self.shadow_offset_x = state.shadow_offset_x;
        self.shadow_offset_y = state.shadow_offset_y;
        self.image_smoothing_enabled = state.image_smoothing_enabled;
        self.image_smoothing_quality = state.image_smoothing_quality;
        self.device_scale = state.device_scale;
        self.text_align = state.text_align;
    }

    /// As `restore_from_state`, taking the snapshot boxed.
    pub fn restore_from_state_box(&mut self, state: Box<CanvasState>)
        ensures
            final(self)@ == (CanvasModel { fields: state@, ..old(self)@ }),
    {
        self.restore_from_state(*state);
    }

    /// Field-wise replacement of the drawing state from another context;
    /// the other context's surface, stack and count are not taken.
    pub fn restore_from_canvas(&mut self, canvas: CanvasNative)
        ensures
            final(self)@ == (CanvasModel { fields: canvas@.fields, ..old(self)@ }),
    {
        self.stroke_paint = canvas.stroke_paint;
        self.fill_paint = canvas.fill_paint;
        self.path = canvas.path;
        self.font = canvas.font;
        self.line_dash_offset = canvas.line_dash_offset;
        self.shadow_blur = canvas.shadow_blur;
        self.shadow_color = canvas.shadow_color;
        self.shadow_offset_x = canvas.shadow_offset_x;
        self.shadow_offset_y = canvas.shadow_offset_y;
        self.image_smoothing_enabled = canvas.image_smoothing_enabled;
        self.image_smoothing_quality = canvas.image_smoothing_quality;
        self.device_scale = canvas.device_scale;
        self.text_align = canvas.text_align;
    }

    /// Pushes the backend's save-count together with a full value snapshot
    /// onto the state stack; the backend save is recorded so transform and
    /// clip changes roll back with the matching restore.
    pub fn save(&mut self)
        ensures
            final(self)@ == (CanvasModel {
                surface: SurfaceModel {
                    save_count: spec_bump(old(self)@.surface.save_count),
                    ops: old(self)@.surface.ops.push(OpModel::Save),
                    ..old(self)@.surface
                },
                state: old(self)@.state.push(
                    StateItemModel {
                        state: old(self)@.fields,
                        count: spec_bump(old(self)@.surface.save_count),
                    },
                ),
                fields: old(self)@.fields,
            }),
    {
        self.surface.ops.push(DrawOp::Save);
        if self.surface.save_count < u64::MAX {
            self.surface.save_count = self.surface.save_count + 1;
        }
        let count = self.surface.save_count;
        let snap = self.snapshot();
        self.state.push(CanvasStateItem::new(snap, count));
        proof {
            assert(final(self)@ =~~= (CanvasModel {
                surface: SurfaceModel {
                    save_count: spec_bump(old(self)@.surface.save_count),
                    ops: old(self)@.surface.ops.push(OpModel::Save),
                    ..old(self)@.surface
                },
                state: old(self)@.state.push(
                    StateItemModel {
                        state: old(self)@.fields,
                        count: spec_bump(old(self)@.surface.save_count),
                    },
                ),
                fields: old(self)@.fields,
            }));
        }
    }

    /// Pops the most recent snapshot, restores the backend to the popped
    /// save-count, and overwrites every mutable field from the snapshot.
    /// With an empty stack the context is left completely unchanged.
    pub fn restore(&mut self)
        ensures
            old(self)@.state.len() == 0 ==> final(self)@ == old(self)@,
            old(self)@.state.len() > 0 ==> final(self)@ == (CanvasModel {
                surface: SurfaceModel {
                    save_count: spec_restore_to(
                        old(self)@.surface.save_count,
                        old(self)@.state.last().count,
                    ),
                    ops: old(self)@.surface.ops.push(
                        OpModel::RestoreToCount(old(self)@.state.last().count),
                    ),
                    ..old(self)@.surface
                },
                fields: spec_restored_fields(old(self)@),
                state: old(self)@.state.drop_last(),
            }),
    {
        match self.state.pop() {
            Option::Some(item) => {
                self.surface.ops.push(DrawOp::RestoreToCount(item.count));
                if item.count < 1 {
                    self.surface.save_count = 1;
                } else if item.count < self.surface.save_count {
                    self.surface.save_count = item.count;
                }
                self.restore_from_state(item.state);
                proof {
                    assert(old(self)@.state.last() == item@);
                    assert(final(self)@ =~~= (CanvasModel {
                        surface: SurfaceModel {
                            save_count: spec_restore_to(
                                old(self)@.surface.save_count,
                                old(self)@.state.last().count,
                            ),
                            ops: old(self)@.surface.ops.push(
                                OpModel::RestoreToCount(old(self)@.state.last().count),
                            ),
                            ..old(self)@.surface
                        },
                        fields: spec_restored_fields(old(self)@),
                        state: old(self)@.state.drop_last(),
                    }));
                }
            },
            Option::None => {
                proof {
                    assert(final(self)@ =~~= old(self)@);
                }
            },
        }
    }

    /// Hands the pending operation log to the caller and clears it; the
    /// host drives presentation, so draws batch until it flushes.
    pub fn flush(&mut self) -> (r: Vec<DrawOp>)
        ensures
            Seq::new(r@.len(), |i: int| r@[i]@) =~= old(self)@.surface.ops,
            final(self)@ == (CanvasModel {
                surface: SurfaceModel { ops: Seq::<OpModel>::empty(), ..old(self)@.surface },
                ..old(self)@
            }),
    {
        let mut drained: Vec<DrawOp> = Vec::new();
        core::mem::swap(&mut self.surface.ops, &mut drained);
        proof {
            assert(final(self)@.surface.ops =~= Seq::<OpModel>::empty());
        }
        drained
    }

    /// Replaces a non-empty current path with a fresh one; an already empty
    /// path (and its fill rule) stays as it is.
    pub fn begin_path(&mut self)
        ensures
            final(self)@ == (CanvasModel {
                fields: CanvasStateModel {
                    commands: Seq::<PathCmd>::empty(),
                    fill_rule: if old(self)@.fields.commands.len() == 0 {
                        old(self)@.fields.fill_rule
                    } else {
                        FillRule::NonZero
                    },
                    ..old(self)@.fields
                },
                ..old(self)@
            }),
    {
        if self.path.commands.len() != 0 {
            self.path = Path::new();
        }
        proof {
            assert(final(self)@.fields.commands =~= Seq::<PathCmd>::empty());
        }
    }

    /// The effective paint for this draw: the chosen descriptor, with the
    /// drop-shadow filter attached when a shadow is active.
    fn effective_paint(&self, is_stroke: bool) -> (r: Paint)
        ensures
            r@ == spec_effective_paint(
                if is_stroke {
                    self@.fields.stroke_paint
                } else {
                    self@.fields.fill_paint
                },
                self@.fields,
            ),
    {
        let mut p = if is_stroke {
            self.stroke_paint.duplicate()
        } else {
            self.fill_paint.duplicate()
        };
        if self.shadow_color > 0 && (self.shadow_blur > 0 || self.shadow_offset_x > 0
            || self.shadow_offset_y > 0) {
            p.image_filter = Option::Some(
                DropShadow {
                    dx: self.shadow_offset_x,
                    dy: self.shadow_offset_y,
                    sigma_x: self.shadow_blur,
                    sigma_y: self.shadow_blur,
                    color: self.shadow_color,
                },
            );
        }
        p
    }

    /// Fills or strokes a rectangle. A rectangle with positive width and
    /// height is drawn as such; one with exactly one positive extent becomes
    /// a closed two-point path so caps and joins still apply; one with
    /// neither is not drawn at all.
    pub fn draw_rect(&mut self, x: i64, y: i64, width: i64, height: i64, is_stroke: bool)
        requires
            scalar_in_range(x as int),
            scalar_in_range(y as int),
            scalar_in_range(width as int),
            scalar_in_range(height as int),
        ensures
            final(self)@ == (CanvasModel {
                surface: SurfaceModel {
                    ops: old(self)@.surface.ops + spec_draw_rect_ops(
                        old(self)@.fields,
                        x as int,
                        y as int,
                        width as int,
                        height as int,
                        is_stroke,
                    ),
                    ..old(self)@.surface
                },
                ..old(self)@
            }),
    {
        let rect = Rect::from_xywh(x, y, width, height);
        let paint = self.effective_paint(is_stroke);
        if width > 0 && height > 0 {
            self.surface.ops.push(DrawOp::DrawRect { rect, paint });
        } else if width > 0 || height > 0 {
            let mut commands: Vec<PathCmd> = Vec::new();
            commands.push(PathCmd::MoveTo(Point { x: rect.left, y: rect.top }));
            commands.push(PathCmd::LineTo(Point { x: rect.right, y: rect.bottom }));
            commands.push(PathCmd::Close);
            proof {
                assert(commands@ =~= seq![
                    PathCmd::MoveTo(Point { x: rect.left, y: rect.top }),
                    PathCmd::LineTo(Point { x: rect.right, y: rect.bottom }),
                    PathCmd::Close,
                ]);
            }
            self.surface.ops.push(
                DrawOp::DrawPath { commands, fill_rule: FillRule::NonZero, paint },
            );
        }
        proof {
            assert(final(self)@.surface.ops =~~= old(self)@.surface.ops + spec_draw_rect_ops(
                old(self)@.fields,
                x as int,
                y as int,
                width as int,
                height as int,
                is_stroke,
            ));
        }
    }

    /// Clears a rectangle: draws it with an opaque paint in the clear blend
    /// mode.
    pub fn clear_rect(&mut self, x: i64, y: i64, width: i64, height: i64)
        requires
            scalar_in_range(x as int),
            scalar_in_range(y as int),
            scalar_in_range(width as int),
            scalar_in_range(height as int),
        ensures
            final(self)@ == (CanvasModel {
                surface: SurfaceModel {
                    ops: old(self)@.surface.ops.push(
                        OpModel::DrawRect {
                            rect: spec_rect_xywh(x as int, y as int, width as int, height as int),
                            paint: spec_clear_paint(),
                        },
                    ),
                    ..old(self)@.surface
                },
                ..old(self)@
            }),
    {
        let rect = Rect::from_xywh(x, y, width, height);
        let mut paint = Paint::default_fill();
        paint.blend_mode = crate::composite::BlendMode::Clear;
        self.surface.ops.push(DrawOp::DrawRect { rect, paint });
        proof {
            assert(final(self)@.surface.ops =~= old(self)@.surface.ops.push(
                OpModel::DrawRect {
                    rect: spec_rect_xywh(x as int, y as int, width as int, height as int),
                    paint: spec_clear_paint(),
                },
            ));
        }
    }

    /// Clears the whole surface to opaque white.
    pub fn clear_canvas(&mut self)
        ensures
            final(self)@ == (CanvasModel {
                surface: SurfaceModel {
                    ops: old(self)@.surface.ops.push(OpModel::Clear { color: 0xffffffffu32 }),
                    ..old(self)@.surface
                },
                ..old(self)@
            }),
    {
        self.surface.ops.push(DrawOp::Clear { color: 0xffffffffu32 });
        proof {
            assert(final(self)@.surface.ops =~= old(self)@.surface.ops.push(
                OpModel::Clear { color: 0xffffffffu32 },
            ));
        }
    }

    /// Strokes the current path with the stroke descriptor.
    pub fn stroke(&mut self)
        ensures
            final(self)@ == (CanvasModel {
                surface: SurfaceModel {
                    ops: old(self)@.surface.ops.push(
                        OpModel::DrawPath {
                            commands: old(self)@.fields.commands,
                            fill_rule: old(self)@.fields.fill_rule,
                            paint: spec_effective_paint(
                                old(self)@.fields.stroke_paint,
                                old(self)@.fields,
                            ),
                        },
                    ),
                    ..old(self)@.surface
                },
                ..old(self)@
            }),
    {
        let paint = self.effective_paint(true);
        let p = self.duplicate_path();
        self.surface.ops.push(
            DrawOp::DrawPath { commands: p.commands, fill_rule: p.fill_rule, paint },
        );
        proof {
            assert(final(self)@.surface.ops =~= old(self)@.surface.ops.push(
                OpModel::DrawPath {
                    commands: old(self)@.fields.commands,
                    fill_rule: old(self)@.fields.fill_rule,
                    paint: spec_effective_paint(old(self)@.fields.stroke_paint, old(self)@.fields),
                },
            ));
        }
    }

    /// Strokes the given path with the stroke descriptor.
    pub fn stroke_path(&mut self, path: &Path)
        ensures
            final(self)@ == (CanvasModel {
                surface: SurfaceModel {
                    ops: old(self)@.surface.ops.push(
                        OpModel::DrawPath {
                            commands: path.commands@,
                            fill_rule: path.fill_rule,
                            paint: spec_effective_paint(
                                old(self)@.fields.stroke_paint,
                                old(self)@.fields,
                            ),
                        },
                    ),
                    ..old(self)@.surface
                },
                ..old(self)@
            }),
    {
        let paint = self.effective_paint(true);
        let commands = copy_vec(&path.commands);
        self.surface.ops.push(
            DrawOp::DrawPath { commands, fill_rule: path.fill_rule, paint },
        );
        proof {
            assert(final(self)@.surface.ops =~= old(self)@.surface.ops.push(
                OpModel::DrawPath {
                    commands: path.commands@,
                    fill_rule: path.fill_rule,
                    paint: spec_effective_paint(old(self)@.fields.stroke_paint, old(self)@.fields),
                },
            ));
        }
    }

    /// Fills the current path with the fill descriptor, under the path's
    /// current fill rule.
    pub fn fill(&mut self)
        ensures
            final(self)@ == (CanvasModel {
                surface: SurfaceModel {
                    ops: old(self)@.surface.ops.push(
                        OpModel::DrawPath {
                            commands: old(self)@.fields.commands,
                            fill_rule: old(self)@.fields.fill_rule,
                            paint: spec_effective_paint(
                                old(self)@.fields.fill_paint,
                                old(self)@.fields,
                            ),
                        },
                    ),
                    ..old(self)@.surface
                },
                ..old(self)@
            }),
    {
        let paint = self.effective_paint(false);
        let p = self.duplicate_path();
        self.surface.ops.push(
            DrawOp::DrawPath { commands: p.commands, fill_rule: p.fill_rule, paint },
        );
        proof {
            assert(final(self)@.surface.ops =~= old(self)@.surface.ops.push(
                OpModel::DrawPath {
                    commands: old(self)@.fields.commands,
                    fill_rule: old(self)@.fields.fill_rule,
                    paint: spec_effective_paint(old(self)@.fields.fill_paint, old(self)@.fields),
                },
            ));
        }
    }

    /// Sets the current path's fill rule from a keyword, then fills it.
    pub fn fill_rule(&mut self, rule: &str)
        ensures
            final(self)@ == (CanvasModel {
                surface: SurfaceModel {
                    ops: old(self)@.surface.ops.push(
                        OpModel::DrawPath {
                            commands: old(self)@.fields.commands,
                            fill_rule: spec_fill_rule_of(rule@),
                            paint: spec_effective_paint(
                                old(self)@.fields.fill_paint,
                                old(self)@.fields,
                            ),
                        },
                    ),
                    ..old(self)@.surface
                },
                fields: CanvasStateModel {
                    fill_rule: spec_fill_rule_of(rule@),
                    ..old(self)@.fields
                },
                ..old(self)@
            }),
    {
        let r = FillRule::from_label(rule);
        self.path.set_fill_rule(r);
        self.fill();
    }

    /// Sets the given path's fill rule from a keyword, then fills that path
    /// with the fill descriptor. The rule stays on the path.
    pub fn fill_path_rule(&mut self, path: &mut Path, rule: &str)
        ensures
            final(path).commands@ == old(path).commands@,
            final(path).fill_rule == spec_fill_rule_of(rule@),
            final(self)@ == (CanvasModel {
                surface: SurfaceModel {
                    ops: old(self)@.surface.ops.push(
                        OpModel::DrawPath {
                            commands: old(path).commands@,
                            fill_rule: spec_fill_rule_of(rule@),
                            paint: spec_effective_paint(
                                old(self)@.fields.fill_paint,
                                old(self)@.fields,
                            ),
                        },
                    ),
                    ..old(self)@.surface
                },
                ..old(self)@
            }),
    {
        let r = FillRule::from_label(rule);
        path.set_fill_rule(r);
        let paint = self.effective_paint(false);
        let commands = copy_vec(&path.commands);
        self.surface.ops.push(DrawOp::DrawPath { commands, fill_rule: r, paint });
        proof {
            assert(final(self)@.surface.ops =~= old(self)@.surface.ops.push(
                OpModel::DrawPath {
                    commands: old(path).commands@,
                    fill_rule: spec_fill_rule_of(rule@),
                    paint: spec_effective_paint(old(self)@.fields.fill_paint, old(self)@.fields),
                },
            ));
        }
    }

    /// Intersects the backend clip with the current path under the given
    /// rule; the rule stays on the path. The clip lives in the backend's
    /// save/restore stack and rolls back with restore.
    pub fn clip_rule(&mut self, rule: &str)
        ensures
            final(self)@ == (CanvasModel {
                surface: SurfaceModel {
                    ops: old(self)@.surface.ops.push(
                        OpModel::ClipPath {
                            commands: old(self)@.fields.commands,
                            fill_rule: spec_fill_rule_of(rule@),
                        },
                    ),
                    ..old(self)@.surface
                },
                fields: CanvasStateModel {
                    fill_rule: spec_fill_rule_of(rule@),
                    ..old(self)@.fields
                },
                ..old(self)@
            }),
    {
        let r = FillRule::from_label(rule);
        self.path.set_fill_rule(r);
        let p = self.duplicate_path();
        self.surface.ops.push(DrawOp::ClipPath { commands: p.commands, fill_rule: r });
        proof {
            assert(final(self)@.surface.ops =~= old(self)@.surface.ops.push(
                OpModel::ClipPath {
                    commands: old(self)@.fields.commands,
                    fill_rule: spec_fill_rule_of(rule@),
                },
            ));
        }
    }

    /// Clips by the current path under the nonzero rule.
    pub fn clip(&mut self)
        ensures
            final(self)@ == (CanvasModel {
                surface: SurfaceModel {
                    ops: old(self)@.surface.ops.push(
                        OpModel::ClipPath {
                            commands: old(self)@.fields.commands,
                            fill_rule: FillRule::NonZero,
                        },
                    ),
                    ..old(self)@.surface
                },
                fields: CanvasStateModel { fill_rule: FillRule::NonZero, ..old(self)@.fields },
                ..old(self)@
            }),
    {
        self.clip_rule("nonzero");
        proof {
            reveal_strlit("nonzero");
            reveal_strlit("evenodd");
            assert("nonzero"@[0] == 'n');
            assert("evenodd"@[0] == 'e');
            assert("nonzero"@ != "evenodd"@);
            assert(spec_fill_rule_of("nonzero"@) == FillRule::NonZero);
        }
    }

    /// Clips by the given path under the given rule; the rule stays on the
    /// path.
    pub fn clip_path_rule(&mut self, path: &mut Path, rule: &str)
        ensures
            final(path).commands@ == old(path).commands@,
            final(path).fill_rule == spec_fill_rule_of(rule@),
            final(self)@ == (CanvasModel {
                surface: SurfaceModel {
                    ops: old(self)@.surface.ops.push(
                        OpModel::ClipPath {
                            commands: old(path).commands@,
                            fill_rule: spec_fill_rule_of(rule@),
                        },
                    ),
                    ..old(self)@.surface
                },
                ..old(self)@
            }),
    {
        let r = FillRule::from_label(rule);
        path.set_fill_rule(r);
        let commands = copy_vec(&path.commands);
        self.surface.ops.push(DrawOp::ClipPath { commands, fill_rule: r });
        proof {
            assert(final(self)@.surface.ops =~= old(self)@.surface.ops.push(
                OpModel::ClipPath { commands: old(path).commands@, fill_rule: spec_fill_rule_of(rule@) },
            ));
        }
    }

    /// Replaces the stroke width.
    pub fn set_line_width(&mut self, line_width: i64)
        ensures
            final(self)@ == (CanvasModel {
                fields: CanvasStateModel {
                    stroke_paint: PaintModel {
                        stroke_width: line_width,
                        ..old(self)@.fields.stroke_paint
                    },
                    ..old(self)@.fields
                },
                ..old(self)@
            }),
    {
        self.stroke_paint.stroke_width = line_width;
    }

    /// Replaces the stroke cap from a keyword.
    pub fn set_line_cap(&mut self, line_cap: &str)
        ensures
            final(self)@ == (CanvasModel {
                fields: CanvasStateModel {
                    stroke_paint: PaintModel {
                        stroke_cap: crate::paint::spec_line_cap_of(line_cap@),
                        ..old(self)@.fields.stroke_paint
                    },
                    ..old(self)@.fields
                },
                ..old(self)@
            }),
    {
        self.stroke_paint.stroke_cap = LineCap::from_label(line_cap);
    }

    /// Replaces the stroke join from a keyword.
    pub fn set_line_join(&mut self, line_join: &str)
        ensures
            final(self)@ == (CanvasModel {
                fields: CanvasStateModel {
                    stroke_paint: PaintModel {
                        stroke_join: crate::paint::spec_line_join_of(line_join@),
                        ..old(self)@.fields.stroke_paint
                    },
                    ..old(self)@.fields
                },
                ..old(self)@
            }),
    {
        self.stroke_paint.stroke_join = LineJoin::from_label(line_join);
    }

    /// Replaces the miter limit of the stroke paint.
    pub fn set_miter_limit(&mut self, limit: i64)
        ensures
            final(self)@ == (CanvasModel {
                fields: CanvasStateModel {
                    stroke_paint: PaintModel {
                        stroke_miter: limit,
                        ..old(self)@.fields.stroke_paint
                    },
                    ..old(self)@.fields
                },
                ..old(self)@
            }),
    {
        self.stroke_paint.stroke_miter = limit;
    }

    /// Replaces the alpha byte of both paints' colors.
    pub fn set_global_alpha(&mut self, alpha: u8)
        ensures
            final(self)@ == (CanvasModel {
                fields: CanvasStateModel {
                    fill_paint: PaintModel {
                        color: spec_with_alpha(old(self)@.fields.fill_paint.color, alpha),
                        ..old(self)@.fields.fill_paint
                    },
                    stroke_paint: PaintModel {
                        color: spec_with_alpha(old(self)@.fields.stroke_paint.color, alpha),
                        ..old(self)@.fields.stroke_paint
                    },
                    ..old(self)@.fields
                },
                ..old(self)@
            }),
    {
        self.fill_paint.color = color_with_alpha(self.fill_paint.color, alpha);
        self.stroke_paint.color = color_with_alpha(self.stroke_paint.color, alpha);
    }

    /// Replaces the fill color from channel bytes.
    pub fn set_fill_color_rgba(&mut self, red: u8, green: u8, blue: u8, alpha: u8)
        ensures
            final(self)@ == (CanvasModel {
                fields: CanvasStateModel {
                    fill_paint: PaintModel {
                        color: spec_argb(alpha, red, green, blue),
                        ..old(self)@.fields.fill_paint
                    },
                    ..old(self)@.fields
                },
                ..old(self)@
            }),
    {
        self.fill_paint.color = color_from_argb(alpha, red, green, blue);
    }

    /// Replaces the fill color.
    pub fn set_fill_color(&mut self, color: u32)
        ensures
            final(self)@ == (CanvasModel {
                fields: CanvasStateModel {
                    fill_paint: PaintModel { color, ..old(self)@.fields.fill_paint },
                    ..old(self)@.fields
                },
                ..old(self)@
            }),
    {
        self.fill_paint.color = color;
    }

    /// Replaces the stroke color from channel bytes.
    pub fn set_stroke_color_rgba(&mut self, red: u8, green: u8, blue: u8, alpha: u8)
        ensures
            final(self)@ == (CanvasModel {
                fields: CanvasStateModel {
                    stroke_paint: PaintModel {
                        color: spec_argb(alpha, red, green, blue),
                        ..old(self)@.fields.stroke_paint
                    },
                    ..old(self)@.fields
                },
                ..old(self)@
            }),
    {
        self.stroke_paint.color = color_from_argb(alpha, red, green, blue);
    }

    /// Replaces the stroke color.
    pub fn set_stroke_color(&mut self, color: u32)
        ensures
            final(self)@ == (CanvasModel {
                fields: CanvasStateModel {
                    stroke_paint: PaintModel { color, ..old(self)@.fields.stroke_paint },
                    ..old(self)@.fields
                },
                ..old(self)@
            }),
    {
        self.stroke_paint.color = color;
    }

    /// Attaches a linear gradient to the fill or stroke paint. The current
    /// path, and in particular its fill rule, is untouched: choosing a
    /// gradient style never changes how the path's interior is decided.
    pub fn set_gradient_linear(
        &mut self,
        x0: i64,
        y0: i64,
        x1: i64,
        y1: i64,
        colors: Vec<u32>,
        positions: Vec<i64>,
        is_stroke: bool,
    )
        ensures
            final(self)@ == (CanvasModel {
                fields: spec_with_shader(
                    old(self)@.fields,
                    ShaderModel::LinearGradient {
                        start: Point { x: x0, y: y0 },
                        end: Point { x: x1, y: y1 },
                        colors: colors@,
                        positions: positions@,
                    },
                    is_stroke,
                ),
                ..old(self)@
            }),
            final(self)@.fields.commands == old(self)@.fields.commands,
            final(self)@.fields.fill_rule == old(self)@.fields.fill_rule,
    {
        let shader = Shader::LinearGradient {
            start: Point { x: x0, y: y0 },
            end: Point { x: x1, y: y1 },
            colors,
            positions,
        };
        if is_stroke {
            self.stroke_paint.shader = Option::Some(shader);
        } else {
            self.fill_paint.shader = Option::Some(shader);
        }
    }

    /// Attaches a two-point radial gradient to the fill or stroke paint.
    /// As with linear gradients, the current path and its fill rule are
    /// untouched.
    pub fn set_gradient_radial(
        &mut self,
        x0: i64,
        y0: i64,
        radius_0: i64,
        x1: i64,
        y1: i64,
        radius_1: i64,
        colors: Vec<u32>,
        positions: Vec<i64>,
        is_stroke: bool,
    )
        ensures
            final(self)@ == (CanvasModel {
                fields: spec_with_shader(
                    old(self)@.fields,
                    ShaderModel::RadialGradient {
                        start: Point { x: x0, y: y0 },
                        start_radius: radius_0,
                        end: Point { x: x1, y: y1 },
                        end_radius: radius_1,
                        colors: colors@,
                        positions: positions@,
                    },
                    is_stroke,
                ),
                ..old(self)@
            }),
            final(self)@.fields.commands == old(self)@.fields.commands,
            final(self)@.fields.fill_rule == old(self)@.fields.fill_rule,
    {
        let shader = Shader::RadialGradient {
            start: Point { x: x0, y: y0 },
            start_radius: radius_0,
            end: Point { x: x1, y: y1 },
            end_radius: radius_1,
            colors,
            positions,
        };
        if is_stroke {
            self.stroke_paint.shader = Option::Some(shader);
        } else {
            self.fill_paint.shader = Option::Some(shader);
        }
    }

    /// Attaches a copy of a pattern shader to the fill or stroke paint; the
    /// current path and its fill rule are untouched.
    pub fn set_pattern(&mut self, pattern: &Shader, is_stroke: bool)
        ensures
            final(self)@ == (CanvasModel {
                fields: spec_with_shader(old(self)@.fields, pattern@, is_stroke),
                ..old(self)@
            }),
    {
        let copy = pattern.duplicate();
        if is_stroke {
            self.stroke_paint.shader = Option::Some(copy);
        } else {
            self.fill_paint.shader = Option::Some(copy);
        }
    }

    /// Replaces the stroke dash effect: an empty list clears it, a list
    /// with a positive even number of intervals installs them anchored at
    /// the current dash offset, and any other list leaves the effect as it
    /// was, since the backend cannot build a dash from it.
    pub fn set_line_dash(&mut self, intervals: Vec<i64>)
        ensures
            final(self)@ == (CanvasModel {
                fields: CanvasStateModel {
                    stroke_paint: PaintModel {
                        dash: spec_dash_after(
                            old(self)@.fields.stroke_paint.dash,
                            intervals@,
                            old(self)@.fields.line_dash_offset,
                        ),
                        ..old(self)@.fields.stroke_paint
                    },
                    ..old(self)@.fields
                },
                ..old(self)@
            }),
    {
        let n = intervals.len();
        if n == 0 {
            self.stroke_paint.dash = Option::None;
        } else if n % 2 == 0 {
            self.stroke_paint.dash = Option::Some(
                DashEffect { intervals, phase: self.line_dash_offset },
            );
        }
    }

    /// Replaces the dash offset used when a dash list is next installed.
    pub fn set_line_dash_offset(&mut self, offset: i64)
        ensures
            final(self)@ == (CanvasModel {
                fields: CanvasStateModel { line_dash_offset: offset, ..old(self)@.fields },
                ..old(self)@
            }),
    {
        self.line_dash_offset = offset;
    }

    /// Replaces the shadow blur radius.
    pub fn set_shadow_blur(&mut self, blur: i64)
        ensures
            final(self)@ == (CanvasModel {
                fields: CanvasStateModel { shadow_blur: blur, ..old(self)@.fields },
                ..old(self)@
            }),
    {
        self.shadow_blur = blur;
    }

    /// Replaces the shadow color.
    pub fn set_shadow_color(&mut self, color: u32)
        ensures
            final(self)@ == (CanvasModel {
                fields: CanvasStateModel { shadow_color: color, ..old(self)@.fields },
                ..old(self)@
            }),
    {
        self.shadow_color = color;
    }

    /// Replaces the shadow's horizontal offset.
    pub fn set_shadow_offset_x(&mut self, x: i64)
        ensures
            final(self)@ == (CanvasModel {
                fields: CanvasStateModel { shadow_offset_x: x, ..old(self)@.fields },
                ..old(self)@
            }),
    {
        self.shadow_offset_x = x;
    }

    /// Replaces the shadow's vertical offset.
    pub fn set_shadow_offset_y(&mut self, y: i64)
        ensures
            final(self)@ == (CanvasModel {
                fields: CanvasStateModel { shadow_offset_y: y, ..old(self)@.fields },
                ..old(self)@
            }),
    {
        self.shadow_offset_y = y;
    }

    /// Parses a composite-operation keyword and applies its blend mode to
    /// both paints; the mode then rides along on every later draw.
    pub fn set_global_composite_operation(&mut self, composite: &str)
        ensures
            final(self)@ == (CanvasModel {
                fields: CanvasStateModel {
                    fill_paint: PaintModel {
                        blend_mode: spec_blend_mode_of(spec_composite_op_of(composite@)),
                        ..old(self)@.fields.fill_paint
                    },
                    stroke_paint: PaintModel {
                        blend_mode: spec_blend_mode_of(spec_composite_op_of(composite@)),
                        ..old(self)@.fields.stroke_paint
                    },
                    ..old(self)@.fields
                },
                ..old(self)@
            }),
    {
        let op = CanvasCompositeOperationType::value_from_str(composite);
        let mode = op.get_blend_mode();
        self.fill_paint.blend_mode = mode;
        self.stroke_paint.blend_mode = mode;
    }

    /// Replaces the font from a font string.
    pub fn set_font(&mut self, font: &str)
        ensures
            final(self)@ == (CanvasModel {
                fields: CanvasStateModel { font: spec_parse_font(font@), ..old(self)@.fields },
                ..old(self)@
            }),
    {
        self.font = parse_font(font);
    }

    /// Stores the text alignment keyword as given; draws interpret it and
    /// fall back to left alignment for unknown values.
    pub fn set_text_align(&mut self, alignment: &str)
        ensures
            final(self)@ == (CanvasModel {
                fields: CanvasStateModel { text_align: alignment@, ..old(self)@.fields },
                ..old(self)@
            }),
    {
        self.text_align = alignment.to_owned();
    }

    /// Applies the stored smoothing quality to both paints.
    fn update_quality(&mut self, enabled: bool)
        ensures
            final(self)@ == (CanvasModel {
                fields: CanvasStateModel {
                    fill_paint: PaintModel {
                        filter_quality: spec_quality_of(
                            enabled,
                            old(self)@.fields.image_smoothing_quality,
                        ),
                        ..old(self)@.fields.fill_paint
                    },
                    stroke_paint: PaintModel {
                        filter_quality: spec_quality_of(
                            enabled,
                            old(self)@.fields.image_smoothing_quality,
                        ),
                        ..old(self)@.fields.stroke_paint
                    },
                    ..old(self)@.fields
                },
                ..old(self)@
            }),
    {
        let q: FilterQuality = if enabled {
            let cs = chars_of(self.image_smoothing_quality.as_str());
            if chars_eq_str(cs.as_slice(), "high") {
                FilterQuality::High
            } else if chars_eq_str(cs.as_slice(), "medium") {
                FilterQuality::Medium
            } else {
                FilterQuality::Low
            }
        } else {
            FilterQuality::NoFiltering
        };
        self.stroke_paint.filter_quality = q;
        self.fill_paint.filter_quality = q;
    }

    /// Switches image smoothing on or off and reapplies the stored quality
    /// to both paints.
    pub fn set_image_smoothing_enabled(&mut self, enabled: bool)
        ensures
            final(self)@ == (CanvasModel {
                fields: CanvasStateModel {
                    image_smoothing_enabled: enabled,
                    fill_paint: PaintModel {
                        filter_quality: spec_quality_of(
                            enabled,
                            old(self)@.fields.image_smoothing_quality,
                        ),
                        ..old(self)@.fields.fill_paint
                    },
                    stroke_paint: PaintModel {
                        filter_quality: spec_quality_of(
                            enabled,
                            old(self)@.fields.image_smoothing_quality,
                        ),
                        ..old(self)@.fields.stroke_paint
                    },
                    ..old(self)@.fields
                },
                ..old(self)@
            }),
    {
        self.image_smoothing_enabled = enabled;
        self.update_quality(enabled);
    }

    /// Stores a smoothing quality keyword, clamped to the three known
    /// levels with low as the fallback, and reapplies it to both paints.
    #[verifier::rlimit(50)]
    pub fn set_image_smoothing_quality(&mut self, quality: &str)
        ensures
            final(self)@ == (CanvasModel {
                fields: CanvasStateModel {
                    image_smoothing_quality: spec_clamped_quality(quality@),
                    fill_paint: PaintModel {
                        filter_quality: spec_quality_of(
                            old(self)@.fields.image_smoothing_enabled,
                            spec_clamped_quality(quality@),
                        ),
                        ..old(self)@.fields.fill_paint
                    },
                    stroke_paint: PaintModel {
                        filter_quality: spec_quality_of(
                            old(self)@.fields.image_smoothing_enabled,
                            spec_clamped_quality(quality@),
                        ),
                        ..old(self)@.fields.stroke_paint
                    },
                    ..old(self)@.fields
                },
                ..old(self)@
            }),
    {
        let cs = chars_of(quality);
        let known = chars_eq_str(cs.as_slice(), "high") || chars_eq_str(cs.as_slice(), "medium")
            || chars_eq_str(cs.as_slice(), "low");
        if known {
            self.image_smoothing_quality = quality.to_owned();
        } else {
            self.image_smoothing_quality = "low".to_owned();
        }
        let enabled = self.image_smoothing_enabled;
        self.update_quality(enabled);
    }

    /// Scales the backend's transform.
    pub fn scale(&mut self, x: i64, y: i64)
        ensures
            final(self)@ == (CanvasModel {
                surface: SurfaceModel {
                    ops: old(self)@.surface.ops.push(OpModel::Scale { x, y }),
                    ..old(self)@.surface
                },
                ..old(self)@
            }),
    {
        self.surface.ops.push(DrawOp::Scale { x, y });
        proof {
            assert(final(self)@ =~~= (CanvasModel {
                surface: SurfaceModel {
                    ops: old(self)@.surface.ops.push(OpModel::Scale { x, y }),
                    ..old(self)@.surface
                },
                ..old(self)@
            }));
        }
    }

    /// Rotates the backend's transform; the angle is fixed-point radians
    /// and the backend converts to its own angle unit.
    pub fn rotate(&mut self, angle: i64)
        ensures
            final(self)@ == (CanvasModel {
                surface: SurfaceModel {
                    ops: old(self)@.surface.ops.push(OpModel::Rotate { radians: angle }),
                    ..old(self)@.surface
                },
                ..old(self)@
            }),
    {
        self.surface.ops.push(DrawOp::Rotate { radians: angle });
        proof {
            assert(final(self)@ =~~= (CanvasModel {
                surface: SurfaceModel {
                    ops: old(self)@.surface.ops.push(OpModel::Rotate { radians: angle }),
                    ..old(self)@.surface
                },
                ..old(self)@
            }));
        }
    }

    /// Translates the backend's transform.
    pub fn translate(&mut self, x: i64, y: i64)
        ensures
            final(self)@ == (CanvasModel {
                surface: SurfaceModel {
                    ops: old(self)@.surface.ops.push(OpModel::Translate { x, y }),
                    ..old(self)@.surface
                },
                ..old(self)@
            }),
    {
        self.surface.ops.push(DrawOp::Translate { x, y });
        proof {
            assert(final(self)@ =~~= (CanvasModel {
                surface: SurfaceModel {
                    ops: old(self)@.surface.ops.push(OpModel::Translate { x, y }),
                    ..old(self)@.surface
                },
                ..old(self)@
            }));
        }
    }

    /// Replaces the backend's transform with the given affine matrix.
    pub fn transform(&mut self, a: i64, b: i64, c: i64, d: i64, e: i64, f: i64)
        ensures
            final(self)@ == (CanvasModel {
                surface: SurfaceModel {
                    ops: old(self)@.surface.ops.push(
                        OpModel::SetMatrix(Matrix { a, b, c, d, e, f }),
                    ),
                    ..old(self)@.surface
                },
                ..old(self)@
            }),
    {
        self.surface.ops.push(DrawOp::SetMatrix(Matrix { a, b, c, d, e, f }));
        proof {
            assert(final(self)@ =~~= (CanvasModel {
                surface: SurfaceModel {
                    ops: old(self)@.surface.ops.push(
                        OpModel::SetMatrix(Matrix { a, b, c, d, e, f }),
                    ),
                    ..old(self)@.surface
                },
                ..old(self)@
            }));
        }
    }

    /// Resets the backend's transform, then installs the given matrix.
    pub fn set_transform(&mut self, a: i64, b: i64, c: i64, d: i64, e: i64, f: i64)
        ensures
            final(self)@ == (CanvasModel {
                surface: SurfaceModel {
                    ops: old(self)@.surface.ops.push(OpModel::ResetMatrix).push(
                        OpModel::SetMatrix(Matrix { a, b, c, d, e, f }),
                    ),
                    ..old(self)@.surface
                },
                ..old(self)@
            }),
    {
        self.surface.ops.push(DrawOp::ResetMatrix);
        self.surface.ops.push(DrawOp::SetMatrix(Matrix { a, b, c, d, e, f }));
        proof {
            assert(final(self)@ =~~= (CanvasModel {
                surface: SurfaceModel {
                    ops: old(self)@.surface.ops.push(OpModel::ResetMatrix).push(
                        OpModel::SetMatrix(Matrix { a, b, c, d, e, f }),
                    ),
                    ..old(self)@.surface
                },
                ..old(self)@
            }));
        }
    }

    /// Resets the backend's transform to the identity.
    pub fn reset_transform(&mut self)
        ensures
            final(self)@ == (CanvasModel {
                surface: SurfaceModel {
                    ops: old(self)@.surface.ops.push(OpModel::ResetMatrix),
                    ..old(self)@.surface
                },
                ..old(self)@
            }),
    {
        self.surface.ops.push(DrawOp::ResetMatrix);
        proof {
            assert(final(self)@ =~~= (CanvasModel {
                surface: SurfaceModel {
                    ops: old(self)@.surface.ops.push(OpModel::ResetMatrix),
                    ..old(self)@.surface
                },
                ..old(self)@
            }));
        }
    }

    /// Draws or strokes a text run at `(x, y)`. Non-empty text is drawn
    /// with the stored paint; when a shadow is configured, a second pass of
    /// the same run, offset by the shadow offset and blurred through a mask
    /// filter, follows the main pass. Empty text draws nothing.
    pub fn draw_text(&mut self, text: &str, x: i64, y: i64, is_stroke: bool)
        requires
            scalar_in_range(x as int),
            scalar_in_range(y as int),
            scalar_in_range(old(self)@.fields.shadow_offset_x as int),
            scalar_in_range(old(self)@.fields.shadow_offset_y as int),
        ensures
            final(self)@ == (CanvasModel {
                surface: SurfaceModel {
                    ops: old(self)@.surface.ops + spec_draw_text_ops(
                        old(self)@.fields,
                        text@,
                        x as int,
                        y as int,
                        is_stroke,
                    ),
                    ..old(self)@.surface
                },
                ..old(self)@
            }),
    {
        if text.unicode_len() == 0 {
            proof {
                assert(final(self)@ =~~= (CanvasModel {
                    surface: SurfaceModel {
                        ops: old(self)@.surface.ops + spec_draw_text_ops(
                            old(self)@.fields,
                            text@,
                            x as int,
                            y as int,
                            is_stroke,
                        ),
                        ..old(self)@.surface
                    },
                    ..old(self)@
                }));
            }
            return;
        }
        let align = self.text_align_value();
        let main_paint = if is_stroke {
            self.stroke_paint.duplicate()
        } else {
            self.fill_paint.duplicate()
        };
        let shadow = self.shadow_color > 0 && (self.shadow_blur > 0 || self.shadow_offset_x > 0
            || self.shadow_offset_y > 0);
        self.surface.ops.push(
            DrawOp::DrawText {
                text: text.to_owned(),
                x,
                y,
                font: self.font.duplicate(),
                paint: main_paint,
                align,
            },
        );
        if shadow {
            let mut blur_paint = Paint::default_fill();
            blur_paint.color = self.shadow_color;
            blur_paint.mask_blur = Option::Some(self.shadow_blur);
            blur_paint.style = if is_stroke {
                PaintStyle::Stroke
            } else {
                PaintStyle::Fill
            };
            self.surface.ops.push(
                DrawOp::DrawText {
                    text: text.to_owned(),
                    x: x + self.shadow_offset_x,
                    y: y + self.shadow_offset_y,
                    font: self.font.duplicate(),
                    paint: blur_paint,
                    align,
                },
            );
        }
        proof {
            assert(final(self)@ =~~= (CanvasModel {
                surface: SurfaceModel {
                    ops: old(self)@.surface.ops + spec_draw_text_ops(
                        old(self)@.fields,
                        text@,
                        x as int,
                        y as int,
                        is_stroke,
                    ),
                    ..old(self)@.surface
                },
                ..old(self)@
            }));
        }
    }

    /// The stored text alignment: right or center by keyword, left for
    /// everything else.
    fn text_align_value(&self) -> (r: TextAlign)
        ensures
            r == spec_text_align_of(self@.fields.text_align),
    {
        let cs = chars_of(self.text_align.as_str());
        if chars_eq_str(cs.as_slice(), "right") {
            TextAlign::Right
        } else if chars_eq_str(cs.as_slice(), "center") {
            TextAlign::Center
        } else {
            TextAlign::Left
        }
    }

    /// Draws a raw premultiplied pixel buffer at a point. The buffer is
    /// drawn only when both dimensions are positive and it holds at least
    /// four bytes for every pixel of the declared size.
    pub fn draw_image(
        &mut self,
        pixels: Vec<u8>,
        original_width: i32,
        original_height: i32,
        dx: i64,
        dy: i64,
    )
        ensures
            final(self)@ == (CanvasModel {
                surface: SurfaceModel {
                    ops: if spec_raster_valid(
                        original_width as int,
                        original_height as int,
                        pixels@.len() as int,
                    ) {
                        old(self)@.surface.ops.push(
                            OpModel::DrawImage {
                                width: original_width,
                                height: original_height,
                                pixels: pixels@,
                                src: Option::None,
                                dst_point: Option::Some(Point { x: dx, y: dy }),
                                dst_rect: Option::None,
                                paint: spec_image_paint(old(self)@.fields),
                            },
                        )
                    } else {
                        old(self)@.surface.ops
                    },
                    ..old(self)@.surface
                },
                ..old(self)@
            }),
    {
        if self.raster_valid(original_width, original_height, &pixels) {
            let paint = self.image_paint();
            self.surface.ops.push(
                DrawOp::DrawImage {
                    width: original_width,
                    height: original_height,
                    pixels,
                    src: Option::None,
                    dst_point: Option::Some(Point { x: dx, y: dy }),
                    dst_rect: Option::None,
                    paint,
                },
            );
        }
    }

    /// Draws a raw pixel buffer scaled into a destination rectangle.
    pub fn draw_image_dw(
        &mut self,
        pixels: Vec<u8>,
        original_width: i32,
        original_height: i32,
        dx: i64,
        dy: i64,
        d_width: i64,
        d_height: i64,
    )
        requires
            scalar_in_range(dx as int),
            scalar_in_range(dy as int),
            scalar_in_range(d_width as int),
            scalar_in_range(d_height as int),
        ensures
            final(self)@ == (CanvasModel {
                surface: SurfaceModel {
                    ops: if spec_raster_valid(
                        original_width as int,
                        original_height as int,
                        pixels@.len() as int,
                    ) {
                        old(self)@.surface.ops.push(
                            OpModel::DrawImage {
                                width: original_width,
                                height: original_height,
                                pixels: pixels@,
                                src: Option::None,
                                dst_point: Option::None,
                                dst_rect: Option::Some(
                                    spec_rect_xywh(
                                        dx as int,
                                        dy as int,
                                        d_width as int,
                                        d_height as int,
                                    ),
                                ),
                                paint: spec_image_paint(old(self)@.fields),
                            },
                        )
                    } else {
                        old(self)@.surface.ops
                    },
                    ..old(self)@.surface
                },
                ..old(self)@
            }),
    {
        if self.raster_valid(original_width, original_height, &pixels) {
            let paint = self.image_paint();
            let dst = Rect::from_xywh(dx, dy, d_width, d_height);
            self.surface.ops.push(
                DrawOp::DrawImage {
                    width: original_width,
                    height: original_height,
                    pixels,
                    src: Option::None,
                    dst_point: Option::None,
                    dst_rect: Option::Some(dst),
                    paint,
                },
            );
        }
    }

    /// Draws a source rectangle of a raw pixel buffer into a destination
    /// rectangle.
    pub fn draw_image_sw(
        &mut self,
        pixels: Vec<u8>,
        original_width: i32,
        original_height: i32,
        sx: i64,
        sy: i64,
        s_width: i64,
        s_height: i64,
        dx: i64,
        dy: i64,
        d_width: i64,
        d_height: i64,
    )
        requires
            scalar_in_range(sx as int),
            scalar_in_range(sy as int),
            scalar_in_range(s_width as int),
            scalar_in_range(s_height as int),
            scalar_in_range(dx as int),
            scalar_in_range(dy as int),
            scalar_in_range(d_width as int),
            scalar_in_range(d_height as int),
        ensures
            final(self)@ == (CanvasModel {
                surface: SurfaceModel {
                    ops: if spec_raster_valid(
                        original_width as int,
                        original_height as int,
                        pixels@.len() as int,
                    ) {
                        old(self)@.surface.ops.push(
                            OpModel::DrawImage {
                                width: original_width,
                                height: original_height,
                                pixels: pixels@,
                                src: Option::Some(
                                    spec_rect_xywh(
                                        sx as int,
                                        sy as int,
                                        s_width as int,
                                        s_height as int,
                                    ),
                                ),
                                dst_point: Option::None,
                                dst_rect: Option::Some(
                                    spec_rect_xywh(
                                        dx as int,
                                        dy as int,
                                        d_width as int,
                                        d_height as int,
                                    ),
                                ),
                                paint: spec_image_paint(old(self)@.fields),
                            },
                        )
                    } else {
                        old(self)@.surface.ops
                    },
                    ..old(self)@.surface
                },
                ..old(self)@
            }),
    {
        if self.raster_valid(original_width, original_height, &pixels) {
            let paint = self.image_paint();
            let src = Rect::from_xywh(sx, sy, s_width, s_height);
            let dst = Rect::from_xywh(dx, dy, d_width, d_height);
            self.surface.ops.push(
                DrawOp::DrawImage {
                    width: original_width,
                    height: original_height,
                    pixels,
                    src: Option::Some(src),
                    dst_point: Option::None,
                    dst_rect: Option::Some(dst),
                    paint,
                },
            );
        }
    }

    /// Draws an encoded image at a point: the bytes are decoded, and the
    /// decoded pixels are drawn like a raw buffer of the decoded size.
    /// Undecodable bytes, and decoded sizes beyond the backend's pixel
    /// range, draw nothing.
    pub fn draw_image_encoded(&mut self, image_bytes: &[u8], dx: i64, dy: i64)
        ensures
            final(self)@ == (CanvasModel {
                surface: SurfaceModel {
                    ops: if spec_encoded_drawable(image_bytes@) {
                        old(self)@.surface.ops.push(
                            OpModel::DrawImage {
                                width: crate::image_asset::decoded_width_of(image_bytes@) as i32,
                                height: crate::image_asset::decoded_height_of(image_bytes@) as i32,
                                pixels: crate::image_asset::decoded_rgba_of(image_bytes@),
                                src: Option::None,
                                dst_point: Option::Some(Point { x: dx, y: dy }),
                                dst_rect: Option::None,
                                paint: spec_image_paint(old(self)@.fields),
                            },
                        )
                    } else {
                        old(self)@.surface.ops
                    },
                    ..old(self)@.surface
                },
                ..old(self)@
            }),
    {
        match crate::image_asset::decode_rgba(image_bytes) {
            Option::Some((w, h, pixels)) => {
                if w > 0 && h > 0 && w <= i32::MAX as u32 && h <= i32::MAX as u32 {
                    proof {
                        assert(4 * (w as int) * (h as int) == 4 * ((w as i32) as int) * ((
                        h as i32) as int));
                    }
                    self.draw_image(pixels, w as i32, h as i32, dx, dy);
                } else {
                    proof {
                        assert(final(self)@ =~~= old(self)@);
                    }
                }
            },
            Option::None => {
                proof {
                    assert(final(self)@ =~~= old(self)@);
                }
            },
        }
    }

    /// Draws an encoded image scaled into a destination rectangle.
    pub fn draw_image_dw_encoded(
        &mut self,
        image_bytes: &[u8],
        dx: i64,
        dy: i64,
        d_width: i64,
        d_height: i64,
    )
        requires
            scalar_in_range(dx as int),
            scalar_in_range(dy as int),
            scalar_in_range(d_width as int),
            scalar_in_range(d_height as int),
        ensures
            final(self)@ == (CanvasModel {
                surface: SurfaceModel {
                    ops: if spec_encoded_drawable(image_bytes@) {
                        old(self)@.surface.ops.push(
                            OpModel::DrawImage {
                                width: crate::image_asset::decoded_width_of(image_bytes@) as i32,
                                height: crate::image_asset::decoded_height_of(image_bytes@) as i32,
                                pixels: crate::image_asset::decoded_rgba_of(image_bytes@),
                                src: Option::None,
                                dst_point: Option::None,
                                dst_rect: Option::Some(
                                    spec_rect_xywh(
                                        dx as int,
                                        dy as int,
                                        d_width as int,
                                        d_height as int,
                                    ),
                                ),
                                paint: spec_image_paint(old(self)@.fields),
                            },
                        )
                    } else {
                        old(self)@.surface.ops
                    },
                    ..old(self)@.surface
                },
                ..old(self)@
            }),
    {
        match crate::image_asset::decode_rgba(image_bytes) {
            Option::Some((w, h, pixels)) => {
                if w > 0 && h > 0 && w <= i32::MAX as u32 && h <= i32::MAX as u32 {
                    proof {
                        assert(4 * (w as int) * (h as int) == 4 * ((w as i32) as int) * ((
                        h as i32) as int));
                    }
                    self.draw_image_dw(pixels, w as i32, h as i32, dx, dy, d_width, d_height);
                } else {
                    proof {
                        assert(final(self)@ =~~= old(self)@);
                    }
                }
            },
            Option::None => {
                proof {
                    assert(final(self)@ =~~= old(self)@);
                }
            },
        }
    }

    /// Draws a source rectangle of an encoded image into a destination
    /// rectangle.
    pub fn draw_image_sw_encoded(
        &mut self,
        image_bytes: &[u8],
        sx: i64,
        sy: i64,
        s_width: i64,
        s_height: i64,
        dx: i64,
        dy: i64,
        d_width: i64,
        d_height: i64,
    )
        requires
            scalar_in_range(sx as int),
            scalar_in_range(sy as int),
            scalar_in_range(s_width as int),
            scalar_in_range(s_height as int),
            scalar_in_range(dx as int),
            scalar_in_range(dy as int),
            scalar_in_range(d_width as int),
            scalar_in_range(d_height as int),
        ensures
            final(self)@ == (CanvasModel {
                surface: SurfaceModel {
                    ops: if spec_encoded_drawable(image_bytes@) {
                        old(self)@.surface.ops.push(
                            OpModel::DrawImage {
                                width: crate::image_asset::decoded_width_of(image_bytes@) as i32,
                                height: crate::image_asset::decoded_height_of(image_bytes@) as i32,
                                pixels: crate::image_asset::decoded_rgba_of(image_bytes@),
                                src: Option::Some(
                                    spec_rect_xywh(
                                        sx as int,
                                        sy as int,
                                        s_width as int,
                                        s_height as int,
                                    ),
                                ),
                                dst_point: Option::None,
                                dst_rect: Option::Some(
                                    spec_rect_xywh(
                                        dx as int,
                                        dy as int,
                                        d_width as int,
                                        d_height as int,
                                    ),
                                ),
                                paint: spec_image_paint(old(self)@.fields),
                            },
                        )
                    } else {
                        old(self)@.surface.ops
                    },
                    ..old(self)@.surface
                },
                ..old(self)@
            }),
    {
        match crate::image_asset::decode_rgba(image_bytes) {
            Option::Some((w, h, pixels)) => {
                if w > 0 && h > 0 && w <= i32::MAX as u32 && h <= i32::MAX as u32 {
                    proof {
                        assert(4 * (w as int) * (h as int) == 4 * ((w as i32) as int) * ((
                        h as i32) as int));
                    }
                    self.draw_image_sw(
                        pixels,
                        w as i32,
                        h as i32,
                        sx,
                        sy,
                        s_width,
                        s_height,
                        dx,
                        dy,
                        d_width,
                        d_height,
                    );
                } else {
                    proof {
                        assert(final(self)@ =~~= old(self)@);
                    }
                }
            },
            Option::None => {
                proof {
                    assert(final(self)@ =~~= old(self)@);
                }
            },
        }
    }

    /// Whether a raw buffer can back an image of the declared size.
    fn raster_valid(&self, w: i32, h: i32, pixels: &Vec<u8>) -> (r: bool)
        ensures
            r == spec_raster_valid(w as int, h as int, pixels@.len() as int),
    {
        if w <= 0 || h <= 0 {
            return false;
        }
        proof {
            assert((w as u64) * (h as u64) <= 0x3FFF_FFFF_0000_0001u64 && (w as u64) * (
            h as u64) == (w as int) * (h as int)) by (nonlinear_arith)
                requires
                    0 < w <= i32::MAX,
                    0 < h <= i32::MAX,
            ;
        }
        let wh: u64 = (w as u64) * (h as u64);
        let need: u64 = wh * 4;
        proof {
            assert(need as int == 4 * (w as int) * (h as int)) by (nonlinear_arith)
                requires
                    need == wh * 4,
                    wh as int == (w as int) * (h as int),
                    wh <= 0x3FFF_FFFF_0000_0001u64,
            ;
        }
        (pixels.len() as u64) >= need
    }

    /// The paint an image draw uses: anti-aliased, blended like the fill
    /// paint, resampled by the smoothing settings.
    fn image_paint(&self) -> (r: Paint)
        ensures
            r@ == spec_image_paint(self@.fields),
    {
        let mut p = Paint::default_fill();
        p.blend_mode = self.fill_paint.blend_mode;
        if self.image_smoothing_enabled {
            let cs = chars_of(self.image_smoothing_quality.as_str());
            if chars_eq_str(cs.as_slice(), "low") {
                p.filter_quality = FilterQuality::Low;
            } else if chars_eq_str(cs.as_slice(), "medium") {
                p.filter_quality = FilterQuality::Medium;
            } else if chars_eq_str(cs.as_slice(), "high") {
                p.filter_quality = FilterQuality::High;
            }
        } else {
            p.filter_quality = FilterQuality::NoFiltering;
        }
        p
    }

    /// Writes a raw pixel buffer to the surface at an integer pixel offset;
    /// the offset is the sum of the position and the dirty origin, brought
    /// from fixed-point to whole pixels toward zero.
    pub fn put_image_data(
        &mut self,
        data: Vec<u8>,
        width: i32,
        height: i32,
        x: i64,
        y: i64,
        dirty_x: i64,
        dirty_y: i64,
    )
        requires
            scalar_in_range(x as int),
            scalar_in_range(y as int),
            scalar_in_range(dirty_x as int),
            scalar_in_range(dirty_y as int),
        ensures
            final(self)@ == (CanvasModel {
                surface: SurfaceModel {
                    ops: old(self)@.surface.ops.push(
                        OpModel::WritePixels {
                            width,
                            height,
                            pixels: data@,
                            x: spec_to_pixel(x as int + dirty_x as int),
                            y: spec_to_pixel(y as int + dirty_y as int),
                        },
                    ),
                    ..old(self)@.surface
                },
                ..old(self)@
            }),
    {
        let px = to_pixel(x + dirty_x);
        let py = to_pixel(y + dirty_y);
        self.surface.ops.push(
            DrawOp::WritePixels { width, height, pixels: data, x: px, y: py },
        );
    }

    /// The pixels of a surface region. The backend's answer is returned
    /// when it has the requested size; an unreadable region never fails and
    /// yields an opaque-white buffer of the requested size instead.
    pub fn get_image_data(&self, sw: u32, sh: u32, backend_pixels: Option<Vec<u8>>) -> (r: Vec<
        u8,
    >)
        requires
            4 * (sw as int) * (sh as int) <= usize::MAX as int,
        ensures
            match backend_pixels {
                Option::Some(p) => if p@.len() == 4 * (sw as int) * (sh as int) {
                    r@ == p@
                } else {
                    spec_opaque_white(r@, 4 * (sw as int) * (sh as int))
                },
                Option::None => spec_opaque_white(r@, 4 * (sw as int) * (sh as int)),
            },
    {
        let need_u: u64 = 4 * (sw as u64) * (sh as u64);
        proof {
            assert(4 * (sw as u64) * (sh as u64) == 4 * (sw as int) * (sh as int))
                by (nonlinear_arith)
                requires
                    sw <= u32::MAX,
                    sh <= u32::MAX,
            ;
        }
        let need: usize = need_u as usize;
        match backend_pixels {
            Option::Some(p) => {
                if p.len() == need {
                    p
                } else {
                    white_buffer(need)
                }
            },
            Option::None => white_buffer(need),
        }
    }
}

/// The operations a rectangle draw appends: one rectangle draw when both
/// extents are positive, one closed two-point path draw when exactly one
/// is, and nothing when neither is.
pub open spec fn spec_draw_rect_ops(
    f: CanvasStateModel,
    x: int,
    y: int,
    w: int,
    h: int,
    is_stroke: bool,
) -> Seq<OpModel> {
    let rect = spec_rect_xywh(x, y, w, h);
    let paint = spec_effective_paint(
        if is_stroke {
            f.stroke_paint
        } else {
            f.fill_paint
        },
        f,
    );
    if w > 0 && h > 0 {
        seq![OpModel::DrawRect { rect, paint }]
    } else if w > 0 || h > 0 {
        seq![
            OpModel::DrawPath {
                commands: seq![
                    PathCmd::MoveTo(Point { x: rect.left, y: rect.top }),
                    PathCmd::LineTo(Point { x: rect.right, y: rect.bottom }),
                    PathCmd::Close,
                ],
                fill_rule: FillRule::NonZero,
                paint,
            },
        ]
    } else {
        Seq::<OpModel>::empty()
    }
}

/// Law: the degenerate-rectangle policy. A rectangle with exactly one
/// positive extent is not a silent no-op: it draws exactly one operation,
/// the closed two-point path from its top-left to its bottom-right corner
/// under the effective paint, while a rectangle with neither extent
/// positive draws nothing at all.
pub proof fn lemma_degenerate_rect_policy(
    f: CanvasStateModel,
    x: int,
    y: int,
    w: int,
    h: int,
    is_stroke: bool,
)
    requires
        (w > 0 && h <= 0) || (w <= 0 && h > 0),
    ensures
        spec_draw_rect_ops(f, x, y, w, h, is_stroke) == seq![
            OpModel::DrawPath {
                commands: seq![
                    PathCmd::MoveTo(Point { x: x as i64, y: y as i64 }),
                    PathCmd::LineTo(Point { x: (x + w) as i64, y: (y + h) as i64 }),
                    PathCmd::Close,
                ],
                fill_rule: FillRule::NonZero,
                paint: spec_effective_paint(
                    if is_stroke {
                        f.stroke_paint
                    } else {
                        f.fill_paint
                    },
                    f,
                ),
            },
        ],
        spec_draw_rect_ops(f, x, y, 0, 0, is_stroke) == Seq::<OpModel>::empty(),
{
}

/// The paint `clear_rect` uses: the default fill paint in the clear blend
/// mode.
pub open spec fn spec_clear_paint() -> PaintModel {
    PaintModel { blend_mode: crate::composite::BlendMode::Clear, ..spec_default_fill_paint() }
}

/// The fields after a shader replacement on one of the two paints.
pub open spec fn spec_with_shader(
    f: CanvasStateModel,
    shader: ShaderModel,
    is_stroke: bool,
) -> CanvasStateModel {
    if is_stroke {
        CanvasStateModel {
            stroke_paint: PaintModel { shader: Option::Some(shader), ..f.stroke_paint },
            ..f
        }
    } else {
        CanvasStateModel {
            fill_paint: PaintModel { shader: Option::Some(shader), ..f.fill_paint },
            ..f
        }
    }
}

/// The dash effect after a dash-list call: an empty list clears the
/// effect, a positive even count installs the list anchored at the current
/// dash offset, and anything else keeps the old effect.
pub open spec fn spec_dash_after(
    old_dash: Option<DashModel>,
    intervals: Seq<i64>,
    phase: i64,
) -> Option<DashModel> {
    if intervals.len() == 0 {
        Option::None
    } else if intervals.len() % 2 == 0 {
        Option::Some(DashModel { intervals, phase })
    } else {
        old_dash
    }
}

/// The filter quality the stored smoothing state selects: off means no
/// filtering; on selects the stored level, low when the stored keyword is
/// unknown.
pub open spec fn spec_quality_of(enabled: bool, q: Seq<char>) -> FilterQuality {
    if !enabled {
        FilterQuality::NoFiltering
    } else if q == "high"@ {
        FilterQuality::High
    } else if q == "medium"@ {
        FilterQuality::Medium
    } else {
        FilterQuality::Low
    }
}

/// A quality keyword clamped to the three known levels, low as fallback.
pub open spec fn spec_clamped_quality(q: Seq<char>) -> Seq<char> {
    if q == "high"@ || q == "medium"@ || q == "low"@ {
        q
    } else {
        "low"@
    }
}

/// The stored alignment keyword as an anchor.
pub open spec fn spec_text_align_of(a: Seq<char>) -> TextAlign {
    if a == "right"@ {
        TextAlign::Right
    } else if a == "center"@ {
        TextAlign::Center
    } else {
        TextAlign::Left
    }
}

/// The operations a text draw appends: nothing for empty text, the main
/// pass with the stored paint, and a blurred offset pass when a shadow is
/// active.
pub open spec fn spec_draw_text_ops(
    f: CanvasStateModel,
    text: Seq<char>,
    x: int,
    y: int,
    is_stroke: bool,
) -> Seq<OpModel> {
    if text.len() == 0 {
        Seq::<OpModel>::empty()
    } else {
        let align = spec_text_align_of(f.text_align);
        let main = OpModel::DrawText {
            text,
            x: x as i64,
            y: y as i64,
            font: f.font,
            paint: if is_stroke {
                f.stroke_paint
            } else {
                f.fill_paint
            },
            align,
        };
        if spec_shadow_active(f) {
            seq![main, OpModel::DrawText {
                text,
                x: (x + f.shadow_offset_x) as i64,
                y: (y + f.shadow_offset_y) as i64,
                font: f.font,
                paint: spec_text_shadow_paint(f, is_stroke),
                align,
            }]
        } else {
            seq![main]
        }
    }
}

/// The paint of the blurred text shadow pass: the default paint in the
/// shadow color with a blur mask filter, filling or stroking like the main
/// pass.
pub open spec fn spec_text_shadow_paint(f: CanvasStateModel, is_stroke: bool) -> PaintModel {
    PaintModel {
        color: f.shadow_color,
        mask_blur: Option::Some(f.shadow_blur),
        style: if is_stroke {
            PaintStyle::Stroke
        } else {
            PaintStyle::Fill
        },
        ..spec_default_fill_paint()
    }
}

/// A raw buffer can back an image when both dimensions are positive and it
/// holds four bytes per pixel.
pub open spec fn spec_raster_valid(w: int, h: int, len: int) -> bool {
    w > 0 && h > 0 && len >= 4 * w * h
}

/// The paint an image draw uses.
pub open spec fn spec_image_paint(f: CanvasStateModel) -> PaintModel {
    PaintModel {
        blend_mode: f.fill_paint.blend_mode,
        filter_quality: spec_image_quality(f.image_smoothing_enabled, f.image_smoothing_quality),
        ..spec_default_fill_paint()
    }
}

/// The resampling quality of an image draw: the stored level when
/// smoothing is on (an unknown stored keyword keeps the backend default),
/// no filtering when it is off.
pub open spec fn spec_image_quality(enabled: bool, q: Seq<char>) -> FilterQuality {
    if !enabled {
        FilterQuality::NoFiltering
    } else if q == "low"@ {
        FilterQuality::Low
    } else if q == "medium"@ {
        FilterQuality::Medium
    } else if q == "high"@ {
        FilterQuality::High
    } else {
        FilterQuality::NoFiltering
    }
}

/// A whole-pixel coordinate from a fixed-point one: divided toward zero,
/// clamped to the backend's pixel range.
pub open spec fn spec_to_pixel(v: int) -> i32 {
    let q = if v >= 0 {
        v / 10000
    } else {
        -((-v) / 10000)
    };
    if q > i32::MAX as int {
        i32::MAX
    } else if q < i32::MIN as int {
        i32::MIN
    } else {
        q as i32
    }
}

/// Brings a fixed-point coordinate to whole pixels, toward zero, clamped.
pub fn to_pixel(v: i64) -> (r: i32)
    requires
        -4 * SCALAR_LIMIT <= v <= 4 * SCALAR_LIMIT,
    ensures
        r == spec_to_pixel(v as int),
{
    let q: i64 = if v >= 0 {
        v / 10000
    } else {
        -((-v) / 10000)
    };
    if q > i32::MAX as i64 {
        i32::MAX
    } else if q < i32::MIN as i64 {
        i32::MIN
    } else {
        q as i32
    }
}

/// Buffer content is opaque white of the given length.
pub open spec fn spec_opaque_white(s: Seq<u8>, len: int) -> bool {
    s.len() == len && forall|k: int| 0 <= k < s.len() ==> s[k] == 255u8
}

/// An opaque-white buffer of the given length.
fn white_buffer(len: usize) -> (r: Vec<u8>)
    ensures
        spec_opaque_white(r@, len as int),
{
    let mut r: Vec<u8> = Vec::new();
    let mut i: usize = 0;
    while i < len
        invariant
            i <= len,
            r@.len() == i,
            forall|k: int| 0 <= k < r@.len() ==> r@[k] == 255u8,
        decreases len - i,
    {
        r.push(255u8);
        i += 1;
    }
    r
}

/// A zero-filled pixel buffer for a new image-data object of the given
/// size.
pub fn create_image_data(width: i32, height: i32) -> (r: Vec<u8>)
    requires
        width >= 0,
        height >= 0,
        4 * (width as int) * (height as int) <= usize::MAX as int,
    ensures
        r@.len() == 4 * (width as int) * (height as int),
        forall|k: int| 0 <= k < r@.len() ==> r@[k] == 0u8,
{
    let need_u: u64 = 4 * (width as u64) * (height as u64);
    proof {
        assert(4 * (width as u64) * (height as u64) == 4 * (width as int) * (height as int))
            by (nonlinear_arith)
            requires
                0 <= width <= i32::MAX,
                0 <= height <= i32::MAX,
        ;
    }
    let need: usize = need_u as usize;
    let mut r: Vec<u8> = Vec::new();
    let mut i: usize = 0;
    while i < need
        invariant
            i <= need,
            r@.len() == i,
            forall|k: int| 0 <= k < r@.len() ==> r@[k] == 0u8,
        decreases need - i,
    {
        r.push(0u8);
        i += 1;
    }
    r
}

/// An encoded image draws when its bytes decode and the decoded size is a
/// positive number of pixels in the backend's range.
pub open spec fn spec_encoded_drawable(bytes: Seq<u8>) -> bool {
    &&& crate::image_asset::image_decodes(bytes)
    &&& 0 < crate::image_asset::decoded_width_of(bytes) <= i32::MAX as u32
    &&& 0 < crate::image_asset::decoded_height_of(bytes) <= i32::MAX as u32
}

} // verus!
