//! Handle-based ownership. The host holds opaque handles, never the values:
//! every object lives in a generational arena, a handle is an index paired
//! with the generation it was created under, and a freed or never-issued
//! handle simply stops matching, so every operation on it is a silent no-op.
//! That is the drawing API's error model: an invalid target never crashes,
//! it does nothing.

use vstd::prelude::*;

use vstd::string::StringSliceAdditionalSpecFns;

use crate::codec::{TextDecoder, TextEncoder, CODEC_INPUT_LIMIT};
use crate::context::CanvasNative;
use crate::geometry::{scalar_in_range, Matrix, Point, SCALAR_LIMIT};
use crate::image_asset::NativeImageAsset;
use crate::paint::Shader;
use crate::path::{Path, PathCmd};

verus! {

/// An opaque handle: a slot index and the generation the slot was filled
/// under.
#[derive(Clone, Copy, Debug, PartialEq, Eq, Structural)]
pub struct Handle {
    pub index: usize,
    pub generation: u64,
}

/// The handle no live object ever has; generations start at one.
pub fn null_handle() -> (r: Handle)
    ensures
        r == (Handle { index: 0, generation: 0 }),
{
    Handle { index: 0, generation: 0 }
}

/// One arena slot. A slot's generation rises when it is freed, so stale
/// handles stop matching; slots are not reused.
#[derive(Debug)]
pub struct Slot<T> {
    pub generation: u64,
    pub value: Option<T>,
}

/// A generational arena.
#[derive(Debug)]
pub struct Arena<T> {
    pub slots: Vec<Slot<T>>,
}

impl<T> Arena<T> {
    /// The value a handle names, when the handle is live.
    pub open spec fn spec_get(&self, h: Handle) -> Option<T> {
        if h.index < self.slots@.len() && self.slots@[h.index as int].generation == h.generation {
            self.slots@[h.index as int].value
        } else {
            Option::None
        }
    }

    pub fn new() -> (r: Arena<T>)
        ensures
            r.slots@ =~= Seq::<Slot<T>>::empty(),
    {
        Arena { slots: Vec::new() }
    }

    /// Stores a value in a fresh slot and returns its handle.
    pub fn insert(&mut self, value: T) -> (h: Handle)
        ensures
            h == (Handle { index: old(self).slots@.len() as usize, generation: 1u64 }),
            final(self).slots@ == old(self).slots@.push(
                Slot { generation: 1u64, value: Option::Some(value) },
            ),
            final(self).spec_get(h) == Option::Some(value),
    {
        let index = self.slots.len();
        self.slots.push(Slot { generation: 1, value: Option::Some(value) });
        Handle { index, generation: 1 }
    }

    /// Takes the value a live handle names out of its slot, leaving the
    /// slot's generation; an invalid handle takes nothing and changes
    /// nothing.
    pub fn take(&mut self, h: Handle) -> (r: Option<T>)
        ensures
            match old(self).spec_get(h) {
                Option::Some(v) => r == Option::Some(v) && final(self).slots@ == old(
                    self,
                ).slots@.update(
                    h.index as int,
                    Slot {
                        generation: old(self).slots@[h.index as int].generation,
                        value: Option::None,
                    },
                ),
                Option::None => r is None && *final(self) == *old(self),
            },
    {
        if h.index < self.slots.len() {
            let generation = self.slots[h.index].generation;
            if generation == h.generation && self.slots[h.index].value.is_some() {
                let mut taken: Option<T> = Option::None;
                let slot = &mut self.slots[h.index];
                core::mem::swap(&mut slot.value, &mut taken);
                proof {
                    assert(final(self).slots@ =~= old(self).slots@.update(
                        h.index as int,
                        Slot {
                            generation: old(self).slots@[h.index as int].generation,
                            value: Option::None,
                        },
                    ));
                }
                return taken;
            }
        }
        Option::None
    }

    /// Puts a value back into the emptied slot its handle names.
    pub fn put(&mut self, h: Handle, value: T)
        requires
            h.index < old(self).slots@.len(),
            old(self).slots@[h.index as int].generation == h.generation,
            old(self).slots@[h.index as int].value is None,
        ensures
            final(self).slots@ == old(self).slots@.update(
                h.index as int,
                Slot { generation: h.generation, value: Option::Some(value) },
            ),
            final(self).spec_get(h) == Option::Some(value),
    {
        let slot = &mut self.slots[h.index];
        slot.value = Option::Some(value);
        proof {
            assert(final(self).slots@ =~= old(self).slots@.update(
                h.index as int,
                Slot { generation: h.generation, value: Option::Some(value) },
            ));
        }
    }

    /// Frees the value a live handle names: the slot empties and its
    /// generation rises, so the handle goes stale. Freeing through an
    /// invalid handle changes nothing.
    pub fn remove(&mut self, h: Handle)
        ensures
            match old(self).spec_get(h) {
                Option::Some(_) => final(self).slots@ == old(self).slots@.update(
                    h.index as int,
                    Slot {
                        generation: crate::context::spec_bump(h.generation),
                        value: Option::None,
                    },
                ),
                Option::None => *final(self) == *old(self),
            },
            final(self).spec_get(h) is None,
    {
        if h.index < self.slots.len() {
            let generation = self.slots[h.index].generation;
            if generation == h.generation && self.slots[h.index].value.is_some() {
                let slot = &mut self.slots[h.index];
                slot.value = Option::None;
                if slot.generation < u64::MAX {
                    slot.generation = slot.generation + 1;
                }
                proof {
                    assert(final(self).slots@ =~= old(self).slots@.update(
                        h.index as int,
                        Slot {
                            generation: crate::context::spec_bump(h.generation),
                            value: Option::None,
                        },
                    ));
                }
            }
        }
    }
}

/// Every object the host can hold a handle to.
#[derive(Debug)]
pub struct Registry {
    pub canvases: Arena<CanvasNative>,
    pub paths: Arena<Path>,
    pub matrices: Arena<Matrix>,
    pub encoders: Arena<TextEncoder>,
    pub decoders: Arena<TextDecoder>,
    pub assets: Arena<NativeImageAsset>,
    pub patterns: Arena<Shader>,
}

impl Registry {
    /// An empty registry.
    pub fn new() -> (r: Registry)
        ensures
            r.canvases.slots@.len() == 0,
            r.paths.slots@.len() == 0,
            r.matrices.slots@.len() == 0,
            r.encoders.slots@.len() == 0,
            r.decoders.slots@.len() == 0,
            r.assets.slots@.len() == 0,
            r.patterns.slots@.len() == 0,
    {
        Registry {
            canvases: Arena::new(),
            paths: Arena::new(),
            matrices: Arena::new(),
            encoders: Arena::new(),
            decoders: Arena::new(),
            assets: Arena::new(),
            patterns: Arena::new(),
        }
    }
}

/// What a path operation is aimed at: a canvas context's current path, or a
/// standalone path object.
#[derive(Clone, Copy, Debug, PartialEq, Eq, Structural)]
pub enum Target {
    Canvas(Handle),
    Path(Handle),
}

/// One arena differs from another only in the slot a live handle names,
/// whose generation is kept and whose value is the given one.
pub open spec fn spec_slot_replaced<T>(o: Arena<T>, n: Arena<T>, h: Handle, value: T) -> bool {
    n.slots@ == o.slots@.update(
        h.index as int,
        Slot { generation: h.generation, value: Option::Some(value) },
    )
}

/// A path-targeted operation rewrote the targeted command list by `f` (and,
/// for a standalone path, kept its fill rule), touching nothing else; an
/// invalid target left the registry unchanged.
pub open spec fn spec_path_target_step(
    o: Registry,
    n: Registry,
    target: Target,
    f: spec_fn(Seq<PathCmd>) -> Seq<PathCmd>,
) -> bool {
    match target {
        Target::Canvas(h) => match o.canvases.spec_get(h) {
            Option::Some(c) => {
                &&& n.paths == o.paths
                &&& n.matrices == o.matrices
                &&& n.encoders == o.encoders
                &&& n.decoders == o.decoders
                &&& n.assets == o.assets
                &&& n.patterns == o.patterns
                &&& n.canvases.spec_get(h) matches Option::Some(c2) && c2@ == (
                crate::context::CanvasModel {
                    fields: crate::context::CanvasStateModel {
                        commands: f(c@.fields.commands),
                        ..c@.fields
                    },
                    ..c@
                }) && spec_slot_replaced(o.canvases, n.canvases, h, c2)
            },
            Option::None => n == o,
        },
        Target::Path(h) => match o.paths.spec_get(h) {
            Option::Some(p) => {
                &&& n.canvases == o.canvases
                &&& n.matrices == o.matrices
                &&& n.encoders == o.encoders
                &&& n.decoders == o.decoders
                &&& n.assets == o.assets
                &&& n.patterns == o.patterns
                &&& n.paths.spec_get(h) matches Option::Some(p2) && p2.commands@ == f(
                    p.commands@,
                ) && p2.fill_rule == p.fill_rule && spec_slot_replaced(o.paths, n.paths, h, p2)
            },
            Option::None => n == o,
        },
    }
}

/// Starts a new subpath of the targeted path at `(x, y)`; a dead or null
/// target is a silent no-op. The same handle comes back either way.
pub fn move_to(reg: &mut Registry, target: Target, x: i64, y: i64) -> (r: Target)
    ensures
        r == target,
        spec_path_target_step(
            *old(reg),
            *final(reg),
            target,
            |cmds: Seq<PathCmd>| cmds.push(PathCmd::MoveTo(Point { x, y })),
        ),
{
    match target {
        Target::Canvas(h) => {
            match reg.canvases.take(h) {
                Option::Some(mut c) => {
                    c.path.move_to(x, y);
                    let ghost c2 = c;
                    reg.canvases.put(h, c);
                    proof {
                        assert(reg.canvases.slots@ =~= old(reg).canvases.slots@.update(
                            h.index as int,
                            Slot { generation: h.generation, value: Option::Some(c2) },
                        ));
                    }
                },
                Option::None => {},
            }
        },
        Target::Path(h) => {
            match reg.paths.take(h) {
                Option::Some(mut p) => {
                    p.move_to(x, y);
                    let ghost p2 = p;
                    reg.paths.put(h, p);
                    proof {
                        assert(reg.paths.slots@ =~= old(reg).paths.slots@.update(
                            h.index as int,
                            Slot { generation: h.generation, value: Option::Some(p2) },
                        ));
                    }
                },
                Option::None => {},
            }
        },
    }
    target
}

/// Extends the targeted path with a straight segment.
pub fn line_to(reg: &mut Registry, target: Target, x: i64, y: i64) -> (r: Target)
    ensures
        r == target,
        spec_path_target_step(
            *old(reg),
            *final(reg),
            target,
            |cmds: Seq<PathCmd>| cmds.push(PathCmd::LineTo(Point { x, y })),
        ),
{
    match target {
        Target::Canvas(h) => {
            match reg.canvases.take(h) {
                Option::Some(mut c) => {
                    c.path.line_to(x, y);
                    let ghost c2 = c;
                    reg.canvases.put(h, c);
                    proof {
                        assert(reg.canvases.slots@ =~= old(reg).canvases.slots@.update(
                            h.index as int,
                            Slot { generation: h.generation, value: Option::Some(c2) },
                        ));
                    }
                },
                Option::None => {},
            }
        },
        Target::Path(h) => {
            match reg.paths.take(h) {
                Option::Some(mut p) => {
                    p.line_to(x, y);
                    let ghost p2 = p;
                    reg.paths.put(h, p);
                    proof {
                        assert(reg.paths.slots@ =~= old(reg).paths.slots@.update(
                            h.index as int,
                            Slot { generation: h.generation, value: Option::Some(p2) },
                        ));
                    }
                },
                Option::None => {},
            }
        },
    }
    target
}

/// Extends the targeted path with a cubic curve.
pub fn bezier_curve_to(
    reg: &mut Registry,
    target: Target,
    cp1x: i64,
    cp1y: i64,
    cp2x: i64,
    cp2y: i64,
    x: i64,
    y: i64,
) -> (r: Target)
    ensures
        r == target,
        spec_path_target_step(
            *old(reg),
            *final(reg),
            target,
            |cmds: Seq<PathCmd>|
                cmds.push(
                    PathCmd::CubicTo(
                        Point { x: cp1x, y: cp1y },
                        Point { x: cp2x, y: cp2y },
                        Point { x, y },
                    ),
                ),
        ),
{
    match target {
        Target::Canvas(h) => {
            match reg.canvases.take(h) {
                Option::Some(mut c) => {
                    c.path.bezier_curve_to(cp1x, cp1y, cp2x, cp2y, x, y);
                    let ghost c2 = c;
                    reg.canvases.put(h, c);
                    proof {
                        assert(reg.canvases.slots@ =~= old(reg).canvases.slots@.update(
                            h.index as int,
                            Slot { generation: h.generation, value: Option::Some(c2) },
                        ));
                    }
                },
                Option::None => {},
            }
        },
        Target::Path(h) => {
            match reg.paths.take(h) {
                Option::Some(mut p) => {
                    p.bezier_curve_to(cp1x, cp1y, cp2x, cp2y, x, y);
                    let ghost p2 = p;
                    reg.paths.put(h, p);
                    proof {
                        assert(reg.paths.slots@ =~= old(reg).paths.slots@.update(
                            h.index as int,
                            Slot { generation: h.generation, value: Option::Some(p2) },
                        ));
                    }
                },
                Option::None => {},
            }
        },
    }
    target
}

/// Extends the targeted path with a quadratic curve.
pub fn quadratic_curve_to(reg: &mut Registry, target: Target, cpx: i64, cpy: i64, x: i64, y: i64) -> (r:
    Target)
    ensures
        r == target,
        spec_path_target_step(
            *old(reg),
            *final(reg),
            target,
            |cmds: Seq<PathCmd>|
                cmds.push(PathCmd::QuadTo(Point { x: cpx, y: cpy }, Point { x, y })),
        ),
{
    match target {
        Target::Canvas(h) => {
            match reg.canvases.take(h) {
                Option::Some(mut c) => {
                    c.path.quadratic_curve_to(cpx, cpy, x, y);
                    let ghost c2 = c;
                    reg.canvases.put(h, c);
                    proof {
                        assert(reg.canvases.slots@ =~= old(reg).canvases.slots@.update(
                            h.index as int,
                            Slot { generation: h.generation, value: Option::Some(c2) },
                        ));
                    }
                },
                Option::None => {},
            }
        },
        Target::Path(h) => {
            match reg.paths.take(h) {
                Option::Some(mut p) => {
                    p.quadratic_curve_to(cpx, cpy, x, y);
                    let ghost p2 = p;
                    reg.paths.put(h, p);
                    proof {
                        assert(reg.paths.slots@ =~= old(reg).paths.slots@.update(
                            h.index as int,
                            Slot { generation: h.generation, value: Option::Some(p2) },
                        ));
                    }
                },
                Option::None => {},
            }
        },
    }
    target
}

/// Extends the targeted path with a tangent-line arc.
pub fn arc_to(
    reg: &mut Registry,
    target: Target,
    x1: i64,
    y1: i64,
    x2: i64,
    y2: i64,
    radius: i64,
) -> (r: Target)
    ensures
        r == target,
        spec_path_target_step(
            *old(reg),
            *final(reg),
            target,
            |cmds: Seq<PathCmd>|
                cmds.push(
                    PathCmd::ArcToTangent(
                        Point { x: x1, y: y1 },
                        Point { x: x2, y: y2 },
                        radius,
                    ),
                ),
        ),
{
    match target {
        Target::Canvas(h) => {
            match reg.canvases.take(h) {
                Option::Some(mut c) => {
                    c.path.arc_to(x1, y1, x2, y2, radius);
                    let ghost c2 = c;
                    reg.canvases.put(h, c);
                    proof {
                        assert(reg.canvases.slots@ =~= old(reg).canvases.slots@.update(
                            h.index as int,
                            Slot { generation: h.generation, value: Option::Some(c2) },
                        ));
                    }
                },
                Option::None => {},
            }
        },
        Target::Path(h) => {
            match reg.paths.take(h) {
                Option::Some(mut p) => {
                    p.arc_to(x1, y1, x2, y2, radius);
                    let ghost p2 = p;
                    reg.paths.put(h, p);
                    proof {
                        assert(reg.paths.slots@ =~= old(reg).paths.slots@.update(
                            h.index as int,
                            Slot { generation: h.generation, value: Option::Some(p2) },
                        ));
                    }
                },
                Option::None => {},
            }
        },
    }
    target
}

/// Closes the targeted path's active subpath; empty paths stay empty.
pub fn close_path(reg: &mut Registry, target: Target) -> (r: Target)
    ensures
        r == target,
        spec_path_target_step(
            *old(reg),
            *final(reg),
            target,
            |cmds: Seq<PathCmd>|
                if cmds.len() == 0 {
                    cmds
                } else {
                    cmds.push(PathCmd::Close)
                },
        ),
{
    match target {
        Target::Canvas(h) => {
            match reg.canvases.take(h) {
                Option::Some(mut c) => {
                    c.path.close_path();
                    let ghost c2 = c;
                    reg.canvases.put(h, c);
                    proof {
                        assert(reg.canvases.slots@ =~= old(reg).canvases.slots@.update(
                            h.index as int,
                            Slot { generation: h.generation, value: Option::Some(c2) },
                        ));
                    }
                },
                Option::None => {},
            }
        },
        Target::Path(h) => {
            match reg.paths.take(h) {
                Option::Some(mut p) => {
                    p.close_path();
                    let ghost p2 = p;
                    reg.paths.put(h, p);
                    proof {
                        assert(reg.paths.slots@ =~= old(reg).paths.slots@.update(
                            h.index as int,
                            Slot { generation: h.generation, value: Option::Some(p2) },
                        ));
                    }
                },
                Option::None => {},
            }
        },
    }
    target
}

/// Appends a closed rectangular subpath to the targeted path.
pub fn rect(reg: &mut Registry, target: Target, x: i64, y: i64, width: i64, height: i64) -> (r:
    Target)
    requires
        scalar_in_range(x as int),
        scalar_in_range(y as int),
        scalar_in_range(width as int),
        scalar_in_range(height as int),
    ensures
        r == target,
        spec_path_target_step(
            *old(reg),
            *final(reg),
            target,
            |cmds: Seq<PathCmd>|
                cmds.push(
                    PathCmd::AddRect(
                        crate::geometry::spec_rect_xywh(
                            x as int,
                            y as int,
                            width as int,
                            height as int,
                        ),
                    ),
                ),
        ),
{
    match target {
        Target::Canvas(h) => {
            match reg.canvases.take(h) {
                Option::Some(mut c) => {
                    c.path.rect(x, y, width, height);
                    let ghost c2 = c;
                    reg.canvases.put(h, c);
                    proof {
                        assert(reg.canvases.slots@ =~= old(reg).canvases.slots@.update(
                            h.index as int,
                            Slot { generation: h.generation, value: Option::Some(c2) },
                        ));
                    }
                },
                Option::None => {},
            }
        },
        Target::Path(h) => {
            match reg.paths.take(h) {
                Option::Some(mut p) => {
                    p.rect(x, y, width, height);
                    let ghost p2 = p;
                    reg.paths.put(h, p);
                    proof {
                        assert(reg.paths.slots@ =~= old(reg).paths.slots@.update(
                            h.index as int,
                            Slot { generation: h.generation, value: Option::Some(p2) },
                        ));
                    }
                },
                Option::None => {},
            }
        },
    }
    target
}

/// Appends a circular arc to the targeted path, normalizing the end angle.
pub fn arc(
    reg: &mut Registry,
    target: Target,
    x: i64,
    y: i64,
    radius: i64,
    start_angle: i64,
    end_angle: i64,
    anticlockwise: bool,
) -> (r: Target)
    requires
        scalar_in_range(x as int),
        scalar_in_range(y as int),
        scalar_in_range(radius as int),
        -SCALAR_LIMIT <= start_angle <= SCALAR_LIMIT,
        -SCALAR_LIMIT <= end_angle <= SCALAR_LIMIT,
    ensures
        r == target,
        spec_path_target_step(
            *old(reg),
            *final(reg),
            target,
            |cmds: Seq<PathCmd>|
                cmds + crate::path::spec_arc_cmds(
                    x as int,
                    y as int,
                    radius as int,
                    start_angle as int,
                    end_angle as int,
                    anticlockwise,
                ),
        ),
{
    match target {
        Target::Canvas(h) => {
            match reg.canvases.take(h) {
                Option::Some(mut c) => {
                    c.path.arc(x, y, radius, start_angle, end_angle, anticlockwise);
                    let ghost c2 = c;
                    reg.canvases.put(h, c);
                    proof {
                        assert(reg.canvases.slots@ =~= old(reg).canvases.slots@.update(
                            h.index as int,
                            Slot { generation: h.generation, value: Option::Some(c2) },
                        ));
                    }
                },
                Option::None => {},
            }
        },
        Target::Path(h) => {
            match reg.paths.take(h) {
                Option::Some(mut p) => {
                    p.arc(x, y, radius, start_angle, end_angle, anticlockwise);
                    let ghost p2 = p;
                    reg.paths.put(h, p);
                    proof {
                        assert(reg.paths.slots@ =~= old(reg).paths.slots@.update(
                            h.index as int,
                            Slot { generation: h.generation, value: Option::Some(p2) },
                        ));
                    }
                },
                Option::None => {},
            }
        },
    }
    target
}

/// Appends an ellipse to the targeted path, normalizing the end angle and
/// reducing a rotated ellipse to the unrotated renderer.
pub fn ellipse(
    reg: &mut Registry,
    target: Target,
    x: i64,
    y: i64,
    radius_x: i64,
    radius_y: i64,
    rotation: i64,
    start_angle: i64,
    end_angle: i64,
    anticlockwise: bool,
) -> (r: Target)
    requires
        scalar_in_range(x as int),
        scalar_in_range(y as int),
        scalar_in_range(radius_x as int),
        scalar_in_range(radius_y as int),
        -SCALAR_LIMIT <= start_angle <= SCALAR_LIMIT,
        -SCALAR_LIMIT <= end_angle <= SCALAR_LIMIT,
    ensures
        r == target,
        spec_path_target_step(
            *old(reg),
            *final(reg),
            target,
            |cmds: Seq<PathCmd>|
                cmds + crate::path::spec_ellipse_cmds(
                    x as int,
                    y as int,
                    radius_x as int,
                    radius_y as int,
                    rotation as int,
                    start_angle as int,
                    end_angle as int,
                    anticlockwise,
                ),
        ),
{
    match target {
        Target::Canvas(h) => {
            match reg.canvases.take(h) {
                Option::Some(mut c) => {
                    c.path.ellipse(
                        x,
                        y,
                        radius_x,
                        radius_y,
                        rotation,
                        start_angle,
                        end_angle,
                        anticlockwise,
                    );
                    let ghost c2 = c;
                    reg.canvases.put(h, c);
                    proof {
                        assert(reg.canvases.slots@ =~= old(reg).canvases.slots@.update(
                            h.index as int,
                            Slot { generation: h.generation, value: Option::Some(c2) },
                        ));
                    }
                },
                Option::None => {},
            }
        },
        Target::Path(h) => {
            match reg.paths.take(h) {
                Option::Some(mut p) => {
                    p.ellipse(
                        x,
                        y,
                        radius_x,
                        radius_y,
                        rotation,
                        start_angle,
                        end_angle,
                        anticlockwise,
                    );
                    let ghost p2 = p;
                    reg.paths.put(h, p);
                    proof {
                        assert(reg.paths.slots@ =~= old(reg).paths.slots@.update(
                            h.index as int,
                            Slot { generation: h.generation, value: Option::Some(p2) },
                        ));
                    }
                },
                Option::None => {},
            }
        },
    }
    target
}

/// Creates a canvas context over a fresh surface and returns its handle.
pub fn create_canvas(reg: &mut Registry, width: i32, height: i32, device_scale: i64) -> (h:
    Handle)
    ensures
        final(reg).canvases.spec_get(h) matches Option::Some(c) && c@.fields
            == crate::context::spec_initial_fields(device_scale) && c@.surface.width == width
            && c@.surface.height == height && c@.state.len() == 0 && c@.surface.ops.len() == 0,
        *final(reg) == (Registry { canvases: final(reg).canvases, ..*old(reg) }),
{
    let c = CanvasNative::new(width, height, device_scale);
    reg.canvases.insert(c)
}

/// Destroys a canvas context; an invalid handle does nothing.
pub fn destroy_canvas(reg: &mut Registry, h: Handle)
    ensures
        final(reg).canvases.spec_get(h) is None,
        *final(reg) == (Registry { canvases: final(reg).canvases, ..*old(reg) }),
{
    reg.canvases.remove(h);
}

/// Creates an empty standalone path and returns its handle.
pub fn create_path_2d(reg: &mut Registry) -> (h: Handle)
    ensures
        final(reg).paths.spec_get(h) matches Option::Some(p) && p.commands@.len() == 0
            && p.fill_rule == crate::path::FillRule::NonZero,
        *final(reg) == (Registry { paths: final(reg).paths, ..*old(reg) }),
{
    reg.paths.insert(Path::new())
}

/// Creates a deep copy of the path a handle names and returns the copy's
/// handle; an invalid handle yields the null handle.
pub fn create_path_from_path(reg: &mut Registry, h: Handle) -> (r: Handle)
    ensures
        match old(reg).paths.spec_get(h) {
            Option::Some(p) => final(reg).paths.spec_get(r) matches Option::Some(p2)
                && p2.commands@ == p.commands@ && p2.fill_rule == p.fill_rule,
            Option::None => r == (Handle { index: 0, generation: 0 }) && *final(reg) == *old(reg),
        },
        *final(reg) == (Registry { paths: final(reg).paths, ..*old(reg) }),
{
    match reg.paths.take(h) {
        Option::Some(p) => {
            let copy = Path {
                commands: crate::veclib::copy_vec(&p.commands),
                fill_rule: p.fill_rule,
            };
            reg.paths.put(h, p);
            reg.paths.insert(copy)
        },
        Option::None => null_handle(),
    }
}

/// Frees a standalone path; an invalid handle does nothing.
pub fn free_path_2d(reg: &mut Registry, h: Handle)
    ensures
        final(reg).paths.spec_get(h) is None,
        *final(reg) == (Registry { paths: final(reg).paths, ..*old(reg) }),
{
    reg.paths.remove(h);
}

/// Appends the commands of one standalone path to another; the operation
/// does nothing unless both handles are live. Both handles stay live.
pub fn add_path_to_path(reg: &mut Registry, path: Handle, path_to_add: Handle) -> (r: Handle)
    ensures
        r == path,
        *final(reg) == (Registry { paths: final(reg).paths, ..*old(reg) }),
        match (old(reg).paths.spec_get(path), old(reg).paths.spec_get(path_to_add)) {
            (Option::Some(p), Option::Some(q)) => if path != path_to_add {
                final(reg).paths.spec_get(path) matches Option::Some(p2) && p2.commands@
                    == p.commands@ + q.commands@ && p2.fill_rule == p.fill_rule
                    && final(reg).paths.spec_get(path_to_add) == old(reg).paths.spec_get(
                    path_to_add,
                ) && final(reg).paths.slots@ == old(reg).paths.slots@.update(
                    path.index as int,
                    Slot { generation: path.generation, value: final(reg).paths.spec_get(path) },
                )
            } else {
                final(reg).paths.slots@ == old(reg).paths.slots@
            },
            _ => final(reg).paths.slots@ == old(reg).paths.slots@,
        },
{
    if path == path_to_add {
        return path;
    }
    match reg.paths.take(path_to_add) {
        Option::Some(q) => {
            match reg.paths.take(path) {
                Option::Some(mut p) => {
                    p.append_path(&q);
                    let ghost p2 = p;
                    reg.paths.put(path, p);
                    reg.paths.put(path_to_add, q);
                    proof {
                        assert(reg.paths.slots@ =~= old(reg).paths.slots@.update(
                            path.index as int,
                            Slot { generation: path.generation, value: Option::Some(p2) },
                        ));
                        assert(reg.paths.spec_get(path_to_add) == old(reg).paths.spec_get(
                            path_to_add,
                        ));
                    }
                },
                Option::None => {
                    reg.paths.put(path_to_add, q);
                    proof {
                        assert(reg.paths.slots@ =~= old(reg).paths.slots@);
                    }
                },
            }
        },
        Option::None => {},
    }
    path
}

/// Creates an identity matrix object and returns its handle.
pub fn create_matrix(reg: &mut Registry) -> (h: Handle)
    ensures
        final(reg).matrices.spec_get(h) == Option::Some(crate::geometry::spec_matrix_identity()),
        *final(reg) == (Registry { matrices: final(reg).matrices, ..*old(reg) }),
{
    reg.matrices.insert(Matrix::identity())
}

/// Replaces a matrix object from six affine entries; invalid handles and
/// short entry lists do nothing.
pub fn set_matrix(reg: &mut Registry, h: Handle, values: &[i64]) -> (r: Handle)
    ensures
        r == h,
        *final(reg) == (Registry { matrices: final(reg).matrices, ..*old(reg) }),
        match old(reg).matrices.spec_get(h) {
            Option::Some(_) => if values@.len() == 6 {
                final(reg).matrices.spec_get(h) == Option::Some(
                    crate::geometry::spec_matrix_affine(values@),
                )
            } else {
                final(reg).matrices == old(reg).matrices
            },
            Option::None => final(reg).matrices == old(reg).matrices,
        },
{
    if values.len() == 6 {
        match reg.matrices.take(h) {
            Option::Some(_) => {
                reg.matrices.put(h, Matrix::from_affine(values));
            },
            Option::None => {},
        }
    }
    proof {
        if values@.len() == 6 && old(reg).matrices.spec_get(h) is None {
            assert(final(reg).matrices =~~= old(reg).matrices);
        }
    }
    h
}

/// The six affine entries of the matrix a handle names; an invalid handle
/// reads as the identity.
pub fn get_matrix(reg: &Registry, h: Handle) -> (r: Vec<i64>)
    ensures
        match reg.matrices.spec_get(h) {
            Option::Some(m) => r@ =~= seq![m.a, m.b, m.c, m.d, m.e, m.f],
            Option::None => r@ =~= seq![
                crate::geometry::FIXED_SCALE,
                0i64,
                0i64,
                crate::geometry::FIXED_SCALE,
                0i64,
                0i64,
            ],
        },
{
    if h.index < reg.matrices.slots.len() {
        let slot = &reg.matrices.slots[h.index];
        if slot.generation == h.generation {
            match &slot.value {
                Option::Some(m) => {
                    return m.to_affine();
                },
                Option::None => {},
            }
        }
    }
    let identity = Matrix::identity();
    let r = identity.to_affine();
    proof {
        assert(r@ =~= seq![
            crate::geometry::FIXED_SCALE,
            0i64,
            0i64,
            crate::geometry::FIXED_SCALE,
            0i64,
            0i64,
        ]);
    }
    r
}

/// Frees a matrix object; an invalid handle does nothing.
pub fn free_matrix(reg: &mut Registry, h: Handle)
    ensures
        final(reg).matrices.spec_get(h) is None,
        *final(reg) == (Registry { matrices: final(reg).matrices, ..*old(reg) }),
{
    reg.matrices.remove(h);
}

/// Creates an empty image asset and returns its handle.
pub fn create_image_asset(reg: &mut Registry) -> (h: Handle)
    ensures
        final(reg).assets.spec_get(h) matches Option::Some(a) && a@ == (
        crate::image_asset::AssetModel { has_image: false, error: Option::None }),
        *final(reg) == (Registry { assets: final(reg).assets, ..*old(reg) }),
{
    reg.assets.insert(NativeImageAsset::new())
}

/// Frees an image asset; an invalid handle does nothing.
pub fn image_asset_release(reg: &mut Registry, h: Handle)
    ensures
        final(reg).assets.spec_get(h) is None,
        *final(reg) == (Registry { assets: final(reg).assets, ..*old(reg) }),
{
    reg.assets.remove(h);
}

/// Creates a text encoder for a label and returns its handle.
pub fn create_text_encoder(reg: &mut Registry, encoding: &str) -> (h: Handle)
    ensures
        final(reg).encoders.spec_get(h) matches Option::Some(e) && e@
            == crate::codec::canonical_name_of(encoding@),
        *final(reg) == (Registry { encoders: final(reg).encoders, ..*old(reg) }),
{
    reg.encoders.insert(TextEncoder::new(encoding))
}

/// Creates a text decoder for a label and returns its handle.
pub fn create_text_decoder(reg: &mut Registry, decoding: &str) -> (h: Handle)
    ensures
        final(reg).decoders.spec_get(h) matches Option::Some(d) && d@
            == crate::codec::canonical_name_of(decoding@),
        *final(reg) == (Registry { decoders: final(reg).decoders, ..*old(reg) }),
{
    reg.decoders.insert(TextDecoder::new(decoding))
}

/// The canonical encoding name of the encoder a handle names.
pub fn text_encoder_get_encoding(reg: &Registry, h: Handle) -> (r: Option<String>)
    ensures
        match reg.encoders.spec_get(h) {
            Option::Some(e) => r matches Option::Some(name) && name@ == e@,
            Option::None => r is None,
        },
{
    if h.index < reg.encoders.slots.len() {
        let slot = &reg.encoders.slots[h.index];
        if slot.generation == h.generation {
            match &slot.value {
                Option::Some(e) => {
                    return Option::Some(e.encoding());
                },
                Option::None => {},
            }
        }
    }
    Option::None
}

/// Encodes text with the encoder a handle names. An invalid handle, like
/// text beyond the codec's input cap, yields an empty buffer.
pub fn text_encoder_encode(reg: &Registry, h: Handle, text: &str) -> (r: Vec<u8>)
    ensures
        match reg.encoders.spec_get(h) {
            Option::Some(e) => if text.spec_bytes().len() <= CODEC_INPUT_LIMIT {
                r@ == crate::codec::encoded_bytes_of(e@, text@)
            } else {
                r@.len() == 0
            },
            Option::None => r@.len() == 0,
        },
{
    if h.index < reg.encoders.slots.len() {
        let slot = &reg.encoders.slots[h.index];
        if slot.generation == h.generation {
            match &slot.value {
                Option::Some(e) => {
                    let bytes = text.as_bytes();
                    if (bytes.len() as u64) <= CODEC_INPUT_LIMIT {
                        return e.encode(text);
                    } else {
                        return Vec::new();
                    }
                },
                Option::None => {},
            }
        }
    }
    Vec::new()
}

/// The canonical encoding name of the decoder a handle names.
pub fn text_decoder_get_encoding(reg: &Registry, h: Handle) -> (r: Option<String>)
    ensures
        match reg.decoders.spec_get(h) {
            Option::Some(d) => r matches Option::Some(name) && name@ == d@,
            Option::None => r is None,
        },
{
    if h.index < reg.decoders.slots.len() {
        let slot = &reg.decoders.slots[h.index];
        if slot.generation == h.generation {
            match &slot.value {
                Option::Some(d) => {
                    return Option::Some(d.encoding());
                },
                Option::None => {},
            }
        }
    }
    Option::None
}

/// Decodes bytes with the decoder a handle names. An invalid handle, like
/// data beyond the codec's input cap, yields the empty string.
pub fn text_decoder_decode(reg: &Registry, h: Handle, data: &[u8]) -> (r: String)
    ensures
        match reg.decoders.spec_get(h) {
            Option::Some(d) => if data@.len() <= CODEC_INPUT_LIMIT {
                r@ == crate::codec::decoded_text_of(d@, data@)
            } else {
                r@.len() == 0
            },
            Option::None => r@.len() == 0,
        },
{
    if h.index < reg.decoders.slots.len() {
        let slot = &reg.decoders.slots[h.index];
        if slot.generation == h.generation {
            match &slot.value {
                Option::Some(d) => {
                    if (data.len() as u64) <= CODEC_INPUT_LIMIT {
                        return d.decode(data);
                    } else {
                        return String::new();
                    }
                },
                Option::None => {},
            }
        }
    }
    String::new()
}

/// Creates a pattern shader from raw RGBA pixels and returns its handle.
pub fn create_pattern(
    reg: &mut Registry,
    width: u32,
    height: u32,
    pixels: Vec<u8>,
    repetition: &str,
) -> (h: Handle)
    ensures
        final(reg).patterns.spec_get(h) matches Option::Some(s) && s@ == (
        crate::paint::ShaderModel::Pattern {
            width,
            height,
            pixels: pixels@,
            repetition: crate::paint::spec_repetition_of(repetition@),
            matrix: Option::None,
        }),
        *final(reg) == (Registry { patterns: final(reg).patterns, ..*old(reg) }),
{
    reg.patterns.insert(Shader::new_pattern(width, height, pixels, repetition))
}

/// Creates a pattern shader by decoding encoded image bytes; undecodable
/// bytes yield the null handle and change nothing.
pub fn create_pattern_encoded(reg: &mut Registry, bytes: &[u8], repetition: &str) -> (h: Handle)
    ensures
        *final(reg) == (Registry { patterns: final(reg).patterns, ..*old(reg) }),
        crate::image_asset::image_decodes(bytes@) ==> (final(reg).patterns.spec_get(h)
            matches Option::Some(s) && s@ == (crate::paint::ShaderModel::Pattern {
            width: crate::image_asset::decoded_width_of(bytes@),
            height: crate::image_asset::decoded_height_of(bytes@),
            pixels: crate::image_asset::decoded_rgba_of(bytes@),
            repetition: crate::paint::spec_repetition_of(repetition@),
            matrix: Option::None,
        })),
        !crate::image_asset::image_decodes(bytes@) ==> h == (Handle { index: 0, generation: 0 })
            && *final(reg) == *old(reg),
{
    match crate::image_asset::decode_rgba(bytes) {
        Option::Some((w, hh, pixels)) => reg.patterns.insert(
            Shader::new_pattern(w, hh, pixels, repetition),
        ),
        Option::None => null_handle(),
    }
}

/// Frees a pattern shader; an invalid handle does nothing.
pub fn free_pattern(reg: &mut Registry, h: Handle)
    ensures
        final(reg).patterns.spec_get(h) is None,
        *final(reg) == (Registry { patterns: final(reg).patterns, ..*old(reg) }),
{
    reg.patterns.remove(h);
}

/// Installs the transform of a matrix object on a pattern; an invalid
/// matrix handle reads as the identity, an invalid pattern handle does
/// nothing.
pub fn set_pattern_transform(reg: &mut Registry, pattern: Handle, matrix: Handle) -> (r: Handle)
    ensures
        r == pattern,
        *final(reg) == (Registry { patterns: final(reg).patterns, ..*old(reg) }),
        match old(reg).patterns.spec_get(pattern) {
            Option::Some(s) => final(reg).patterns.spec_get(pattern) matches Option::Some(s2)
                && s2@ == (match s@ {
                crate::paint::ShaderModel::Pattern {
                    width,
                    height,
                    pixels,
                    repetition,
                    matrix: m0,
                } => (crate::paint::ShaderModel::Pattern {
                    width,
                    height,
                    pixels,
                    repetition,
                    matrix: Option::Some(
                        match old(reg).matrices.spec_get(matrix) {
                            Option::Some(m) => m,
                            Option::None => crate::geometry::spec_matrix_identity(),
                        },
                    ),
                }),
                other => other,
            }) && final(reg).patterns.slots@ == old(reg).patterns.slots@.update(
                pattern.index as int,
                Slot { generation: pattern.generation, value: Option::Some(s2) },
            ),
            Option::None => final(reg).patterns.slots@ == old(reg).patterns.slots@,
        },
{
    let m = Matrix::from_affine(get_matrix(reg, matrix).as_slice());
    match reg.patterns.take(pattern) {
        Option::Some(mut s) => {
            s.set_pattern_transform(m);
            let ghost s2 = s;
            reg.patterns.put(pattern, s);
            proof {
                assert(reg.patterns.slots@ =~= old(reg).patterns.slots@.update(
                    pattern.index as int,
                    Slot { generation: pattern.generation, value: Option::Some(s2) },
                ));
            }
        },
        Option::None => {},
    }
    pattern
}

/// Attaches a copy of the pattern a handle names to a canvas's fill paint.
pub fn set_fill_pattern(reg: &mut Registry, canvas: Handle, pattern: Handle) -> (r: Handle)
    ensures
        r == canvas,
        *final(reg) == (Registry {
            canvases: final(reg).canvases,
            patterns: final(reg).patterns,
            ..*old(reg)
        }),
{
    set_pattern_on(reg, canvas, pattern, false);
    canvas
}

/// Attaches a copy of the pattern a handle names to a canvas's stroke
/// paint.
pub fn set_stroke_pattern(reg: &mut Registry, canvas: Handle, pattern: Handle) -> (r: Handle)
    ensures
        r == canvas,
        *final(reg) == (Registry {
            canvases: final(reg).canvases,
            patterns: final(reg).patterns,
            ..*old(reg)
        }),
{
    set_pattern_on(reg, canvas, pattern, true);
    canvas
}

/// Shared body of the two pattern attachments: both handles must be live,
/// the canvas paint's shader is replaced by a copy of the pattern, the path
/// and everything else stay; any dead handle makes the call a no-op.
fn set_pattern_on(reg: &mut Registry, canvas: Handle, pattern: Handle, is_stroke: bool)
    ensures
        *final(reg) == (Registry {
            canvases: final(reg).canvases,
            patterns: final(reg).patterns,
            ..*old(reg)
        }),
        match (old(reg).canvases.spec_get(canvas), old(reg).patterns.spec_get(pattern)) {
            (Option::Some(c), Option::Some(s)) => {
                &&& final(reg).patterns.spec_get(pattern) == old(reg).patterns.spec_get(pattern)
                &&& final(reg).canvases.spec_get(canvas) matches Option::Some(c2) && c2@ == (
                crate::context::CanvasModel {
                    fields: crate::context::spec_with_shader(c@.fields, s@, is_stroke),
                    ..c@
                })
            },
            _ => final(reg).canvases.slots@ == old(reg).canvases.slots@
                && final(reg).patterns.slots@ == old(reg).patterns.slots@,
        },
{
    match reg.canvases.take(canvas) {
        Option::Some(mut c) => {
            match reg.patterns.take(pattern) {
                Option::Some(s) => {
                    c.set_pattern(&s, is_stroke);
                    reg.patterns.put(pattern, s);
                    proof {
                        assert(reg.patterns.slots@ =~= old(reg).patterns.slots@);
                    }
                },
                Option::None => {},
            }
            reg.canvases.put(canvas, c);
        },
        Option::None => {},
    }
}

/// Frees the text encoder a handle names; an invalid handle does nothing.
pub fn free_text_encoder(reg: &mut Registry, h: Handle)
    ensures
        final(reg).encoders.spec_get(h) is None,
        *final(reg) == (Registry { encoders: final(reg).encoders, ..*old(reg) }),
{
    reg.encoders.remove(h);
}

/// Frees the text decoder a handle names; an invalid handle does nothing.
pub fn free_text_decoder(reg: &mut Registry, h: Handle)
    ensures
        final(reg).decoders.spec_get(h) is None,
        *final(reg) == (Registry { decoders: final(reg).decoders, ..*old(reg) }),
{
    reg.decoders.remove(h);
}

} // verus!
