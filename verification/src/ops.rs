//! The surface and its operation log. The core never rasterizes; every draw
//! call becomes one or more backend operations appended to the owning
//! surface's log, which the host drains at a flush and feeds to the real
//! rendering backend. The log carries value snapshots: the paint and path a
//! draw used are copied into the operation, so later state changes cannot
//! rewrite history.

use vstd::prelude::*;

use crate::font::{FontDescriptor, FontModel};
use crate::geometry::{Matrix, Point, Rect};
use crate::paint::{Paint, PaintModel};
use crate::path::{FillRule, PathCmd};

verus! {

/// Where text is anchored horizontally.
#[derive(Clone, Copy, Debug, PartialEq, Eq, Structural)]
pub enum TextAlign {
    Left,
    Center,
    Right,
}

/// One backend operation.
#[derive(Debug)]
pub enum DrawOp {
    Save,
    RestoreToCount(u64),
    DrawPath { commands: Vec<PathCmd>, fill_rule: FillRule, paint: Paint },
    DrawRect { rect: Rect, paint: Paint },
    ClipPath { commands: Vec<PathCmd>, fill_rule: FillRule },
    SetMatrix(Matrix),
    ResetMatrix,
    Scale { x: i64, y: i64 },
    Rotate { radians: i64 },
    Translate { x: i64, y: i64 },
    Clear { color: u32 },
    DrawImage {
        width: i32,
        height: i32,
        pixels: Vec<u8>,
        src: Option<Rect>,
        dst_point: Option<Point>,
        dst_rect: Option<Rect>,
        paint: Paint,
    },
    WritePixels { width: i32, height: i32, pixels: Vec<u8>, x: i32, y: i32 },
    DrawText {
        text: String,
        x: i64,
        y: i64,
        font: FontDescriptor,
        paint: Paint,
        align: TextAlign,
    },
}

/// Ghost value of a backend operation.
#[verifier::ext_equal]
pub ghost enum OpModel {
    Save,
    RestoreToCount(u64),
    DrawPath { commands: Seq<PathCmd>, fill_rule: FillRule, paint: PaintModel },
    DrawRect { rect: Rect, paint: PaintModel },
    ClipPath { commands: Seq<PathCmd>, fill_rule: FillRule },
    SetMatrix(Matrix),
    ResetMatrix,
    Scale { x: i64, y: i64 },
    Rotate { radians: i64 },
    Translate { x: i64, y: i64 },
    Clear { color: u32 },
    DrawImage {
        width: i32,
        height: i32,
        pixels: Seq<u8>,
        src: Option<Rect>,
        dst_point: Option<Point>,
        dst_rect: Option<Rect>,
        paint: PaintModel,
    },
    WritePixels { width: i32, height: i32, pixels: Seq<u8>, x: i32, y: i32 },
    DrawText {
        text: Seq<char>,
        x: i64,
        y: i64,
        font: FontModel,
        paint: PaintModel,
        align: TextAlign,
    },
}

impl View for DrawOp {
    type V = OpModel;

    open spec fn view(&self) -> OpModel {
        match self {
            DrawOp::Save => OpModel::Save,
            DrawOp::RestoreToCount(c) => OpModel::RestoreToCount(*c),
            DrawOp::DrawPath { commands, fill_rule, paint } => {
                OpModel::DrawPath { commands: commands@, fill_rule: *fill_rule, paint: paint@ }
            },
            DrawOp::DrawRect { rect, paint } => {
                OpModel::DrawRect { rect: *rect, paint: paint@ }
            },
            DrawOp::ClipPath { commands, fill_rule } => {
                OpModel::ClipPath { commands: commands@, fill_rule: *fill_rule }
            },
            DrawOp::SetMatrix(m) => OpModel::SetMatrix(*m),
            DrawOp::ResetMatrix => OpModel::ResetMatrix,
            DrawOp::Scale { x, y } => OpModel::Scale { x: *x, y: *y },
            DrawOp::Rotate { radians } => OpModel::Rotate { radians: *radians },
            DrawOp::Translate { x, y } => OpModel::Translate { x: *x, y: *y },
            DrawOp::Clear { color } => OpModel::Clear { color: *color },
            DrawOp::DrawImage { width, height, pixels, src, dst_point, dst_rect, paint } => {
                OpModel::DrawImage {
                    width: *width,
                    height: *height,
                    pixels: pixels@,
                    src: *src,
                    dst_point: *dst_point,
                    dst_rect: *dst_rect,
                    paint: paint@,
                }
            },
            DrawOp::WritePixels { width, height, pixels, x, y } => {
                OpModel::WritePixels {
                    width: *width,
                    height: *height,
                    pixels: pixels@,
                    x: *x,
                    y: *y,
                }
            },
            DrawOp::DrawText { text, x, y, font, paint, align } => {
                OpModel::DrawText {
                    text: text@,
                    x: *x,
                    y: *y,
                    font: font@,
                    paint: paint@,
                    align: *align,
                }
            },
        }
    }
}

/// A rendering surface as the core sees it: its geometry, the backend's
/// save-count, and the pending operation log.
#[derive(Debug)]
pub struct Surface {
    pub width: i32,
    pub height: i32,
    pub scale: i64,
    pub save_count: u64,
    pub ops: Vec<DrawOp>,
}

/// Ghost value of a surface.
#[verifier::ext_equal]
pub ghost struct SurfaceModel {
    pub width: i32,
    pub height: i32,
    pub scale: i64,
    pub save_count: u64,
    pub ops: Seq<OpModel>,
}

impl View for Surface {
    type V = SurfaceModel;

    open spec fn view(&self) -> SurfaceModel {
        SurfaceModel {
            width: self.width,
            height: self.height,
            scale: self.scale,
            save_count: self.save_count,
            ops: Seq::new(self.ops@.len(), |i: int| self.ops@[i]@),
        }
    }
}

impl Surface {
    /// A fresh surface with an empty log; the backend's save-count starts at
    /// one, the depth of the root state.
    pub fn new(width: i32, height: i32, scale: i64) -> (r: Surface)
        ensures
            r@.width == width,
            r@.height == height,
            r@.scale == scale,
            r@.save_count == 1,
            r@.ops =~= Seq::<OpModel>::empty(),
    {
        Surface { width, height, scale, save_count: 1, ops: Vec::new() }
    }
}

} // verus!
