//! Geometry primitives.
//!
//! Every scalar in this crate is a fixed-point number: an `i64` counting
//! ten-thousandths of a unit. A unit is one CSS pixel for coordinates and
//! lengths, and one radian for angles. The backend's arc primitive works on
//! a three-decimal grid, so four decimal places keep every rounding step of
//! the angle algorithm exact.

use vstd::prelude::*;

verus! {

/// Number of fixed-point steps per unit.
pub const FIXED_SCALE: i64 = 10000;

/// Pi radians in fixed-point steps.
pub const PI_FIXED: i64 = 31416;

/// Two pi radians in fixed-point steps.
pub const TWO_PI_FIXED: i64 = 62832;

/// Magnitude bound on scalars accepted by operations that add or subtract
/// coordinates; it keeps all intermediate `i64` arithmetic free of overflow
/// while allowing canvases billions of pixels wide.
pub const SCALAR_LIMIT: i64 = 0x4000_0000_0000;

/// The scalar `v` is small enough for sums and differences of two scalars
/// (plus a full turn of angle slack) to fit in an `i64`.
pub open spec fn scalar_in_range(v: int) -> bool {
    -SCALAR_LIMIT <= v <= SCALAR_LIMIT
}

/// A point in the drawing plane.
#[derive(Clone, Copy, Debug, PartialEq, Eq, Structural)]
pub struct Point {
    pub x: i64,
    pub y: i64,
}

impl Point {
    pub fn new(x: i64, y: i64) -> (r: Point)
        ensures
            r == (Point { x, y }),
    {
        Point { x, y }
    }
}

/// An axis-aligned rectangle given by its edges.
#[derive(Clone, Copy, Debug, PartialEq, Eq, Structural)]
pub struct Rect {
    pub left: i64,
    pub top: i64,
    pub right: i64,
    pub bottom: i64,
}

impl Rect {
    pub fn new(left: i64, top: i64, right: i64, bottom: i64) -> (r: Rect)
        ensures
            r == (Rect { left, top, right, bottom }),
    {
        Rect { left, top, right, bottom }
    }

    /// The rectangle with corner `(x, y)`, width `w` and height `h`.
    pub fn from_xywh(x: i64, y: i64, w: i64, h: i64) -> (r: Rect)
        requires
            scalar_in_range(x as int),
            scalar_in_range(y as int),
            scalar_in_range(w as int),
            scalar_in_range(h as int),
        ensures
            r == spec_rect_xywh(x as int, y as int, w as int, h as int),
    {
        Rect { left: x, top: y, right: x + w, bottom: y + h }
    }

    /// The bounding box of an axis-aligned oval centered at `(x, y)` with
    /// radii `rx` and `ry`.
    pub fn oval_bounds(x: i64, y: i64, rx: i64, ry: i64) -> (r: Rect)
        requires
            scalar_in_range(x as int),
            scalar_in_range(y as int),
            scalar_in_range(rx as int),
            scalar_in_range(ry as int),
        ensures
            r == spec_oval_bounds(x as int, y as int, rx as int, ry as int),
    {
        Rect { left: x - rx, top: y - ry, right: x + rx, bottom: y + ry }
    }
}

pub open spec fn spec_rect_xywh(x: int, y: int, w: int, h: int) -> Rect {
    Rect { left: x as i64, top: y as i64, right: (x + w) as i64, bottom: (y + h) as i64 }
}

pub open spec fn spec_oval_bounds(x: int, y: int, rx: int, ry: int) -> Rect {
    Rect { left: (x - rx) as i64, top: (y - ry) as i64, right: (x + rx) as i64, bottom: (y + ry) as i64 }
}

/// A 2D affine transform; row-major `[a c e; b d f]`, so `a` and `d` scale,
/// `b` and `c` skew, and `e` and `f` translate. Entries are fixed-point.
#[derive(Clone, Copy, Debug, PartialEq, Eq, Structural)]
pub struct Matrix {
    pub a: i64,
    pub b: i64,
    pub c: i64,
    pub d: i64,
    pub e: i64,
    pub f: i64,
}

impl Matrix {
    /// The identity transform.
    pub fn identity() -> (r: Matrix)
        ensures
            r == spec_matrix_identity(),
    {
        Matrix { a: FIXED_SCALE, b: 0, c: 0, d: FIXED_SCALE, e: 0, f: 0 }
    }

    /// Builds a transform from the six affine entries in the order
    /// `[a, b, c, d, e, f]`.
    pub fn from_affine(v: &[i64]) -> (r: Matrix)
        requires
            v@.len() == 6,
        ensures
            r == spec_matrix_affine(v@),
    {
        Matrix { a: v[0], b: v[1], c: v[2], d: v[3], e: v[4], f: v[5] }
    }

    /// Returns the six affine entries in the order `[a, b, c, d, e, f]`.
    pub fn to_affine(&self) -> (r: Vec<i64>)
        ensures
            r@ =~= seq![self.a, self.b, self.c, self.d, self.e, self.f],
    {
        let mut r: Vec<i64> = Vec::new();
        r.push(self.a);
        r.push(self.b);
        r.push(self.c);
        r.push(self.d);
        r.push(self.e);
        r.push(self.f);
        r
    }
}

pub open spec fn spec_matrix_identity() -> Matrix {
    Matrix { a: FIXED_SCALE, b: 0, c: 0, d: FIXED_SCALE, e: 0, f: 0 }
}

pub open spec fn spec_matrix_affine(v: Seq<i64>) -> Matrix {
    Matrix { a: v[0], b: v[1], c: v[2], d: v[3], e: v[4], f: v[5] }
}

} // verus!
