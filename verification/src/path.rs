//! The path object: an ordered sequence of subpath commands plus a fill-rule
//! tag. Paths exist standalone or as the current path of a canvas context;
//! both share these mutators. Angles and coordinates are fixed-point (see
//! `geometry`).

use vstd::prelude::*;

use crate::angle::{
    adjust_end_angle, spec_adjust_end_angle, spec_nearly_equal, NEARLY_EQUAL_TOLERANCE,
};
use crate::geometry::{
    scalar_in_range, spec_oval_bounds, Matrix, Point, Rect, PI_FIXED, SCALAR_LIMIT, TWO_PI_FIXED,
};
use crate::strutil::chars_eq_str;
use crate::strutil::chars_of;

verus! {

/// How the interior of a path is decided.
#[derive(Clone, Copy, Debug, PartialEq, Eq, Structural)]
pub enum FillRule {
    NonZero,
    EvenOdd,
}

pub open spec fn spec_fill_rule_of(label: Seq<char>) -> FillRule {
    if label == "evenodd"@ {
        FillRule::EvenOdd
    } else {
        FillRule::NonZero
    }
}

impl FillRule {
    /// Parses a fill-rule keyword; anything but `evenodd` falls back to the
    /// nonzero winding rule.
    pub fn from_label(label: &str) -> (r: FillRule)
        ensures
            r == spec_fill_rule_of(label@),
    {
        let cs = chars_of(label);
        if chars_eq_str(cs.as_slice(), "evenodd") {
            FillRule::EvenOdd
        } else {
            FillRule::NonZero
        }
    }
}

/// One subpath drawing command. `ArcToOval` sweeps along the axis-aligned
/// oval inscribed in `oval`, from `start_angle` over `sweep_angle`, both in
/// fixed-point radians. `TransformInverseRotation` asks the backend to
/// transform everything recorded before it by the inverse of the rotation by
/// `rotation` about `center`; it is how a rotated ellipse is reduced to the
/// unrotated renderer.
#[derive(Clone, Copy, Debug, PartialEq, Eq, Structural)]
pub enum PathCmd {
    MoveTo(Point),
    LineTo(Point),
    CubicTo(Point, Point, Point),
    QuadTo(Point, Point),
    ArcToTangent(Point, Point, i64),
    ArcToOval { oval: Rect, start_angle: i64, sweep_angle: i64 },
    AddRect(Rect),
    TransformInverseRotation { center: Point, rotation: i64 },
    Close,
}

/// A path: its commands in order and its fill rule. New paths are empty and
/// use the nonzero rule.
#[derive(Debug)]
pub struct Path {
    pub commands: Vec<PathCmd>,
    pub fill_rule: FillRule,
}

/// The commands an unrotated ellipse appends: the bounding oval is swept
/// from the start angle to the (already adjusted) end angle; a sweep within
/// the scalar tolerance of a full turn is split into two half-turn arcs,
/// because the backend's oval-arc primitive cannot sweep a whole turn in one
/// call.
pub open spec fn spec_ellipse_arcs(x: int, y: int, rx: int, ry: int, start: int, end: int) -> Seq<
    PathCmd,
> {
    let oval = spec_oval_bounds(x, y, rx, ry);
    let sweep = end - start;
    if spec_nearly_equal(sweep, TWO_PI_FIXED as int) {
        seq![
            PathCmd::ArcToOval { oval, start_angle: start as i64, sweep_angle: PI_FIXED },
            PathCmd::ArcToOval {
                oval,
                start_angle: (start + PI_FIXED) as i64,
                sweep_angle: PI_FIXED,
            },
        ]
    } else if spec_nearly_equal(sweep, -TWO_PI_FIXED as int) {
        seq![
            PathCmd::ArcToOval { oval, start_angle: start as i64, sweep_angle: (-PI_FIXED) as i64 },
            PathCmd::ArcToOval {
                oval,
                start_angle: (start - PI_FIXED) as i64,
                sweep_angle: (-PI_FIXED) as i64,
            },
        ]
    } else {
        seq![
            PathCmd::ArcToOval { oval, start_angle: start as i64, sweep_angle: sweep as i64 },
        ]
    }
}

impl Path {
    /// The empty path with the default nonzero fill rule.
    pub fn new() -> (r: Path)
        ensures
            r.commands@ =~= Seq::<PathCmd>::empty(),
            r.fill_rule == FillRule::NonZero,
    {
        Path { commands: Vec::new(), fill_rule: FillRule::NonZero }
    }

    pub fn is_empty(&self) -> (r: bool)
        ensures
            r == (self.commands@.len() == 0),
    {
        self.commands.len() == 0
    }

    pub fn set_fill_rule(&mut self, rule: FillRule)
        ensures
            final(self).commands@ == old(self).commands@,
            final(self).fill_rule == rule,
    {
        self.fill_rule = rule;
    }

    /// Starts a new subpath at `(x, y)`.
    pub fn move_to(&mut self, x: i64, y: i64)
        ensures
            final(self).commands@ == old(self).commands@.push(PathCmd::MoveTo(Point { x, y })),
            final(self).fill_rule == old(self).fill_rule,
    {
        self.commands.push(PathCmd::MoveTo(Point { x, y }));
    }

    /// Extends the active subpath with a straight segment to `(x, y)`.
    pub fn line_to(&mut self, x: i64, y: i64)
        ensures
            final(self).commands@ == old(self).commands@.push(PathCmd::LineTo(Point { x, y })),
            final(self).fill_rule == old(self).fill_rule,
    {
        self.commands.push(PathCmd::LineTo(Point { x, y }));
    }

    /// Extends the active subpath with a cubic curve through the two control
    /// points to `(x, y)`.
    pub fn bezier_curve_to(&mut self, cp1x: i64, cp1y: i64, cp2x: i64, cp2y: i64, x: i64, y: i64)
        ensures
            final(self).commands@ == old(self).commands@.push(
                PathCmd::CubicTo(
                    Point { x: cp1x, y: cp1y },
                    Point { x: cp2x, y: cp2y },
                    Point { x, y },
                ),
            ),
            final(self).fill_rule == old(self).fill_rule,
    {
        self.commands.push(
            PathCmd::CubicTo(
                Point { x: cp1x, y: cp1y },
                Point { x: cp2x, y: cp2y },
                Point { x, y },
            ),
        );
    }

    /// Extends the active subpath with a quadratic curve through the control
    /// point to `(x, y)`.
    pub fn quadratic_curve_to(&mut self, cpx: i64, cpy: i64, x: i64, y: i64)
        ensures
            final(self).commands@ == old(self).commands@.push(
                PathCmd::QuadTo(Point { x: cpx, y: cpy }, Point { x, y }),
            ),
            final(self).fill_rule == old(self).fill_rule,
    {
        self.commands.push(PathCmd::QuadTo(Point { x: cpx, y: cpy }, Point { x, y }));
    }

    /// Extends the active subpath with the tangent-line arc of the given
    /// radius through the two points.
    pub fn arc_to(&mut self, x1: i64, y1: i64, x2: i64, y2: i64, radius: i64)
        ensures
            final(self).commands@ == old(self).commands@.push(
                PathCmd::ArcToTangent(Point { x: x1, y: y1 }, Point { x: x2, y: y2 }, radius),
            ),
            final(self).fill_rule == old(self).fill_rule,
    {
        self.commands.push(
            PathCmd::ArcToTangent(Point { x: x1, y: y1 }, Point { x: x2, y: y2 }, radius),
        );
    }

    /// Appends a closed rectangular subpath; the current point of the active
    /// subpath is not disturbed.
    pub fn rect(&mut self, x: i64, y: i64, width: i64, height: i64)
        requires
            scalar_in_range(x as int),
            scalar_in_range(y as int),
            scalar_in_range(width as int),
            scalar_in_range(height as int),
        ensures
            final(self).commands@ == old(self).commands@.push(
                PathCmd::AddRect(crate::geometry::spec_rect_xywh(x as int, y as int, width as int, height as int)),
            ),
            final(self).fill_rule == old(self).fill_rule,
    {
        let r = Rect::from_xywh(x, y, width, height);
        self.commands.push(PathCmd::AddRect(r));
    }

    /// Closes the active subpath; a close on an empty path does nothing.
    pub fn close_path(&mut self)
        ensures
            final(self).commands@ == if old(self).commands@.len() == 0 {
                old(self).commands@
            } else {
                old(self).commands@.push(PathCmd::Close)
            },
            final(self).fill_rule == old(self).fill_rule,
    {
        if self.commands.len() != 0 {
            self.commands.push(PathCmd::Close);
        }
    }

    /// Appends every command of `other`; the fill rule is unchanged.
    pub fn append_path(&mut self, other: &Path)
        ensures
            final(self).commands@ == old(self).commands@ + other.commands@,
            final(self).fill_rule == old(self).fill_rule,
    {
        let n: usize = other.commands.len();
        let mut i: usize = 0;
        while i < n
            invariant
                i <= n,
                n == other.commands@.len(),
                self.commands@ =~= old(self).commands@ + other.commands@.take(i as int),
                self.fill_rule == old(self).fill_rule,
            decreases n - i,
        {
            self.commands.push(other.commands[i]);
            i += 1;
            proof {
                assert(self.commands@ =~= old(self).commands@ + other.commands@.take(i as int));
            }
        }
        proof {
            assert(other.commands@.take(n as int) =~= other.commands@);
        }
    }

    /// Sweeps the axis-aligned oval centered at `(x, y)` with radii `rx` and
    /// `ry` from `start_angle` to the already-adjusted `end_angle`.
    pub fn ellipse_no_rotation(
        &mut self,
        x: i64,
        y: i64,
        radius_x: i64,
        radius_y: i64,
        start_angle: i64,
        end_angle: i64,
    )
        requires
            scalar_in_range(x as int),
            scalar_in_range(y as int),
            scalar_in_range(radius_x as int),
            scalar_in_range(radius_y as int),
            -2 * SCALAR_LIMIT <= start_angle <= 2 * SCALAR_LIMIT,
            -2 * SCALAR_LIMIT <= end_angle <= 2 * SCALAR_LIMIT,
        ensures
            final(self).commands@ == old(self).commands@ + spec_ellipse_arcs(
                x as int,
                y as int,
                radius_x as int,
                radius_y as int,
                start_angle as int,
                end_angle as int,
            ),
            final(self).fill_rule == old(self).fill_rule,
    {
        let oval = Rect::oval_bounds(x, y, radius_x, radius_y);
        let sweep: i64 = end_angle - start_angle;
        let d_full: i64 = sweep - TWO_PI_FIXED;
        let d_full_neg: i64 = sweep + TWO_PI_FIXED;
        if -NEARLY_EQUAL_TOLERANCE <= d_full && d_full <= NEARLY_EQUAL_TOLERANCE {
            self.commands.push(
                PathCmd::ArcToOval { oval, start_angle, sweep_angle: PI_FIXED },
            );
            self.commands.push(
                PathCmd::ArcToOval {
                    oval,
                    start_angle: start_angle + PI_FIXED,
                    sweep_angle: PI_FIXED,
                },
            );
        } else if -NEARLY_EQUAL_TOLERANCE <= d_full_neg && d_full_neg <= NEARLY_EQUAL_TOLERANCE {
            self.commands.push(
                PathCmd::ArcToOval { oval, start_angle, sweep_angle: (-PI_FIXED) as i64 },
            );
            self.commands.push(
                PathCmd::ArcToOval {
                    oval,
                    start_angle: start_angle - PI_FIXED,
                    sweep_angle: (-PI_FIXED) as i64,
                },
            );
        } else {
            self.commands.push(
                PathCmd::ArcToOval { oval, start_angle, sweep_angle: sweep },
            );
        }
        proof {
            assert(self.commands@ =~= old(self).commands@ + spec_ellipse_arcs(
                x as int,
                y as int,
                radius_x as int,
                radius_y as int,
                start_angle as int,
                end_angle as int,
            ));
        }
    }

    /// The full ellipse operation: normalizes the end angle once, then
    /// renders. A non-zero `rotation` is handled by recording an inverse
    /// rotation about the center and rendering the unrotated ellipse at the
    /// origin with the already-adjusted end angle.
    pub fn ellipse(
        &mut self,
        x: i64,
        y: i64,
        radius_x: i64,
        radius_y: i64,
        rotation: i64,
        start_angle: i64,
        end_angle: i64,
        anticlockwise: bool,
    )
        requires
            scalar_in_range(x as int),
            scalar_in_range(y as int),
            scalar_in_range(radius_x as int),
            scalar_in_range(radius_y as int),
            -SCALAR_LIMIT <= start_angle <= SCALAR_LIMIT,
            -SCALAR_LIMIT <= end_angle <= SCALAR_LIMIT,
        ensures
            final(self).commands@ == old(self).commands@ + spec_ellipse_cmds(
                x as int,
                y as int,
                radius_x as int,
                radius_y as int,
                rotation as int,
                start_angle as int,
                end_angle as int,
                anticlockwise,
            ),
            final(self).fill_rule == old(self).fill_rule,
    {
        let adjusted = adjust_end_angle(start_angle, end_angle, anticlockwise);
        if rotation == 0 {
            self.ellipse_no_rotation(x, y, radius_x, radius_y, start_angle, adjusted);
        } else {
            self.commands.push(
                PathCmd::TransformInverseRotation { center: Point { x, y }, rotation },
            );
            self.ellipse_no_rotation(0, 0, radius_x, radius_y, start_angle, adjusted);
            proof {
                assert(self.commands@ =~= old(self).commands@ + spec_ellipse_cmds(
                    x as int,
                    y as int,
                    radius_x as int,
                    radius_y as int,
                    rotation as int,
                    start_angle as int,
                    end_angle as int,
                    anticlockwise,
                ));
            }
        }
    }

    /// A circular arc: the ellipse with equal radii and no rotation.
    pub fn arc(
        &mut self,
        x: i64,
        y: i64,
        radius: i64,
        start_angle: i64,
        end_angle: i64,
        anticlockwise: bool,
    )
        requires
            scalar_in_range(x as int),
            scalar_in_range(y as int),
            scalar_in_range(radius as int),
            -SCALAR_LIMIT <= start_angle <= SCALAR_LIMIT,
            -SCALAR_LIMIT <= end_angle <= SCALAR_LIMIT,
        ensures
            final(self).commands@ == old(self).commands@ + spec_arc_cmds(
                x as int,
                y as int,
                radius as int,
                start_angle as int,
                end_angle as int,
                anticlockwise,
            ),
            final(self).fill_rule == old(self).fill_rule,
    {
        let adjusted = adjust_end_angle(start_angle, end_angle, anticlockwise);
        self.ellipse_no_rotation(x, y, radius, radius, start_angle, adjusted);
    }
}

/// The commands `Path::ellipse` appends.
pub open spec fn spec_ellipse_cmds(
    x: int,
    y: int,
    rx: int,
    ry: int,
    rotation: int,
    start: int,
    end: int,
    anticlockwise: bool,
) -> Seq<PathCmd> {
    let adjusted = spec_adjust_end_angle(start, end, anticlockwise);
    if rotation == 0 {
        spec_ellipse_arcs(x, y, rx, ry, start, adjusted)
    } else {
        seq![
            PathCmd::TransformInverseRotation {
                center: Point { x: x as i64, y: y as i64 },
                rotation: rotation as i64,
            },
        ] + spec_ellipse_arcs(0, 0, rx, ry, start, adjusted)
    }
}

/// The commands `Path::arc` appends.
pub open spec fn spec_arc_cmds(
    x: int,
    y: int,
    r: int,
    start: int,
    end: int,
    anticlockwise: bool,
) -> Seq<PathCmd> {
    spec_ellipse_arcs(x, y, r, r, start, spec_adjust_end_angle(start, end, anticlockwise))
}

/// The two-command sequence draws one whole circle of radius `r` about
/// `(x, y)`: two arcs over the circle's bounding oval, each sweeping half a
/// turn in the same direction, the second starting where the first ends.
pub open spec fn spec_is_full_circle(cmds: Seq<PathCmd>, x: int, y: int, r: int) -> bool {
    let oval = spec_oval_bounds(x, y, r, r);
    &&& cmds.len() == 2
    &&& match (cmds[0], cmds[1]) {
        (
            PathCmd::ArcToOval { oval: o1, start_angle: s1, sweep_angle: w1 },
            PathCmd::ArcToOval { oval: o2, start_angle: s2, sweep_angle: w2 },
        ) => {
            &&& o1 == oval
            &&& o2 == oval
            &&& (w1 == PI_FIXED || w1 == -PI_FIXED)
            &&& w2 == w1
            &&& s2 == s1 + w1
        },
        _ => false,
    }
}

/// Law: a clockwise arc over a full positive turn and an anticlockwise arc
/// over a full negative turn both draw the complete circle of radius `r`
/// about `(x, y)`.
pub proof fn lemma_arc_full_circle_equivalence(x: int, y: int, r: int)
    ensures
        spec_is_full_circle(spec_arc_cmds(x, y, r, 0, TWO_PI_FIXED as int, false), x, y, r),
        spec_is_full_circle(spec_arc_cmds(x, y, r, 0, -TWO_PI_FIXED as int, true), x, y, r),
{
    assert(spec_adjust_end_angle(0, TWO_PI_FIXED as int, false) == 62830);
    assert(spec_adjust_end_angle(0, -TWO_PI_FIXED as int, true) == -62830);
}

} // verus!
