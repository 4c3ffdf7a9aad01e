//! Paint and style state: color, shader (gradient or pattern), stroke
//! geometry, dash effect, blend mode, filter quality and the transient
//! shadow filters the drawing pipeline attaches. One canvas context owns two
//! paints, one for filling and one for stroking.

use vstd::prelude::*;

use crate::geometry::{Matrix, Point};
use crate::strutil::chars_eq_str;
use crate::strutil::chars_of;
use crate::veclib::copy_vec;

verus! {

/// Opaque black, the default color of both paints and of the shadow.
pub const COLOR_BLACK: u32 = 0xff000000;

/// Fully transparent black.
pub const COLOR_TRANSPARENT: u32 = 0;

/// Packs alpha, red, green and blue bytes into a color word.
pub open spec fn spec_argb(a: u8, r: u8, g: u8, b: u8) -> u32 {
    (a as u32 * 0x1000000 + r as u32 * 0x10000 + g as u32 * 0x100 + b as u32) as u32
}

pub fn color_from_argb(a: u8, r: u8, g: u8, b: u8) -> (c: u32)
    ensures
        c == spec_argb(a, r, g, b),
{
    a as u32 * 0x1000000 + r as u32 * 0x10000 + g as u32 * 0x100 + b as u32
}

/// `color` with its alpha byte replaced by `alpha`.
pub open spec fn spec_with_alpha(color: u32, alpha: u8) -> u32 {
    (color % 0x1000000 + alpha as u32 * 0x1000000) as u32
}

pub fn color_with_alpha(color: u32, alpha: u8) -> (c: u32)
    ensures
        c == spec_with_alpha(color, alpha),
{
    color % 0x1000000 + alpha as u32 * 0x1000000
}

/// Whether a paint fills or strokes.
#[derive(Clone, Copy, Debug, PartialEq, Eq, Structural)]
pub enum PaintStyle {
    Fill,
    Stroke,
}

#[derive(Clone, Copy, Debug, PartialEq, Eq, Structural)]
pub enum LineCap {
    Butt,
    Round,
    Square,
}

pub open spec fn spec_line_cap_of(label: Seq<char>) -> LineCap {
    if label == "round"@ {
        LineCap::Round
    } else if label == "square"@ {
        LineCap::Square
    } else {
        LineCap::Butt
    }
}

impl LineCap {
    /// Parses a line-cap keyword; unrecognized values fall back to the butt
    /// cap.
    pub fn from_label(label: &str) -> (r: LineCap)
        ensures
            r == spec_line_cap_of(label@),
    {
        let cs = chars_of(label);
        if chars_eq_str(cs.as_slice(), "round") {
            LineCap::Round
        } else if chars_eq_str(cs.as_slice(), "square") {
            LineCap::Square
        } else {
            LineCap::Butt
        }
    }
}

#[derive(Clone, Copy, Debug, PartialEq, Eq, Structural)]
pub enum LineJoin {
    Miter,
    Round,
    Bevel,
}

pub open spec fn spec_line_join_of(label: Seq<char>) -> LineJoin {
    if label == "round"@ {
        LineJoin::Round
    } else if label == "bevel"@ {
        LineJoin::Bevel
    } else {
        LineJoin::Miter
    }
}

impl LineJoin {
    /// Parses a line-join keyword; unrecognized values fall back to the
    /// miter join.
    pub fn from_label(label: &str) -> (r: LineJoin)
        ensures
            r == spec_line_join_of(label@),
    {
        let cs = chars_of(label);
        if chars_eq_str(cs.as_slice(), "round") {
            LineJoin::Round
        } else if chars_eq_str(cs.as_slice(), "bevel") {
            LineJoin::Bevel
        } else {
            LineJoin::Miter
        }
    }
}

/// The backend's resampling quality for image draws.
#[derive(Clone, Copy, Debug, PartialEq, Eq, Structural)]
pub enum FilterQuality {
    NoFiltering,
    Low,
    Medium,
    High,
}

/// How a pattern tiles the plane.
#[derive(Clone, Copy, Debug, PartialEq, Eq, Structural)]
pub enum Repetition {
    Repeat,
    RepeatX,
    RepeatY,
    NoRepeat,
}

pub open spec fn spec_repetition_of(label: Seq<char>) -> Repetition {
    if label == "repeat-x"@ {
        Repetition::RepeatX
    } else if label == "repeat-y"@ {
        Repetition::RepeatY
    } else if label == "no-repeat"@ {
        Repetition::NoRepeat
    } else {
        Repetition::Repeat
    }
}

impl Repetition {
    /// Parses a pattern-repetition keyword; unrecognized values fall back to
    /// repeating in both directions.
    pub fn from_label(label: &str) -> (r: Repetition)
        ensures
            r == spec_repetition_of(label@),
    {
        let cs = chars_of(label);
        if chars_eq_str(cs.as_slice(), "repeat-x") {
            Repetition::RepeatX
        } else if chars_eq_str(cs.as_slice(), "repeat-y") {
            Repetition::RepeatY
        } else if chars_eq_str(cs.as_slice(), "no-repeat") {
            Repetition::NoRepeat
        } else {
            Repetition::Repeat
        }
    }
}

/// A gradient or pattern attached to a paint. Replaced wholesale, never
/// mutated in place, except for the pattern transform which the host may set
/// on a pattern it created.
#[derive(Debug)]
pub enum Shader {
    LinearGradient { start: Point, end: Point, colors: Vec<u32>, positions: Vec<i64> },
    RadialGradient {
        start: Point,
        start_radius: i64,
        end: Point,
        end_radius: i64,
        colors: Vec<u32>,
        positions: Vec<i64>,
    },
    Pattern {
        width: u32,
        height: u32,
        pixels: Vec<u8>,
        repetition: Repetition,
        matrix: Option<Matrix>,
    },
}

/// Ghost value of a shader.
#[verifier::ext_equal]
pub ghost enum ShaderModel {
    LinearGradient { start: Point, end: Point, colors: Seq<u32>, positions: Seq<i64> },
    RadialGradient {
        start: Point,
        start_radius: i64,
        end: Point,
        end_radius: i64,
        colors: Seq<u32>,
        positions: Seq<i64>,
    },
    Pattern {
        width: u32,
        height: u32,
        pixels: Seq<u8>,
        repetition: Repetition,
        matrix: Option<Matrix>,
    },
}

impl View for Shader {
    type V = ShaderModel;

    open spec fn view(&self) -> ShaderModel {
        match self {
            Shader::LinearGradient { start, end, colors, positions } => {
                ShaderModel::LinearGradient {
                    start: *start,
                    end: *end,
                    colors: colors@,
                    positions: positions@,
                }
            },
            Shader::RadialGradient {
                start,
                start_radius,
                end,
                end_radius,
                colors,
                positions,
            } => {
                ShaderModel::RadialGradient {
                    start: *start,
                    start_radius: *start_radius,
                    end: *end,
                    end_radius: *end_radius,
                    colors: colors@,
                    positions: positions@,
                }
            },
            Shader::Pattern { width, height, pixels, repetition, matrix } => {
                ShaderModel::Pattern {
                    width: *width,
                    height: *height,
                    pixels: pixels@,
                    repetition: *repetition,
                    matrix: *matrix,
                }
            },
        }
    }
}

impl Shader {
    /// A value copy of the shader.
    pub fn duplicate(&self) -> (r: Shader)
        ensures
            r@ == self@,
    {
        match self {
            Shader::LinearGradient { start, end, colors, positions } => {
                Shader::LinearGradient {
                    start: *start,
                    end: *end,
                    colors: copy_vec(colors),
                    positions: copy_vec(positions),
                }
            },
            Shader::RadialGradient {
                start,
                start_radius,
                end,
                end_radius,
                colors,
                positions,
            } => {
                Shader::RadialGradient {
                    start: *start,
                    start_radius: *start_radius,
                    end: *end,
                    end_radius: *end_radius,
                    colors: copy_vec(colors),
                    positions: copy_vec(positions),
                }
            },
            Shader::Pattern { width, height, pixels, repetition, matrix } => {
                Shader::Pattern {
                    width: *width,
                    height: *height,
                    pixels: copy_vec(pixels),
                    repetition: *repetition,
                    matrix: *matrix,
                }
            },
        }
    }
}

impl Shader {
    /// Builds a pattern shader over raw RGBA pixels.
    pub fn new_pattern(width: u32, height: u32, pixels: Vec<u8>, repetition: &str) -> (r: Shader)
        ensures
            r@ == (ShaderModel::Pattern {
                width,
                height,
                pixels: pixels@,
                repetition: spec_repetition_of(repetition@),
                matrix: Option::None,
            }),
    {
        Shader::Pattern {
            width,
            height,
            pixels,
            repetition: Repetition::from_label(repetition),
            matrix: Option::None,
        }
    }

    /// Installs a transform on a pattern shader; gradients are unchanged.
    pub fn set_pattern_transform(&mut self, m: Matrix)
        ensures
            final(self)@ == (match old(self)@ {
                ShaderModel::Pattern { width, height, pixels, repetition, matrix } => (
                ShaderModel::Pattern {
                    width,
                    height,
                    pixels,
                    repetition,
                    matrix: Option::Some(m),
                }),
                other => other,
            }),
    {
        match self {
            Shader::Pattern { matrix, .. } => {
                *matrix = Option::Some(m);
            },
            _ => {},
        }
    }
}

/// A stroke dash effect: the interval lengths and the phase they were
/// anchored at when the effect was built.
#[derive(Debug)]
pub struct DashEffect {
    pub intervals: Vec<i64>,
    pub phase: i64,
}

#[verifier::ext_equal]
pub ghost struct DashModel {
    pub intervals: Seq<i64>,
    pub phase: i64,
}

impl View for DashEffect {
    type V = DashModel;

    open spec fn view(&self) -> DashModel {
        DashModel { intervals: self.intervals@, phase: self.phase }
    }
}

/// The drop-shadow image filter the pipeline attaches for fills, strokes and
/// rectangles when a shadow is configured.
#[derive(Clone, Copy, Debug, PartialEq, Eq, Structural)]
pub struct DropShadow {
    pub dx: i64,
    pub dy: i64,
    pub sigma_x: i64,
    pub sigma_y: i64,
    pub color: u32,
}

/// The full set of rendering parameters for filling or stroking.
#[derive(Debug)]
pub struct Paint {
    pub color: u32,
    pub shader: Option<Shader>,
    pub style: PaintStyle,
    pub anti_alias: bool,
    pub stroke_width: i64,
    pub stroke_cap: LineCap,
    pub stroke_join: LineJoin,
    pub stroke_miter: i64,
    pub blend_mode: crate::composite::BlendMode,
    pub filter_quality: FilterQuality,
    pub dash: Option<DashEffect>,
    pub image_filter: Option<DropShadow>,
    pub mask_blur: Option<i64>,
}

/// Ghost value of a paint.
#[verifier::ext_equal]
pub ghost struct PaintModel {
    pub color: u32,
    pub shader: Option<ShaderModel>,
    pub style: PaintStyle,
    pub anti_alias: bool,
    pub stroke_width: i64,
    pub stroke_cap: LineCap,
    pub stroke_join: LineJoin,
    pub stroke_miter: i64,
    pub blend_mode: crate::composite::BlendMode,
    pub filter_quality: FilterQuality,
    pub dash: Option<DashModel>,
    pub image_filter: Option<DropShadow>,
    pub mask_blur: Option<i64>,
}

impl View for Paint {
    type V = PaintModel;

    open spec fn view(&self) -> PaintModel {
        PaintModel {
            color: self.color,
            shader: match self.shader {
                Option::Some(s) => Option::Some(s@),
                Option::None => Option::None,
            },
            style: self.style,
            anti_alias: self.anti_alias,
            stroke_width: self.stroke_width,
            stroke_cap: self.stroke_cap,
            stroke_join: self.stroke_join,
            stroke_miter: self.stroke_miter,
            blend_mode: self.blend_mode,
            filter_quality: self.filter_quality,
            dash: match self.dash {
                Option::Some(d) => Option::Some(d@),
                Option::None => Option::None,
            },
            image_filter: self.image_filter,
            mask_blur: self.mask_blur,
        }
    }
}

impl Paint {
    /// The default fill paint: opaque black, anti-aliased, no shader, no
    /// dash, no filters.
    pub fn default_fill() -> (r: Paint)
        ensures
            r@ == spec_default_fill_paint(),
    {
        Paint {
            color: COLOR_BLACK,
            shader: Option::None,
            style: PaintStyle::Fill,
            anti_alias: true,
            stroke_width: 10000,
            stroke_cap: LineCap::Butt,
            stroke_join: LineJoin::Miter,
            stroke_miter: 100000,
            blend_mode: crate::composite::BlendMode::SrcOver,
            filter_quality: FilterQuality::NoFiltering,
            dash: Option::None,
            image_filter: Option::None,
            mask_blur: Option::None,
        }
    }

    /// The default stroke paint: like the fill paint, but stroking with
    /// width one, butt caps, miter joins and miter limit ten.
    pub fn default_stroke() -> (r: Paint)
        ensures
            r@ == spec_default_stroke_paint(),
    {
        Paint {
            color: COLOR_BLACK,
            shader: Option::None,
            style: PaintStyle::Stroke,
            anti_alias: true,
            stroke_width: 10000,
            stroke_cap: LineCap::Butt,
            stroke_join: LineJoin::Miter,
            stroke_miter: 100000,
            blend_mode: crate::composite::BlendMode::SrcOver,
            filter_quality: FilterQuality::NoFiltering,
            dash: Option::None,
            image_filter: Option::None,
            mask_blur: Option::None,
        }
    }

    /// A value copy of the paint.
    pub fn duplicate(&self) -> (r: Paint)
        ensures
            r@ == self@,
    {
        Paint {
            color: self.color,
            shader: match &self.shader {
                Option::Some(s) => Option::Some(s.duplicate()),
                Option::None => Option::None,
            },
            style: self.style,
            anti_alias: self.anti_alias,
            stroke_width: self.stroke_width,
            stroke_cap: self.stroke_cap,
            stroke_join: self.stroke_join,
            stroke_miter: self.stroke_miter,
            blend_mode: self.blend_mode,
            filter_quality: self.filter_quality,
            dash: match &self.dash {
                Option::Some(d) => Option::Some(
                    DashEffect { intervals: copy_vec(&d.intervals), phase: d.phase },
                ),
                Option::None => Option::None,
            },
            image_filter: self.image_filter,
            mask_blur: self.mask_blur,
        }
    }
}

pub open spec fn spec_default_fill_paint() -> PaintModel {
    PaintModel {
        color: COLOR_BLACK,
        shader: Option::None,
        style: PaintStyle::Fill,
        anti_alias: true,
        stroke_width: 10000,
        stroke_cap: LineCap::Butt,
        stroke_join: LineJoin::Miter,
        stroke_miter: 100000,
        blend_mode: crate::composite::BlendMode::SrcOver,
        filter_quality: FilterQuality::NoFiltering,
        dash: Option::None,
        image_filter: Option::None,
        mask_blur: Option::None,
    }
}

pub open spec fn spec_default_stroke_paint() -> PaintModel {
    PaintModel { style: PaintStyle::Stroke, ..spec_default_fill_paint() }
}

} // verus!
