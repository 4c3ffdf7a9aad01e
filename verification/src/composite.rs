//! Compositing: the canvas vocabulary of composite operations and the
//! backend blend modes they map to.

use vstd::prelude::*;

use crate::strutil::chars_eq_str;
use crate::strutil::chars_of;

verus! {

/// The backend's blend modes.
#[derive(Clone, Copy, Debug, PartialEq, Eq, Structural)]
pub enum BlendMode {
    Clear,
    Src,
    SrcOver,
    SrcIn,
    SrcOut,
    SrcATop,
    DstOver,
    DstIn,
    DstOut,
    DstATop,
    Xor,
    Multiply,
    Screen,
    Overlay,
    Darken,
    Lighten,
    ColorDodge,
    ColorBurn,
    HardLight,
    SoftLight,
    Difference,
    Exclusion,
    Hue,
    Saturation,
    Color,
    Luminosity,
}

/// A canvas composite operation, as named by the host.
#[derive(Clone, Copy, Debug, PartialEq, Eq, Structural)]
pub enum CanvasCompositeOperationType {
    SourceOver,
    SourceIn,
    SourceOut,
    SourceAtop,
    DestinationOver,
    DestinationIn,
    DestinationOut,
    DestinationAtop,
    Lighter,
    Copy,
    Xor,
    Multiply,
    Screen,
    Overlay,
    Darken,
    Lighten,
    ColorDodge,
    ColorBurn,
    HardLight,
    SoftLight,
    Difference,
    Exclusion,
    Hue,
    Saturation,
    Color,
    Luminosity,
}

/// The composite operation a keyword names; unrecognized keywords fall back
/// to source-over.
pub open spec fn spec_composite_op_of(label: Seq<char>) -> CanvasCompositeOperationType {
    if label == "source-in"@ {
        CanvasCompositeOperationType::SourceIn
    } else if label == "source-out"@ {
        CanvasCompositeOperationType::SourceOut
    } else if label == "source-atop"@ {
        CanvasCompositeOperationType::SourceAtop
    } else if label == "destination-over"@ {
        CanvasCompositeOperationType::DestinationOver
    } else if label == "destination-in"@ {
        CanvasCompositeOperationType::DestinationIn
    } else if label == "destination-out"@ {
        CanvasCompositeOperationType::DestinationOut
    } else if label == "destination-atop"@ {
        CanvasCompositeOperationType::DestinationAtop
    } else if label == "lighter"@ {
        CanvasCompositeOperationType::Lighter
    } else if label == "copy"@ {
        CanvasCompositeOperationType::Copy
    } else if label == "xor"@ {
        CanvasCompositeOperationType::Xor
    } else if label == "multiply"@ {
        CanvasCompositeOperationType::Multiply
    } else if label == "screen"@ {
        CanvasCompositeOperationType::Screen
    } else if label == "overlay"@ {
        CanvasCompositeOperationType::Overlay
    } else if label == "darken"@ {
        CanvasCompositeOperationType::Darken
    } else if label == "lighten"@ {
        CanvasCompositeOperationType::Lighten
    } else if label == "color-dodge"@ {
        CanvasCompositeOperationType::ColorDodge
    } else if label == "color-burn"@ {
        CanvasCompositeOperationType::ColorBurn
    } else if label == "hard-light"@ {
        CanvasCompositeOperationType::HardLight
    } else if label == "soft-light"@ {
        CanvasCompositeOperationType::SoftLight
    } else if label == "difference"@ {
        CanvasCompositeOperationType::Difference
    } else if label == "exclusion"@ {
        CanvasCompositeOperationType::Exclusion
    } else if label == "hue"@ {
        CanvasCompositeOperationType::Hue
    } else if label == "saturation"@ {
        CanvasCompositeOperationType::Saturation
    } else if label == "color"@ {
        CanvasCompositeOperationType::Color
    } else if label == "luminosity"@ {
        CanvasCompositeOperationType::Luminosity
    } else {
        CanvasCompositeOperationType::SourceOver
    }
}

/// The backend blend mode of each composite operation. The lighter
/// operation maps to the lighten blend, the nearest mode the backend
/// offers.
pub open spec fn spec_blend_mode_of(op: CanvasCompositeOperationType) -> BlendMode {
    match op {
        CanvasCompositeOperationType::SourceIn => BlendMode::SrcIn,
        CanvasCompositeOperationType::SourceOut => BlendMode::SrcOut,
        CanvasCompositeOperationType::SourceAtop => BlendMode::SrcATop,
        CanvasCompositeOperationType::DestinationOver => BlendMode::DstOver,
        CanvasCompositeOperationType::DestinationIn => BlendMode::DstIn,
        CanvasCompositeOperationType::DestinationOut => BlendMode::DstOut,
        CanvasCompositeOperationType::DestinationAtop => BlendMode::DstATop,
        CanvasCompositeOperationType::Lighter => BlendMode::Lighten,
        CanvasCompositeOperationType::Copy => BlendMode::Src,
        CanvasCompositeOperationType::Xor => BlendMode::Xor,
        CanvasCompositeOperationType::Multiply => BlendMode::Multiply,
        CanvasCompositeOperationType::Screen => BlendMode::Screen,
        CanvasCompositeOperationType::Overlay => BlendMode::Overlay,
        CanvasCompositeOperationType::Darken => BlendMode::Darken,
        CanvasCompositeOperationType::Lighten => BlendMode::Lighten,
        CanvasCompositeOperationType::ColorDodge => BlendMode::ColorDodge,
        CanvasCompositeOperationType::ColorBurn => BlendMode::ColorBurn,
        CanvasCompositeOperationType::HardLight => BlendMode::HardLight,
        CanvasCompositeOperationType::SoftLight => BlendMode::SoftLight,
        CanvasCompositeOperationType::Difference => BlendMode::Difference,
        CanvasCompositeOperationType::Exclusion => BlendMode::Exclusion,
        CanvasCompositeOperationType::Hue => BlendMode::Hue,
        CanvasCompositeOperationType::Saturation => BlendMode::Saturation,
        CanvasCompositeOperationType::Color => BlendMode::Color,
        CanvasCompositeOperationType::Luminosity => BlendMode::Luminosity,
        CanvasCompositeOperationType::SourceOver => BlendMode::SrcOver,
    }
}

impl CanvasCompositeOperationType {
    /// Parses a composite-operation keyword; unrecognized keywords fall back
    /// to source-over.
    pub fn value_from_str(value: &str) -> (r: CanvasCompositeOperationType)
        ensures
            r == spec_composite_op_of(value@),
    {
        let cs = chars_of(value);
        let s = cs.as_slice();
        if chars_eq_str(s, "source-in") {
            CanvasCompositeOperationType::SourceIn
        } else if chars_eq_str(s, "source-out") {
            CanvasCompositeOperationType::SourceOut
        } else if chars_eq_str(s, "source-atop") {
            CanvasCompositeOperationType::SourceAtop
        } else if chars_eq_str(s, "destination-over") {
            CanvasCompositeOperationType::DestinationOver
        } else if chars_eq_str(s, "destination-in") {
            CanvasCompositeOperationType::DestinationIn
        } else if chars_eq_str(s, "destination-out") {
            CanvasCompositeOperationType::DestinationOut
        } else if chars_eq_str(s, "destination-atop") {
            CanvasCompositeOperationType::DestinationAtop
        } else if chars_eq_str(s, "lighter") {
            CanvasCompositeOperationType::Lighter
        } else if chars_eq_str(s, "copy") {
            CanvasCompositeOperationType::Copy
        } else if chars_eq_str(s, "xor") {
            CanvasCompositeOperationType::Xor
        } else if chars_eq_str(s, "multiply") {
            CanvasCompositeOperationType::Multiply
        } else if chars_eq_str(s, "screen") {
            CanvasCompositeOperationType::Screen
        } else if chars_eq_str(s, "overlay") {
            CanvasCompositeOperationType::Overlay
        } else if chars_eq_str(s, "darken") {
            CanvasCompositeOperationType::Darken
        } else if chars_eq_str(s, "lighten") {
            CanvasCompositeOperationType::Lighten
        } else if chars_eq_str(s, "color-dodge") {
            CanvasCompositeOperationType::ColorDodge
        } else if chars_eq_str(s, "color-burn") {
            CanvasCompositeOperationType::ColorBurn
        } else if chars_eq_str(s, "hard-light") {
            CanvasCompositeOperationType::HardLight
        } else if chars_eq_str(s, "soft-light") {
            CanvasCompositeOperationType::SoftLight
        } else if chars_eq_str(s, "difference") {
            CanvasCompositeOperationType::Difference
        } else if chars_eq_str(s, "exclusion") {
            CanvasCompositeOperationType::Exclusion
        } else if chars_eq_str(s, "hue") {
            CanvasCompositeOperationType::Hue
        } else if chars_eq_str(s, "saturation") {
            CanvasCompositeOperationType::Saturation
        } else if chars_eq_str(s, "color") {
            CanvasCompositeOperationType::Color
        } else if chars_eq_str(s, "luminosity") {
            CanvasCompositeOperationType::Luminosity
        } else {
            CanvasCompositeOperationType::SourceOver
        }
    }

    /// The backend blend mode this operation selects.
    pub fn get_blend_mode(&self) -> (r: BlendMode)
        ensures
            r == spec_blend_mode_of(*self),
    {
        match self {
            CanvasCompositeOperationType::SourceIn => BlendMode::SrcIn,
            CanvasCompositeOperationType::SourceOut => BlendMode::SrcOut,
            CanvasCompositeOperationType::SourceAtop => BlendMode::SrcATop,
            CanvasCompositeOperationType::DestinationOver => BlendMode::DstOver,
            CanvasCompositeOperationType::DestinationIn => BlendMode::DstIn,
            CanvasCompositeOperationType::DestinationOut => BlendMode::DstOut,
            CanvasCompositeOperationType::DestinationAtop => BlendMode::DstATop,
            CanvasCompositeOperationType::Lighter => BlendMode::Lighten,
            CanvasCompositeOperationType::Copy => BlendMode::Src,
            CanvasCompositeOperationType::Xor => BlendMode::Xor,
            CanvasCompositeOperationType::Multiply => BlendMode::Multiply,
            CanvasCompositeOperationType::Screen => BlendMode::Screen,
            CanvasCompositeOperationType::Overlay => BlendMode::Overlay,
            CanvasCompositeOperationType::Darken => BlendMode::Darken,
            CanvasCompositeOperationType::Lighten => BlendMode::Lighten,
            CanvasCompositeOperationType::ColorDodge => BlendMode::ColorDodge,
            CanvasCompositeOperationType::ColorBurn => BlendMode::ColorBurn,
            CanvasCompositeOperationType::HardLight => BlendMode::HardLight,
            CanvasCompositeOperationType::SoftLight => BlendMode::SoftLight,
            CanvasCompositeOperationType::Difference => BlendMode::Difference,
            CanvasCompositeOperationType::Exclusion => BlendMode::Exclusion,
            CanvasCompositeOperationType::Hue => BlendMode::Hue,
            CanvasCompositeOperationType::Saturation => BlendMode::Saturation,
            CanvasCompositeOperationType::Color => BlendMode::Color,
            CanvasCompositeOperationType::Luminosity => BlendMode::Luminosity,
            CanvasCompositeOperationType::SourceOver => BlendMode::SrcOver,
        }
    }
}

} // verus!
