//! Style and color parsing for the vector-markup renderer the host runs on
//! top of this crate: inline `key:value;` style lists and CSS-ish color
//! values. Both parsers are forgiving; anything unreadable falls back to a
//! default.

use vstd::prelude::*;

use crate::paint::COLOR_BLACK;
use crate::strutil::{
    ascii_lower, chars_of, chars_start_with_str, parse_u32_digits, remove_all, spec_all_digits,
    spec_ascii_lower_char, spec_digits_value, spec_match_at, spec_remove_all, spec_split,
    split_chars, string_from_chars,
};

verus! {

/// Parses inline style text: pieces split on `;`, each piece split on `:`
/// into a key and a value, with missing values empty.
pub struct StyleParser {}

/// The key/value pairs of an inline style text.
pub open spec fn spec_style_pairs(s: Seq<char>) -> Seq<(Seq<char>, Seq<char>)> {
    spec_split(s, ';').map_values(
        |piece: Seq<char>|
            {
                let kv = spec_split(piece, ':');
                (kv[0], if kv.len() >= 2 {
                    kv[1]
                } else {
                    Seq::<char>::empty()
                })
            },
    )
}

impl StyleParser {
    /// Splits inline style text into its key/value pairs.
    pub fn from_str(style: &str) -> (r: Vec<(String, String)>)
        ensures
            r@.len() == spec_style_pairs(style@).len(),
            forall|k: int|
                0 <= k < r@.len() ==> (#[trigger] r@[k]).0@ == spec_style_pairs(style@)[k].0
                    && r@[k].1@ == spec_style_pairs(style@)[k].1,
    {
        let cs = chars_of(style);
        let pieces = split_chars(cs.as_slice(), ';');
        proof {
            assert(pieces.deep_view().len() == pieces@.len());
            assert forall|k: int| 0 <= k < pieces@.len() implies #[trigger] pieces@[k]@
                == spec_split(style@, ';')[k] by {
                assert(pieces@[k]@ =~= pieces.deep_view()[k]);
            }
        }
        let n = pieces.len();
        let mut out: Vec<(String, String)> = Vec::new();
        let mut i: usize = 0;
        while i < n
            invariant
                i <= n,
                n == spec_split(style@, ';').len(),
                forall|k: int|
                    0 <= k < n ==> #[trigger] pieces@[k]@ == spec_split(style@, ';')[k],
                n == pieces@.len(),
                out@.len() == i,
                forall|k: int|
                    0 <= k < i ==> (#[trigger] out@[k]).0@ == spec_style_pairs(style@)[k].0
                        && out@[k].1@ == spec_style_pairs(style@)[k].1,
            decreases n - i,
        {
            let piece = &pieces[i];
            let kv = split_chars(piece.as_slice(), ':');
            proof {
                crate::strutil::lemma_spec_split_nonempty(piece@, ':');
                assert(kv.deep_view().len() == kv@.len());
                assert forall|k: int| 0 <= k < kv@.len() implies #[trigger] kv@[k]@ == spec_split(
                    piece@,
                    ':',
                )[k] by {
                    assert(kv@[k]@ =~= kv.deep_view()[k]);
                }
            }
            let key = string_from_chars(&kv[0]);
            let value = if kv.len() >= 2 {
                string_from_chars(&kv[1])
            } else {
                string_from_chars(&Vec::new())
            };
            out.push((key, value));
            i += 1;
        }
        out
    }
}

/// Parses CSS-ish color values into packed ARGB color words.
pub struct ColorParser {}

/// Whether a value is shaped like a color: it starts with `#`, `rgb` or
/// `hsl`.
pub open spec fn spec_is_color(v: Seq<char>) -> bool {
    spec_match_at(v, "#"@, 0) || spec_match_at(v, "rgb"@, 0) || spec_match_at(v, "hsl"@, 0)
}

/// One color component: digits (optionally after a plus sign) up to 255;
/// anything else reads as 255.
pub open spec fn spec_color_component(t: Seq<char>) -> u32 {
    let digits = if t.len() > 0 && t[0] == '+' {
        t.skip(1)
    } else {
        t
    };
    if spec_all_digits(digits) && spec_digits_value(digits) <= 255 {
        spec_digits_value(digits) as u32
    } else {
        255
    }
}

/// The `i`th comma-separated component of a color body, 255 when missing.
pub open spec fn spec_component_at(parts: Seq<Seq<char>>, i: int) -> u32 {
    if i < parts.len() {
        spec_color_component(parts[i])
    } else {
        255
    }
}

/// The color a value names, after ASCII lowering: hex and HSL forms fall to
/// black, `rgb`/`rgba` forms carry their components (alpha from the fourth
/// component when present), a few keywords name their colors, and
/// everything else is black.
pub open spec fn spec_color_of(value: Seq<char>) -> u32 {
    let v = value.map_values(|c: char| spec_ascii_lower_char(c));
    if spec_match_at(v, "#"@, 0) {
        COLOR_BLACK
    } else if spec_match_at(v, "rgb"@, 0) {
        let body = spec_remove_all(spec_remove_all(spec_remove_all(v, "rgba("@), "rgb("@), ")"@);
        let parts = spec_split(body, ',');
        let r = spec_component_at(parts, 0);
        let g = spec_component_at(parts, 1);
        let b = spec_component_at(parts, 2);
        let a = spec_component_at(parts, 3);
        (a * 0x1000000 + r * 0x10000 + g * 0x100 + b) as u32
    } else if spec_match_at(v, "hsl"@, 0) {
        COLOR_BLACK
    } else if v == "red"@ {
        0xffff0000u32
    } else if v == "blue"@ {
        0xff0000ffu32
    } else if v == "green"@ {
        0xff00ff00u32
    } else if v == "pink"@ {
        0xffffc0cbu32
    } else {
        COLOR_BLACK
    }
}

impl ColorParser {
    /// Whether a value is shaped like a color.
    pub fn is_color(value: &str) -> (r: bool)
        ensures
            r == spec_is_color(value@),
    {
        let cs = chars_of(value);
        chars_start_with_str(cs.as_slice(), "#") || chars_start_with_str(cs.as_slice(), "rgb")
            || chars_start_with_str(cs.as_slice(), "hsl")
    }

    /// The packed ARGB color a value names.
    pub fn from_str(color: &str) -> (r: u32)
        ensures
            r == spec_color_of(color@),
    {
        let cs = chars_of(color);
        let v = ascii_lower(cs.as_slice());
        if chars_start_with_str(v.as_slice(), "#") {
            COLOR_BLACK
        } else if chars_start_with_str(v.as_slice(), "rgb") {
            let b1 = remove_all(v.as_slice(), "rgba(");
            let b2 = remove_all(b1.as_slice(), "rgb(");
            let body = remove_all(b2.as_slice(), ")");
            let parts = split_chars(body.as_slice(), ',');
            proof {
                assert(parts.deep_view().len() == parts@.len());
                assert forall|k: int| 0 <= k < parts@.len() implies #[trigger] parts@[k]@
                    == spec_split(body@, ',')[k] by {
                    assert(parts@[k]@ =~= parts.deep_view()[k]);
                }
            }
            let r = Self::component_at(&parts, 0);
            let g = Self::component_at(&parts, 1);
            let b = Self::component_at(&parts, 2);
            let a = Self::component_at(&parts, 3);
            a * 0x1000000 + r * 0x10000 + g * 0x100 + b
        } else if chars_start_with_str(v.as_slice(), "hsl") {
            COLOR_BLACK
        } else if crate::strutil::chars_eq_str(v.as_slice(), "red") {
            0xffff0000u32
        } else if crate::strutil::chars_eq_str(v.as_slice(), "blue") {
            0xff0000ffu32
        } else if crate::strutil::chars_eq_str(v.as_slice(), "green") {
            0xff00ff00u32
        } else if crate::strutil::chars_eq_str(v.as_slice(), "pink") {
            0xffffc0cbu32
        } else {
            COLOR_BLACK
        }
    }

    /// The `i`th component of a split color body.
    fn component_at(parts: &Vec<Vec<char>>, i: usize) -> (r: u32)
        requires
            forall|k: int|
                0 <= k < parts@.len() ==> #[trigger] parts@[k]@ == parts.deep_view()[k],
        ensures
            r == spec_component_at(parts.deep_view(), i as int),
            r <= 255,
    {
        if i < parts.len() {
            Self::component_value(parts[i].as_slice())
        } else {
            255
        }
    }

    /// One component token's value.
    fn component_value(t: &[char]) -> (r: u32)
        ensures
            r == spec_color_component(t@),
            r <= 255,
    {
        let digits: &[char] = if t.len() > 0 && t[0] == '+' {
            crate::strutil::slice_suffix(t, 1)
        } else {
            t
        };
        match parse_u32_digits(digits) {
            Option::Some(v) => {
                if v <= 255 {
                    v
                } else {
                    255
                }
            },
            Option::None => 255,
        }
    }
}

} // verus!
