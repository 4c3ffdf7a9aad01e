//! The font description and the forgiving font-string parser. The host hands
//! a whitespace-separated CSS-style font string; tokens are classified by
//! position and content sniffing, and malformed input degrades to the
//! defaults of ten pixels, normal weight and the backend's default family.

use vstd::prelude::*;

use crate::geometry::FIXED_SCALE;
use crate::strutil::{
    chars_contain_str, chars_eq_str, chars_of, parse_i32_chars, parse_u32_digits, remove_all,
    spec_all_digits, spec_contains_seq, spec_digits_value, spec_remove_all,
    spec_signed_numeral_value, spec_split, split_chars, string_from_chars,
};

verus! {

/// Normal font weight.
pub const WEIGHT_NORMAL: i32 = 400;

/// Bold font weight.
pub const WEIGHT_BOLD: i32 = 700;

/// The weight used for the `bolder` keyword.
pub const WEIGHT_EXTRA_BOLD: i32 = 800;

/// The weight used for the `lighter` keyword.
pub const WEIGHT_LIGHT: i32 = 300;

/// The default font size: ten pixels.
pub const DEFAULT_FONT_SIZE: i64 = 100000;

/// The font a canvas context draws text with: a weight, a fixed-point pixel
/// size, and a family name (`None` asks the backend for its default
/// typeface).
#[derive(Debug)]
pub struct FontDescriptor {
    pub weight: i32,
    pub size: i64,
    pub family: Option<String>,
}

/// Ghost value of a font description.
#[verifier::ext_equal]
pub ghost struct FontModel {
    pub weight: i32,
    pub size: i64,
    pub family: Option<Seq<char>>,
}

impl View for FontDescriptor {
    type V = FontModel;

    open spec fn view(&self) -> FontModel {
        FontModel {
            weight: self.weight,
            size: self.size,
            family: match self.family {
                Option::Some(ref f) => Option::Some(f@),
                Option::None => Option::None,
            },
        }
    }
}

impl FontDescriptor {
    /// The context's starting font: ten-pixel sans-serif at normal weight.
    pub fn default_font() -> (r: FontDescriptor)
        ensures
            r@ == spec_default_font(),
    {
        FontDescriptor {
            weight: WEIGHT_NORMAL,
            size: DEFAULT_FONT_SIZE,
            family: Option::Some("sans-serif".to_owned()),
        }
    }

    /// A value copy of the font description.
    pub fn duplicate(&self) -> (r: FontDescriptor)
        ensures
            r@ == self@,
    {
        FontDescriptor {
            weight: self.weight,
            size: self.size,
            family: match &self.family {
                Option::Some(f) => Option::Some(f.clone()),
                Option::None => Option::None,
            },
        }
    }
}

pub open spec fn spec_default_font() -> FontModel {
    FontModel {
        weight: WEIGHT_NORMAL,
        size: DEFAULT_FONT_SIZE,
        family: Option::Some("sans-serif"@),
    }
}

/// Whether a token names a font weight: it mentions one of the weight
/// keywords or one of the standard hundred-step numeric weights.
pub open spec fn spec_is_font_weight(t: Seq<char>) -> bool {
    ||| spec_contains_seq(t, "normal"@)
    ||| spec_contains_seq(t, "bold"@)
    ||| spec_contains_seq(t, "bolder"@)
    ||| spec_contains_seq(t, "lighter"@)
    ||| spec_contains_seq(t, "100"@)
    ||| spec_contains_seq(t, "200"@)
    ||| spec_contains_seq(t, "300"@)
    ||| spec_contains_seq(t, "400"@)
    ||| spec_contains_seq(t, "500"@)
    ||| spec_contains_seq(t, "600"@)
    ||| spec_contains_seq(t, "700"@)
    ||| spec_contains_seq(t, "800"@)
    ||| spec_contains_seq(t, "900"@)
}

pub fn is_font_weight(text: &str) -> (r: bool)
    ensures
        r == spec_is_font_weight(text@),
{
    let cs = chars_of(text);
    let s = cs.as_slice();
    chars_contain_str(s, "normal") || chars_contain_str(s, "bold") || chars_contain_str(
        s,
        "bolder",
    ) || chars_contain_str(s, "lighter") || chars_contain_str(s, "100") || chars_contain_str(
        s,
        "200",
    ) || chars_contain_str(s, "300") || chars_contain_str(s, "400") || chars_contain_str(s, "500")
        || chars_contain_str(s, "600") || chars_contain_str(s, "700") || chars_contain_str(
        s,
        "800",
    ) || chars_contain_str(s, "900")
}

/// Whether a token names a font style.
pub open spec fn spec_is_font_style(t: Seq<char>) -> bool {
    ||| spec_contains_seq(t, "normal"@)
    ||| spec_contains_seq(t, "italic"@)
    ||| spec_contains_seq(t, "oblique"@)
}

pub fn is_font_style(text: &str) -> (r: bool)
    ensures
        r == spec_is_font_style(text@),
{
    let cs = chars_of(text);
    let s = cs.as_slice();
    chars_contain_str(s, "normal") || chars_contain_str(s, "italic") || chars_contain_str(
        s,
        "oblique",
    )
}

/// Whether a token carries a pixel size.
pub open spec fn spec_is_font_size(t: Seq<char>) -> bool {
    spec_contains_seq(t, "px"@)
}

pub fn is_font_size(text: &str) -> (r: bool)
    ensures
        r == spec_is_font_size(text@),
{
    let cs = chars_of(text);
    chars_contain_str(cs.as_slice(), "px")
}

/// Value of the fractional digits of a fixed-point numeral: the first four
/// fractional digits count; any further digits are dropped.
pub open spec fn spec_frac_fixed(fr: Seq<char>) -> int {
    if fr.len() >= 4 {
        spec_digits_value(fr.take(4))
    } else if fr.len() == 3 {
        spec_digits_value(fr) * 10
    } else if fr.len() == 2 {
        spec_digits_value(fr) * 100
    } else if fr.len() == 1 {
        spec_digits_value(fr) * 1000
    } else {
        0
    }
}

/// Value of an unsigned decimal numeral with an optional fractional part, in
/// fixed-point steps: the grammar is digits, or digits `.` digits with
/// either side (but not both) possibly empty; whole parts are bounded by the
/// largest thirty-two-bit value. Anything else has no value.
pub open spec fn spec_unsigned_fixed(s: Seq<char>) -> Option<int> {
    let parts = spec_split(s, '.');
    if parts.len() == 1 {
        if spec_all_digits(parts[0]) && spec_digits_value(parts[0]) <= u32::MAX as int {
            Option::Some(spec_digits_value(parts[0]) * FIXED_SCALE)
        } else {
            Option::None
        }
    } else if parts.len() == 2 {
        let whole = parts[0];
        let frac = parts[1];
        let whole_ok = whole.len() == 0 || (spec_all_digits(whole) && spec_digits_value(whole)
            <= u32::MAX as int);
        let frac_digits_ok = frac.len() == 0 || spec_all_digits(frac);
        if whole_ok && frac_digits_ok && (whole.len() > 0 || frac.len() > 0) {
            let wv = if whole.len() == 0 {
                0
            } else {
                spec_digits_value(whole)
            };
            let fv = if frac.len() == 0 {
                0
            } else {
                spec_frac_fixed(frac)
            };
            Option::Some(wv * FIXED_SCALE + fv)
        } else {
            Option::None
        }
    } else {
        Option::None
    }
}

/// Value of a decimal numeral with optional sign and fraction, in
/// fixed-point steps.
pub open spec fn spec_parse_fixed(s: Seq<char>) -> Option<int> {
    if s.len() > 0 && (s[0] == '-' || s[0] == '+') {
        match spec_unsigned_fixed(s.skip(1)) {
            Option::Some(v) => if s[0] == '-' {
                Option::Some(-v)
            } else {
                Option::Some(v)
            },
            Option::None => Option::None,
        }
    } else {
        spec_unsigned_fixed(s)
    }
}

fn parse_unsigned_fixed(s: &[char]) -> (r: Option<i64>)
    ensures
        match r {
            Option::Some(v) => spec_unsigned_fixed(s@) == Option::Some(v as int) && 0 <= v
                <= 43_000_000_000_000,
            Option::None => spec_unsigned_fixed(s@) is None,
        },
{
    let parts = split_chars(s, '.');
    proof {
        crate::strutil::lemma_spec_split_nonempty(s@, '.');
    }
    if parts.len() == 1 {
        let whole = &parts[0];
        proof {
            assert(whole@ == spec_split(s@, '.')[0]);
        }
        match parse_u32_digits(whole.as_slice()) {
            Option::Some(v) => Option::Some(v as i64 * FIXED_SCALE),
            Option::None => Option::None,
        }
    } else if parts.len() == 2 {
        let whole = &parts[0];
        let frac = &parts[1];
        proof {
            assert(whole@ == spec_split(s@, '.')[0]);
            assert(frac@ == spec_split(s@, '.')[1]);
        }
        if whole.len() == 0 && frac.len() == 0 {
            return Option::None;
        }
        let wv: i64 = if whole.len() == 0 {
            0
        } else {
            match parse_u32_digits(whole.as_slice()) {
                Option::Some(v) => v as i64,
                Option::None => {
                    return Option::None;
                },
            }
        };
        let fv: i64 = if frac.len() == 0 {
            0
        } else {
            match frac_fixed(frac.as_slice()) {
                Option::Some(v) => v,
                Option::None => {
                    return Option::None;
                },
            }
        };
        Option::Some(wv * FIXED_SCALE + fv)
    } else {
        Option::None
    }
}

/// Fixed-point value of a fractional-digit run, or `None` when a character
/// is not a digit.
fn frac_fixed(fr: &[char]) -> (r: Option<i64>)
    requires
        fr@.len() > 0,
    ensures
        match r {
            Option::Some(v) => spec_all_digits(fr@) && v as int == spec_frac_fixed(fr@)
                && 0 <= v <= 9999,
            Option::None => fr@.len() > 0 && !spec_all_digits(fr@),
        },
{
    let used: &[char] = if fr.len() >= 4 {
        crate::strutil::slice_subrange(fr, 0, 4)
    } else {
        fr
    };
    let rest_ok = all_digits_exec(fr);
    if !rest_ok {
        return Option::None;
    }
    match parse_u32_digits(used) {
        Option::Some(v) => {
            let scale: i64 = if fr.len() >= 4 {
                1
            } else if fr.len() == 3 {
                10
            } else if fr.len() == 2 {
                100
            } else {
                1000
            };
            proof {
                if fr@.len() >= 4 {
                    assert(used@ =~= fr@.take(4));
                }
                crate::strutil::lemma_digits_value_small_bound(used@);
            }
            Option::Some(v as i64 * scale)
        },
        Option::None => {
            proof {
                if fr@.len() >= 4 {
                    assert(used@ =~= fr@.take(4));
                }
                assert(spec_all_digits(used@)) by {
                    assert(forall|k: int| 0 <= k < used@.len() ==> used@[k] == fr@[k]);
                }
                crate::strutil::lemma_digits_value_small_bound(used@);
                assert(false);
            }
            Option::None
        },
    }
}

/// Whether every character is a decimal digit.
fn all_digits_exec(s: &[char]) -> (r: bool)
    ensures
        r == (forall|k: int|
            0 <= k < s@.len() ==> crate::strutil::spec_is_digit(#[trigger] s@[k])),
{
    let n: usize = s.len();
    let mut i: usize = 0;
    while i < n
        invariant
            i <= n,
            n == s@.len(),
            forall|k: int| 0 <= k < i ==> crate::strutil::spec_is_digit(#[trigger] s@[k]),
        decreases n - i,
    {
        let c = s[i];
        if c < '0' || c > '9' {
            return false;
        }
        i += 1;
    }
    true
}

/// The weight a token selects: the named weights by keyword, otherwise the
/// token read as a number, and normal weight for everything unreadable. A
/// token that does not mention a weight at all selects normal weight.
pub open spec fn spec_weight_of_token(t: Seq<char>) -> i32 {
    if !spec_is_font_weight(t) {
        WEIGHT_NORMAL
    } else if t == "normal"@ {
        WEIGHT_NORMAL
    } else if t == "bold"@ {
        WEIGHT_BOLD
    } else if t == "bolder"@ {
        WEIGHT_EXTRA_BOLD
    } else if t == "lighter"@ {
        WEIGHT_LIGHT
    } else {
        match spec_signed_numeral_value(t) {
            Option::Some(v) => if i32::MIN as int <= v <= i32::MAX as int {
                v as i32
            } else {
                WEIGHT_NORMAL
            },
            Option::None => WEIGHT_NORMAL,
        }
    }
}

fn weight_of_token(t: &[char]) -> (r: i32)
    ensures
        r == spec_weight_of_token(t@),
{
    if !is_font_weight_chars(t) {
        WEIGHT_NORMAL
    } else if chars_eq_str(t, "normal") {
        WEIGHT_NORMAL
    } else if chars_eq_str(t, "bold") {
        WEIGHT_BOLD
    } else if chars_eq_str(t, "bolder") {
        WEIGHT_EXTRA_BOLD
    } else if chars_eq_str(t, "lighter") {
        WEIGHT_LIGHT
    } else {
        match parse_i32_chars(t) {
            Option::Some(v) => v,
            Option::None => WEIGHT_NORMAL,
        }
    }
}

fn is_font_weight_chars(t: &[char]) -> (r: bool)
    ensures
        r == spec_is_font_weight(t@),
{
    chars_contain_str(t, "normal") || chars_contain_str(t, "bold") || chars_contain_str(
        t,
        "bolder",
    ) || chars_contain_str(t, "lighter") || chars_contain_str(t, "100") || chars_contain_str(
        t,
        "200",
    ) || chars_contain_str(t, "300") || chars_contain_str(t, "400") || chars_contain_str(t, "500")
        || chars_contain_str(t, "600") || chars_contain_str(t, "700") || chars_contain_str(
        t,
        "800",
    ) || chars_contain_str(t, "900")
}

/// The size a token selects: a token mentioning `px` is read as a decimal
/// pixel count with the `px` letters removed; everything else gives the
/// ten-pixel default.
pub open spec fn spec_size_of_token(t: Seq<char>) -> i64 {
    if spec_is_font_size(t) {
        match spec_parse_fixed(spec_remove_all(t, "px"@)) {
            Option::Some(v) => v as i64,
            Option::None => DEFAULT_FONT_SIZE,
        }
    } else {
        DEFAULT_FONT_SIZE
    }
}

fn size_of_token(t: &[char]) -> (r: i64)
    ensures
        r == spec_size_of_token(t@),
{
    if !chars_contain_str(t, "px") {
        return DEFAULT_FONT_SIZE;
    }
    let stripped = remove_all(t, "px");
    let s = stripped.as_slice();
    if s.len() > 0 && (s[0] == '-' || s[0] == '+') {
        let neg = s[0] == '-';
        let rest = crate::strutil::slice_suffix(s, 1);
        match parse_unsigned_fixed(rest) {
            Option::Some(v) => if neg {
                -v
            } else {
                v
            },
            Option::None => DEFAULT_FONT_SIZE,
        }
    } else {
        match parse_unsigned_fixed(s) {
            Option::Some(v) => v,
            Option::None => DEFAULT_FONT_SIZE,
        }
    }
}

/// Ghost value of a parsed font string.
pub open spec fn spec_parse_font(s: Seq<char>) -> FontModel {
    let toks = spec_split(s, ' ');
    if toks.len() == 5 {
        FontModel {
            weight: spec_weight_of_token(toks[2]),
            size: spec_size_of_token(toks[3]),
            family: Option::Some(toks[4]),
        }
    } else if toks.len() == 4 {
        FontModel {
            weight: spec_weight_of_token(toks[1]),
            size: spec_size_of_token(toks[2]),
            family: Option::Some(toks[3]),
        }
    } else if toks.len() == 3 {
        FontModel {
            weight: spec_weight_of_token(toks[0]),
            size: spec_size_of_token(toks[1]),
            family: Option::Some(toks[2]),
        }
    } else if toks.len() == 2 {
        FontModel {
            weight: WEIGHT_NORMAL,
            size: spec_size_of_token(toks[0]),
            family: Option::Some(toks[1]),
        }
    } else if toks.len() == 1 {
        FontModel {
            weight: WEIGHT_NORMAL,
            size: DEFAULT_FONT_SIZE,
            family: Option::Some(toks[0]),
        }
    } else {
        FontModel { weight: WEIGHT_NORMAL, size: DEFAULT_FONT_SIZE, family: Option::None }
    }
}

/// Parses a font string: tokens split on spaces are read by position, with
/// the counts of a five-token `style variant weight size family` form down
/// to a single family name. Weight and size tokens are content-sniffed and
/// malformed tokens degrade to the defaults.
pub fn parse_font(font: &str) -> (r: FontDescriptor)
    ensures
        r@ == spec_parse_font(font@),
{
    let cs = chars_of(font);
    let toks = split_chars(cs.as_slice(), ' ');
    proof {
        assert(toks.deep_view().len() == toks@.len());
        assert forall|k: int| 0 <= k < toks@.len() implies #[trigger] toks@[k]@ == spec_split(
            font@,
            ' ',
        )[k] by {
            assert(toks@[k]@ =~= toks.deep_view()[k]);
        }
    }
    let n = toks.len();
    if n == 5 {
        let weight = weight_of_token(toks[2].as_slice());
        let size = size_of_token(toks[3].as_slice());
        let family = string_from_chars(&toks[4]);
        FontDescriptor { weight, size, family: Option::Some(family) }
    } else if n == 4 {
        let weight = weight_of_token(toks[1].as_slice());
        let size = size_of_token(toks[2].as_slice());
        let family = string_from_chars(&toks[3]);
        FontDescriptor { weight, size, family: Option::Some(family) }
    } else if n == 3 {
        let weight = weight_of_token(toks[0].as_slice());
        let size = size_of_token(toks[1].as_slice());
        let family = string_from_chars(&toks[2]);
        FontDescriptor { weight, size, family: Option::Some(family) }
    } else if n == 2 {
        let size = size_of_token(toks[0].as_slice());
        let family = string_from_chars(&toks[1]);
        FontDescriptor { weight: WEIGHT_NORMAL, size, family: Option::Some(family) }
    } else if n == 1 {
        let family = string_from_chars(&toks[0]);
        FontDescriptor {
            weight: WEIGHT_NORMAL,
            size: DEFAULT_FONT_SIZE,
            family: Option::Some(family),
        }
    } else {
        FontDescriptor { weight: WEIGHT_NORMAL, size: DEFAULT_FONT_SIZE, family: Option::None }
    }
}

} // verus!
