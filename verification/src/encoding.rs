//! Surface export: the data-URL assembly around the backend's image
//! encoder, and the quality and format vocabulary it uses. The backend
//! encodes the surface snapshot to bytes; this module clamps the requested
//! quality, chooses the encoded format from the requested content type, and
//! wraps the encoded bytes into a `data:` URL.

use vstd::prelude::*;

use base64::Engine;

use crate::strutil::{chars_eq_str, chars_of, string_from_chars};

verus! {

/// The base64 rendering of a byte sequence under the standard alphabet with
/// padding.
pub uninterp spec fn base64_standard_of(bytes: Seq<u8>) -> Seq<char>;

/// Relies on base64's standard general-purpose engine: the encoding of a
/// byte sequence depends on the bytes alone, and a padded rendering holds
/// four characters for every started group of three bytes.
#[verifier::external_body]
fn base64_encode_standard(bytes: &Vec<u8>) -> (r: String)
    ensures
        r@ == base64_standard_of(bytes@),
        r@.len() == 4 * ((bytes@.len() + 2) / 3),
{
    base64::engine::general_purpose::STANDARD.encode(bytes.as_slice())
}

/// An encoding quality clamped to the unit range; out-of-range requests
/// fall back to the default of 92.
pub open spec fn spec_clamp_quality(quality: int) -> int {
    if quality > 100 || quality < 0 {
        92
    } else {
        quality
    }
}

pub fn clamp_quality(quality: i32) -> (r: i32)
    ensures
        r as int == spec_clamp_quality(quality as int),
{
    if quality > 100 || quality < 0 {
        92
    } else {
        quality
    }
}

/// The formats the backend can encode a snapshot to.
#[derive(Clone, Copy, Debug, PartialEq, Eq, Structural)]
pub enum EncodedFormat {
    Png,
    Jpeg,
    Webp,
    Gif,
    Heif,
}

/// The encoded format a content type selects; unrecognized types fall back
/// to PNG.
pub open spec fn spec_encoded_format_of(mime: Seq<char>) -> EncodedFormat {
    if mime == "image/jpg"@ || mime == "image/jpeg"@ {
        EncodedFormat::Jpeg
    } else if mime == "image/webp"@ {
        EncodedFormat::Webp
    } else if mime == "image/gif"@ {
        EncodedFormat::Gif
    } else if mime == "image/heif"@ || mime == "image/heic"@ || mime == "image/heif-sequence"@
        || mime == "image/heic-sequence"@ {
        EncodedFormat::Heif
    } else {
        EncodedFormat::Png
    }
}

impl EncodedFormat {
    pub fn from_mime(mime: &str) -> (r: EncodedFormat)
        ensures
            r == spec_encoded_format_of(mime@),
    {
        let cs = chars_of(mime);
        let s = cs.as_slice();
        if chars_eq_str(s, "image/jpg") || chars_eq_str(s, "image/jpeg") {
            EncodedFormat::Jpeg
        } else if chars_eq_str(s, "image/webp") {
            EncodedFormat::Webp
        } else if chars_eq_str(s, "image/gif") {
            EncodedFormat::Gif
        } else if chars_eq_str(s, "image/heif") || chars_eq_str(s, "image/heic") || chars_eq_str(
            s,
            "image/heif-sequence",
        ) || chars_eq_str(s, "image/heic-sequence") {
            EncodedFormat::Heif
        } else {
            EncodedFormat::Png
        }
    }
}

/// The text of a data URL: the prefix names the requested content type, and
/// the payload is the base64 of the encoded snapshot, or a literal pair of
/// quotes when the backend produced no encoding.
pub open spec fn spec_data_url(format: Seq<char>, encoded: Option<Seq<u8>>) -> Seq<char> {
    "data:"@ + format + ";base64,"@ + (match encoded {
        Option::Some(d) => base64_standard_of(d),
        Option::None => "\"\""@,
    })
}

/// Builds the data URL for a surface snapshot that the backend encoded to
/// `encoded` under the requested content type.
pub fn to_data_url(format: &str, encoded: Option<Vec<u8>>) -> (r: String)
    ensures
        r@ == spec_data_url(format@, match encoded {
            Option::Some(d) => Option::Some(d@),
            Option::None => Option::None,
        }),
{
    let mut out = chars_of("data:");
    let mut fmt = chars_of(format);
    out.append(&mut fmt);
    let mut mid = chars_of(";base64,");
    out.append(&mut mid);
    match encoded {
        Option::Some(d) => {
            let b64 = base64_encode_standard(&d);
            let mut payload = chars_of(b64.as_str());
            out.append(&mut payload);
        },
        Option::None => {
            let mut payload = chars_of("\"\"");
            out.append(&mut payload);
        },
    }
    string_from_chars(&out)
}

} // verus!
