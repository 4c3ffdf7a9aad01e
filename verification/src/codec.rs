//! The text codec: encoding and decoding byte buffers against a named
//! character encoding. The encoding work itself is done by the encoding_rs
//! crate through the trusted items below; this module keeps the label
//! resolution protocol and the encoder/decoder objects.

use vstd::prelude::*;

use vstd::string::StringSliceAdditionalSpecFns;

verus! {

/// Input size cap for the encoding calls: the outside encoder panics when
/// its buffer size calculation overflows the machine word, so inputs are
/// kept far below that.
pub const CODEC_INPUT_LIMIT: u64 = 0x0400_0000_0000_0000;

/// The canonical encoding name a label resolves to, with UTF-8 for unknown
/// labels.
pub uninterp spec fn canonical_name_of(label: Seq<char>) -> Seq<char>;

/// The bytes a text encodes to under the encoding named `name`.
pub uninterp spec fn encoded_bytes_of(name: Seq<char>, text: Seq<char>) -> Seq<u8>;

/// The text a byte buffer decodes to under the encoding named `name`, after
/// removing a byte-order mark.
pub uninterp spec fn decoded_text_of(name: Seq<char>, bytes: Seq<u8>) -> Seq<char>;

/// Relies on encoding_rs's `Encoding::for_label` and `Encoding::name`:
/// a label resolves to one encoding, whose canonical name this returns;
/// unknown labels fall back to UTF-8.
#[verifier::external_body]
fn resolve_encoding_name(label: &str) -> (r: String)
    ensures
        r@ == canonical_name_of(label@),
{
    let enc = encoding_rs::Encoding::for_label(label.as_bytes()).unwrap_or(
        encoding_rs::UTF_8.output_encoding(),
    );
    enc.name().to_string()
}

/// Relies on encoding_rs's `Encoding::for_label` and `Encoding::encode`:
/// the encoded bytes depend on the encoding and the text alone, and empty
/// text encodes to no bytes. The length bound keeps out the inputs on which
/// the encoder's buffer arithmetic would overflow and panic.
#[verifier::external_body]
fn encode_with(name: &str, text: &str) -> (r: Vec<u8>)
    requires
        text.spec_bytes().len() <= CODEC_INPUT_LIMIT,
    ensures
        r@ == encoded_bytes_of(name@, text@),
        text@.len() == 0 ==> r@.len() == 0,
{
    let enc = encoding_rs::Encoding::for_label(name.as_bytes()).unwrap_or(
        encoding_rs::UTF_8.output_encoding(),
    );
    enc.encode(text).0.into_owned()
}

/// Relies on encoding_rs's `Encoding::for_label` and
/// `Encoding::decode_with_bom_removal`: the decoded text depends on the
/// encoding and the bytes alone, and no bytes decode to empty text. The
/// length bound keeps out the inputs on which the decoder's buffer
/// arithmetic would overflow and panic.
#[verifier::external_body]
fn decode_with(name: &str, bytes: &[u8]) -> (r: String)
    requires
        bytes@.len() <= CODEC_INPUT_LIMIT,
    ensures
        r@ == decoded_text_of(name@, bytes@),
        bytes@.len() == 0 ==> r@.len() == 0,
{
    let enc = encoding_rs::Encoding::for_label(name.as_bytes()).unwrap_or(
        encoding_rs::UTF_8.output_encoding(),
    );
    enc.decode_with_bom_removal(bytes).0.into_owned()
}

/// A text encoder bound to one encoding, chosen by label at construction;
/// unknown labels fall back to UTF-8.
#[derive(Debug)]
pub struct TextEncoder {
    encoding_name: String,
}

impl View for TextEncoder {
    type V = Seq<char>;

    closed spec fn view(&self) -> Seq<char> {
        self.encoding_name@
    }
}

impl TextEncoder {
    pub fn new(encoding: &str) -> (r: TextEncoder)
        ensures
            r@ == canonical_name_of(encoding@),
    {
        TextEncoder { encoding_name: resolve_encoding_name(encoding) }
    }

    /// The bytes of `text` under this encoder's encoding.
    pub fn encode(&self, text: &str) -> (r: Vec<u8>)
        requires
            text.spec_bytes().len() <= CODEC_INPUT_LIMIT,
        ensures
            r@ == encoded_bytes_of(self@, text@),
            text@.len() == 0 ==> r@.len() == 0,
    {
        encode_with(self.encoding_name.as_str(), text)
    }

    /// The canonical name of this encoder's encoding.
    pub fn encoding(&self) -> (r: String)
        ensures
            r@ == self@,
    {
        self.encoding_name.clone()
    }
}

/// A text decoder bound to one encoding, chosen by label at construction;
/// unknown labels fall back to UTF-8.
#[derive(Debug)]
pub struct TextDecoder {
    encoding_name: String,
}

impl View for TextDecoder {
    type V = Seq<char>;

    closed spec fn view(&self) -> Seq<char> {
        self.encoding_name@
    }
}

impl TextDecoder {
    pub fn new(decoding: &str) -> (r: TextDecoder)
        ensures
            r@ == canonical_name_of(decoding@),
    {
        TextDecoder { encoding_name: resolve_encoding_name(decoding) }
    }

    /// The text of `data` under this decoder's encoding, with a byte-order
    /// mark removed.
    pub fn decode(&self, data: &[u8]) -> (r: String)
        requires
            data@.len() <= CODEC_INPUT_LIMIT,
        ensures
            r@ == decoded_text_of(self@, data@),
            data@.len() == 0 ==> r@.len() == 0,
    {
        decode_with(self.encoding_name.as_str(), data)
    }

    /// The canonical name of this decoder's encoding.
    pub fn encoding(&self) -> (r: String)
        ensures
            r@ == self@,
    {
        self.encoding_name.clone()
    }
}

} // verus!
