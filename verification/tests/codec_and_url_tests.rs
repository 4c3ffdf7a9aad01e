use canvas_core::codec::{TextDecoder, TextEncoder};
use canvas_core::encoding::{clamp_quality, to_data_url, EncodedFormat};

#[test]
fn utf8_round_trip() {
    let enc = TextEncoder::new("utf-8");
    assert_eq!(enc.encoding(), "UTF-8");
    let bytes = enc.encode("héllo");
    assert_eq!(bytes, "héllo".as_bytes());
    let dec = TextDecoder::new("utf-8");
    assert_eq!(dec.decode(&bytes), "héllo");
}

#[test]
fn unknown_labels_fall_back_to_utf8() {
    let enc = TextEncoder::new("no-such-encoding");
    assert_eq!(enc.encoding(), "UTF-8");
    let dec = TextDecoder::new("");
    assert_eq!(dec.encoding(), "UTF-8");
}

#[test]
fn labels_resolve_to_canonical_names() {
    let enc = TextEncoder::new("latin1");
    assert_eq!(enc.encoding(), "windows-1252");
    let bytes = enc.encode("é");
    assert_eq!(bytes, vec![0xE9]);
}

#[test]
fn decoder_strips_the_byte_order_mark() {
    let dec = TextDecoder::new("utf-8");
    assert_eq!(dec.decode(&[0xEF, 0xBB, 0xBF, b'h', b'i']), "hi");
    assert_eq!(dec.decode(&[]), "");
}

#[test]
fn data_url_wraps_encoded_bytes_in_base64() {
    assert_eq!(
        to_data_url("image/png", Some(vec![1, 2, 3])),
        "data:image/png;base64,AQID"
    );
    assert_eq!(
        to_data_url("image/jpeg", Some(b"hello".to_vec())),
        "data:image/jpeg;base64,aGVsbG8="
    );
}

#[test]
fn data_url_without_an_encoding_carries_literal_quotes() {
    assert_eq!(to_data_url("image/webp", None), "data:image/webp;base64,\"\"");
}

#[test]
fn quality_clamps_to_the_default() {
    assert_eq!(clamp_quality(101), 92);
    assert_eq!(clamp_quality(-1), 92);
    assert_eq!(clamp_quality(0), 0);
    assert_eq!(clamp_quality(100), 100);
    assert_eq!(clamp_quality(55), 55);
}

#[test]
fn mime_types_choose_the_encoded_format() {
    assert_eq!(EncodedFormat::from_mime("image/jpg"), EncodedFormat::Jpeg);
    assert_eq!(EncodedFormat::from_mime("image/jpeg"), EncodedFormat::Jpeg);
    assert_eq!(EncodedFormat::from_mime("image/webp"), EncodedFormat::Webp);
    assert_eq!(EncodedFormat::from_mime("image/gif"), EncodedFormat::Gif);
    assert_eq!(EncodedFormat::from_mime("image/heic"), EncodedFormat::Heif);
    assert_eq!(EncodedFormat::from_mime("image/png"), EncodedFormat::Png);
    assert_eq!(EncodedFormat::from_mime("anything"), EncodedFormat::Png);
}
