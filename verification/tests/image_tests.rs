use canvas_core::context::CanvasNative;
use canvas_core::image_asset::{NativeImageAsset, OutputFormat};
use canvas_core::ops::DrawOp;

/// A 2-by-1 24-bit BMP: a red pixel then a blue pixel.
fn tiny_bmp() -> Vec<u8> {
    let mut b: Vec<u8> = Vec::new();
    b.extend_from_slice(b"BM");
    b.extend_from_slice(&62u32.to_le_bytes());
    b.extend_from_slice(&[0, 0, 0, 0]);
    b.extend_from_slice(&54u32.to_le_bytes());
    b.extend_from_slice(&40u32.to_le_bytes());
    b.extend_from_slice(&2i32.to_le_bytes());
    b.extend_from_slice(&1i32.to_le_bytes());
    b.extend_from_slice(&1u16.to_le_bytes());
    b.extend_from_slice(&24u16.to_le_bytes());
    b.extend_from_slice(&0u32.to_le_bytes());
    b.extend_from_slice(&8u32.to_le_bytes());
    b.extend_from_slice(&0u32.to_le_bytes());
    b.extend_from_slice(&0u32.to_le_bytes());
    b.extend_from_slice(&0u32.to_le_bytes());
    b.extend_from_slice(&0u32.to_le_bytes());
    // One row, bottom-up, BGR with two bytes of padding.
    b.extend_from_slice(&[0, 0, 255, 255, 0, 0, 0, 0]);
    b
}

#[test]
fn assets_load_decode_and_report_size() {
    let mut a = NativeImageAsset::new();
    assert!(a.error().is_none());
    assert_eq!(a.width(), 0);
    assert_eq!(a.load_from_bytes(&tiny_bmp()), 1);
    assert!(a.error().is_none());
    assert_eq!(a.width(), 2);
    assert_eq!(a.height(), 1);
    let px = a.bytes();
    assert_eq!(px, vec![255, 0, 0, 255, 0, 0, 255, 255]);
}

#[test]
fn undecodable_bytes_fill_the_error_slot() {
    let mut a = NativeImageAsset::new();
    assert_eq!(a.load_from_bytes(b"not an image"), 0);
    assert!(a.error().is_some());
    assert_eq!(a.width(), 0);
}

#[test]
fn operations_without_an_image_set_the_error() {
    let mut a = NativeImageAsset::new();
    a.flip_x();
    assert!(a.error().is_some());
    a.load_from_bytes(&tiny_bmp());
    a.flip_x();
    assert!(a.error().is_none());
    // Flipping swaps the two pixels.
    assert_eq!(a.bytes(), vec![0, 0, 255, 255, 255, 0, 0, 255]);
    a.flip_y();
    assert!(a.error().is_none());
    a.scale(1, 1);
    assert!(a.error().is_none());
    assert_eq!(a.width(), 1);
}

#[test]
fn output_formats_come_from_numeric_selectors() {
    assert_eq!(OutputFormat::from(1), OutputFormat::Png);
    assert_eq!(OutputFormat::from(2), OutputFormat::Ico);
    assert_eq!(OutputFormat::from(3), OutputFormat::Bmp);
    assert_eq!(OutputFormat::from(4), OutputFormat::Tiff);
    assert_eq!(OutputFormat::from(0), OutputFormat::Jpg);
    assert_eq!(OutputFormat::from(99), OutputFormat::Jpg);
}

#[test]
fn encoded_image_draws_decode_first() {
    let mut c = CanvasNative::new(100, 100, 10000);
    c.draw_image_encoded(b"garbage", 0, 0);
    assert_eq!(c.surface.ops.len(), 0);
    c.draw_image_encoded(&tiny_bmp(), 10000, 20000);
    assert_eq!(c.surface.ops.len(), 1);
    match &c.surface.ops[0] {
        DrawOp::DrawImage { width, height, pixels, .. } => {
            assert_eq!((*width, *height), (2, 1));
            assert_eq!(pixels.as_slice(), &[255, 0, 0, 255, 0, 0, 255, 255]);
        }
        other => panic!("expected an image draw, got {other:?}"),
    }
}
