//! Image assets: decoded bitmaps held for the host, with the error-slot
//! protocol every asset operation follows (each operation clears the error
//! and either succeeds or records why it failed). Decoding and pixel work
//! are done by the image crate through the trusted items below; the
//! protocol around them is verified.

use vstd::prelude::*;

verus! {

/// Whether a byte buffer decodes as an image. Decoding depends on the bytes
/// alone.
pub uninterp spec fn image_decodes(bytes: Seq<u8>) -> bool;

/// Width in pixels of the decoded image.
pub uninterp spec fn decoded_width_of(bytes: Seq<u8>) -> u32;

/// Height in pixels of the decoded image.
pub uninterp spec fn decoded_height_of(bytes: Seq<u8>) -> u32;

/// The decoded image's pixels, converted to tightly packed RGBA rows.
pub uninterp spec fn decoded_rgba_of(bytes: Seq<u8>) -> Seq<u8>;

/// The image crate's decoded bitmap, held opaquely.
#[verifier::external_type_specification]
#[verifier::external_body]
pub struct ExDynamicImage(image::DynamicImage);

/// Relies on image::load_from_memory, DynamicImage::to_rgba8,
/// ImageBuffer::width, ImageBuffer::height and ImageBuffer::into_raw:
/// whether and to what a buffer decodes depends on the buffer alone, and
/// the RGBA buffer holds four bytes for each pixel of the decoded size.
#[verifier::external_body]
pub(crate) fn decode_rgba(bytes: &[u8]) -> (r: Option<(u32, u32, Vec<u8>)>)
    ensures
        match r {
            Option::Some(t) => {
                &&& image_decodes(bytes@)
                &&& t.0 == decoded_width_of(bytes@)
                &&& t.1 == decoded_height_of(bytes@)
                &&& t.2@ == decoded_rgba_of(bytes@)
                &&& t.2@.len() == 4 * (t.0 as int) * (t.1 as int)
            },
            Option::None => !image_decodes(bytes@),
        },
{
    match image::load_from_memory(bytes) {
        Result::Ok(img) => {
            let rgba = img.to_rgba8();
            let w = rgba.width();
            let h = rgba.height();
            Option::Some((w, h, rgba.into_raw()))
        },
        Result::Err(_) => Option::None,
    }
}

/// Relies on image::load_from_memory: success depends on the bytes alone;
/// the failure message comes from the decoder's error.
#[verifier::external_body]
fn decode_image(bytes: &[u8]) -> (r: Result<image::DynamicImage, String>)
    ensures
        r is Ok <==> image_decodes(bytes@),
{
    image::load_from_memory(bytes).map_err(|e| e.to_string())
}

/// Relies on DynamicImage::width.
#[verifier::external_body]
fn image_width(img: &image::DynamicImage) -> (r: u32) {
    img.width()
}

/// Relies on DynamicImage::height.
#[verifier::external_body]
fn image_height(img: &image::DynamicImage) -> (r: u32) {
    img.height()
}

/// Relies on DynamicImage::resize: a copy resized to fit within the given
/// bounds, keeping the aspect ratio, resampled with the triangle filter.
#[verifier::external_body]
fn image_resize(img: &image::DynamicImage, x: u32, y: u32) -> (r: image::DynamicImage) {
    img.resize(x, y, image::imageops::FilterType::Triangle)
}

/// Relies on DynamicImage::fliph: a horizontally mirrored copy.
#[verifier::external_body]
fn image_flip_h(img: &image::DynamicImage) -> (r: image::DynamicImage) {
    img.fliph()
}

/// Relies on DynamicImage::flipv: a vertically mirrored copy.
#[verifier::external_body]
fn image_flip_v(img: &image::DynamicImage) -> (r: image::DynamicImage) {
    img.flipv()
}

/// Relies on DynamicImage::to_rgba8 and ImageBuffer::into_raw: the image's
/// pixels as tightly packed RGBA rows.
#[verifier::external_body]
fn image_rgba_bytes(img: &image::DynamicImage) -> (r: Vec<u8>) {
    img.to_rgba8().into_raw()
}

/// The formats an asset can be saved in.
#[derive(Clone, Copy, Debug, PartialEq, Eq, Structural)]
pub enum OutputFormat {
    Jpg,
    Png,
    Ico,
    Bmp,
    Tiff,
}

impl From<u32> for OutputFormat {
    /// The save format a numeric selector picks; unknown selectors fall
    /// back to JPEG.
    fn from(format: u32) -> (r: OutputFormat) {
        match format {
            1u32 => OutputFormat::Png,
            2u32 => OutputFormat::Ico,
            3u32 => OutputFormat::Bmp,
            4u32 => OutputFormat::Tiff,
            _ => OutputFormat::Jpg,
        }
    }
}

impl vstd::std_specs::convert::FromSpecImpl<u32> for OutputFormat {
    open spec fn obeys_from_spec() -> bool {
        true
    }

    open spec fn from_spec(format: u32) -> OutputFormat {
        if format == 1 {
            OutputFormat::Png
        } else if format == 2 {
            OutputFormat::Ico
        } else if format == 3 {
            OutputFormat::Bmp
        } else if format == 4 {
            OutputFormat::Tiff
        } else {
            OutputFormat::Jpg
        }
    }
}

/// How raw pixel buffers are laid out.
#[derive(Clone, Copy, Debug, PartialEq, Eq, Structural)]
pub enum PixelType {
    Rgb,
    Rgba,
}

/// An image slot and an error slot; at most one of the two is meaningfully
/// set after every operation.
#[derive(Debug)]
pub struct NativeImageAsset {
    image: Option<image::DynamicImage>,
    error: Option<String>,
}

/// Ghost value of an asset: whether an image is loaded, and the pending
/// error message.
#[verifier::ext_equal]
pub ghost struct AssetModel {
    pub has_image: bool,
    pub error: Option<Seq<char>>,
}

impl View for NativeImageAsset {
    type V = AssetModel;

    closed spec fn view(&self) -> AssetModel {
        AssetModel {
            has_image: self.image is Some,
            error: match self.error {
                Option::Some(ref e) => Option::Some(e@),
                Option::None => Option::None,
            },
        }
    }
}

impl NativeImageAsset {
    /// A fresh asset: no image, no error.
    pub fn new() -> (r: NativeImageAsset)
        ensures
            r@ == (AssetModel { has_image: false, error: Option::None }),
    {
        NativeImageAsset { image: Option::None, error: Option::None }
    }

    /// The pending error message, if any.
    pub fn error(&self) -> (r: Option<String>)
        ensures
            match r {
                Option::Some(e) => self@.error == Option::Some(e@),
                Option::None => self@.error is None,
            },
    {
        match &self.error {
            Option::Some(e) => Option::Some(e.clone()),
            Option::None => Option::None,
        }
    }

    /// Width of the loaded image, zero when none is loaded.
    pub fn width(&self) -> (r: u32)
        ensures
            !self@.has_image ==> r == 0,
    {
        match &self.image {
            Option::Some(img) => image_width(img),
            Option::None => 0,
        }
    }

    /// Height of the loaded image, zero when none is loaded.
    pub fn height(&self) -> (r: u32)
        ensures
            !self@.has_image ==> r == 0,
    {
        match &self.image {
            Option::Some(img) => image_height(img),
            Option::None => 0,
        }
    }

    /// Replaces the loaded image with the decoding of `buf`. Returns one on
    /// success; on failure the asset holds no image and the decoder's
    /// message fills the error slot.
    pub fn load_from_bytes(&mut self, buf: &[u8]) -> (r: u32)
        ensures
            image_decodes(buf@) ==> final(self)@ == (AssetModel {
                has_image: true,
                error: Option::None,
            }) && r == 1,
            !image_decodes(buf@) ==> final(self)@.has_image == false && final(self)@.error is Some
                && r == 0,
    {
        self.error = Option::None;
        self.image = Option::None;
        match decode_image(buf) {
            Result::Ok(img) => {
                self.image = Option::Some(img);
                1
            },
            Result::Err(e) => {
                self.error = Option::Some(e);
                0
            },
        }
    }

    /// Replaces the image with a copy resized to fit in `x` by `y`; with no
    /// image loaded, only the error slot is set.
    pub fn scale(&mut self, x: u32, y: u32)
        ensures
            final(self)@.has_image == old(self)@.has_image,
            old(self)@.has_image ==> final(self)@.error is None,
            !old(self)@.has_image ==> final(self)@.error is Some,
    {
        self.error = Option::None;
        match &self.image {
            Option::Some(img) => {
                let resized = image_resize(img, x, y);
                self.image = Option::Some(resized);
            },
            Option::None => {
                self.error = Option::Some("No Image loaded".to_owned());
            },
        }
    }

    /// Replaces the image with a horizontally mirrored copy; with no image
    /// loaded, only the error slot is set.
    pub fn flip_x(&mut self)
        ensures
            final(self)@.has_image == old(self)@.has_image,
            old(self)@.has_image ==> final(self)@.error is None,
            !old(self)@.has_image ==> final(self)@.error is Some,
    {
        self.error = Option::None;
        match &self.image {
            Option::Some(img) => {
                let flipped = image_flip_h(img);
                self.image = Option::Some(flipped);
            },
            Option::None => {
                self.error = Option::Some("No Image loaded".to_owned());
            },
        }
    }

    /// Replaces the image with a vertically mirrored copy; with no image
    /// loaded, only the error slot is set.
    pub fn flip_y(&mut self)
        ensures
            final(self)@.has_image == old(self)@.has_image,
            old(self)@.has_image ==> final(self)@.error is None,
            !old(self)@.has_image ==> final(self)@.error is Some,
    {
        self.error = Option::None;
        match &self.image {
            Option::Some(img) => {
                let flipped = image_flip_v(img);
                self.image = Option::Some(flipped);
            },
            Option::None => {
                self.error = Option::Some("No Image loaded".to_owned());
            },
        }
    }

    /// The loaded image's pixels as tightly packed RGBA rows; with no image
    /// loaded, an empty buffer, and only the error slot is set.
    pub fn bytes(&mut self) -> (r: Vec<u8>)
        ensures
            final(self)@.has_image == old(self)@.has_image,
            old(self)@.has_image ==> final(self)@.error is None,
            !old(self)@.has_image ==> final(self)@.error is Some && r@.len() == 0,
    {
        self.error = Option::None;
        match &self.image {
            Option::Some(img) => image_rgba_bytes(img),
            Option::None => {
                self.error = Option::Some("No Image loaded".to_owned());
                Vec::new()
            },
        }
    }
}

} // verus!
