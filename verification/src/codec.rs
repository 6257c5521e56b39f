//! The picture that passes between decoder and encoder, and the calls into
//! the two codecs.
//!
//! Decoding is done by the `image` crate and encoding by `mozjpeg`. What
//! either returns is not restated here: each result has a name, and the
//! contracts of the pipeline speak of the names.

use vstd::prelude::*;

verus! {

/// The largest width or height, in pixels, that a JPEG file can have.
pub const MAX_JPEG_DIMENSION: u32 = 65500;

/// Bytes that one pixel takes in a `RasterImage`.
pub const BYTES_PER_PIXEL: usize = 3;

/// A decoded picture: rows of 8-bit RGB pixels, top row first.
#[derive(Debug, PartialEq, Eq)]
pub struct RasterImage {
    pub width: u32,
    pub height: u32,
    pub pixels: Vec<u8>,
}

/// The mathematical content of a `RasterImage`.
pub struct RasterView {
    pub width: u32,
    pub height: u32,
    pub pixels: Seq<u8>,
}

impl RasterView {
    /// Whether there are as many bytes as the dimensions call for.
    pub open spec fn well_formed(self) -> bool {
        self.pixels.len() == self.width * self.height * BYTES_PER_PIXEL
    }

    /// Whether the picture can be written as JPEG: neither side is zero or
    /// over `MAX_JPEG_DIMENSION`.
    pub open spec fn fits_jpeg(self) -> bool {
        1 <= self.width <= MAX_JPEG_DIMENSION && 1 <= self.height <= MAX_JPEG_DIMENSION
    }
}

impl View for RasterImage {
    type V = RasterView;

    open spec fn view(&self) -> RasterView {
        RasterView { width: self.width, height: self.height, pixels: self.pixels@ }
    }
}

/// What the `image` crate decodes `bytes` to, taken as 8-bit RGB: the
/// picture, or the text of the decoder's error.
pub uninterp spec fn image_decoding(bytes: Seq<u8>) -> Result<RasterView, Seq<char>>;

/// What `mozjpeg` encodes the 8-bit RGB `pixels` of a picture of the given
/// size to at `quality`: the bytes of the JPEG file, or the text of the
/// encoder's error.
pub uninterp spec fn jpeg_encoding(pixels: Seq<u8>, width: u32, height: u32, quality: u8) -> Result<
    Seq<u8>,
    Seq<char>,
>;

/// The content of a decoder's answer.
pub open spec fn decoded_view(answer: Result<RasterImage, String>) -> Result<
    RasterView,
    Seq<char>,
> {
    match answer {
        Ok(picture) => Ok(picture@),
        Err(reason) => Err(reason@),
    }
}

/// The content of an encoder's answer.
pub open spec fn encoded_view(answer: Result<Vec<u8>, String>) -> Result<Seq<u8>, Seq<char>> {
    match answer {
        Ok(bytes) => Ok(bytes@),
        Err(reason) => Err(reason@),
    }
}

/// Calls `image::load_from_memory`, which guesses the format from the
/// content, and takes the picture as 8-bit RGB with
/// `image::DynamicImage::to_rgb8`. Trusted: the answer is the value the name
/// `image_decoding` stands for, which takes it that no decoding hook has
/// been registered with the `image` crate. Nothing is claimed of the
/// picture, not even that its size fits its dimensions.
#[verifier::external_body]
pub(crate) fn load_rgb8(bytes: &[u8]) -> (answer: Result<RasterImage, String>)
    ensures
        decoded_view(answer) == image_decoding(bytes@),
{
    match image::load_from_memory(bytes) {
        Ok(picture) => {
            let rgb = picture.to_rgb8();
            Ok(RasterImage { width: rgb.width(), height: rgb.height(), pixels: rgb.into_raw() })
        },
        Err(error) => Err(error.to_string()),
    }
}

/// Runs `mozjpeg::Compress` over one picture: RGB input of the given size,
/// the given quality, scan optimisation off, output to memory. The encoder
/// aborts on an empty or oversized picture and on too few rows, which
/// `requires` keeps out. Trusted: the answer is the value the name
/// `jpeg_encoding` stands for.
#[verifier::external_body]
pub(crate) fn compress_rgb8(pixels: &[u8], width: u32, height: u32, quality: u8) -> (answer: Result<
    Vec<u8>,
    String,
>)
    requires
        1 <= width <= MAX_JPEG_DIMENSION,
        1 <= height <= MAX_JPEG_DIMENSION,
        pixels@.len() == width * height * BYTES_PER_PIXEL,
    ensures
        encoded_view(answer) == jpeg_encoding(pixels@, width, height, quality),
{
    let mut comp = mozjpeg::Compress::new(mozjpeg::ColorSpace::JCS_RGB);
    comp.set_size(width as usize, height as usize);
    comp.set_quality(quality.into());
    comp.set_optimize_scans(false);
    let mut started = match comp.start_compress(Vec::new()) {
        Ok(started) => started,
        Err(error) => return Err(error.to_string()),
    };
    if let Err(error) = started.write_scanlines(pixels) {
        return Err(error.to_string());
    }
    match started.finish() {
        Ok(bytes) => Ok(bytes),
        Err(error) => Err(error.to_string()),
    }
}

} // verus!
