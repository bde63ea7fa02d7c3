//! Reference-image bytes: choosing the re-encoding, the image codec calls, and
//! the base64 text that is finally sent.

use vstd::prelude::*;
use base64::Engine;
use image::{DynamicImage, ImageEncoder};
use crate::text::{concat2, owned};

verus! {

#[verifier::external_type_specification]
#[verifier::external_body]
pub struct ExDynamicImage(DynamicImage);

/// The base64 alphabet: `A`-`Z`, `a`-`z`, `0`-`9`, `+`, `/`.
pub open spec fn base64_symbol(i: int) -> char {
    if i < 26 {
        (65 + i) as char
    } else if i < 52 {
        (97 + i - 26) as char
    } else if i < 62 {
        (48 + i - 52) as char
    } else if i == 62 {
        '+'
    } else {
        '/'
    }
}

/// Standard base64 with `=` padding: each three bytes become four symbols.
pub open spec fn base64_encode(b: Seq<u8>) -> Seq<char>
    decreases b.len(),
{
    if b.len() >= 3 {
        seq![
            base64_symbol(b[0] as int / 4),
            base64_symbol((b[0] as int % 4) * 16 + b[1] as int / 16),
            base64_symbol((b[1] as int % 16) * 4 + b[2] as int / 64),
            base64_symbol(b[2] as int % 64),
        ] + base64_encode(b.skip(3))
    } else if b.len() == 2 {
        seq![
            base64_symbol(b[0] as int / 4),
            base64_symbol((b[0] as int % 4) * 16 + b[1] as int / 16),
            base64_symbol((b[1] as int % 16) * 4),
            '=',
        ]
    } else if b.len() == 1 {
        seq![base64_symbol(b[0] as int / 4), base64_symbol((b[0] as int % 4) * 16), '=', '=']
    } else {
        seq![]
    }
}

/// `base64::engine::general_purpose::STANDARD.encode`: standard alphabet, padded.
#[verifier::external_body]
fn base64_standard(bytes: &[u8]) -> (r: String)
    ensures
        r@ == base64_encode(bytes@),
{
    base64::engine::general_purpose::STANDARD.encode(bytes)
}

/// How a compressed reference is re-encoded.
pub enum OutputEncoding {
    /// JPEG input is written back with the JPEG encoder as it stands.
    Jpeg,
    /// Anything else (PNG, WebP, GIF, ...) is flattened to RGB and written as JPEG.
    RgbJpeg,
}

/// The input starts like a JPEG file (and has at least four bytes).
pub open spec fn is_jpeg_header(b: Seq<u8>) -> bool {
    b.len() >= 4 && b[0] == 0xff && b[1] == 0xd8 && b[2] == 0xff
}

/// The encoding that the input's leading bytes call for.
pub open spec fn encoding_for(b: Seq<u8>) -> OutputEncoding {
    if is_jpeg_header(b) {
        OutputEncoding::Jpeg
    } else {
        OutputEncoding::RgbJpeg
    }
}

/// Chooses the re-encoding from the input's leading bytes: JPEG stays JPEG,
/// everything else (PNG, WebP, GIF, ...) becomes an RGB JPEG.
pub fn output_encoding(bytes: &[u8]) -> (r: OutputEncoding)
    ensures
        r == encoding_for(bytes@),
{
    if bytes.len() >= 4 && bytes[0] == 0xff && bytes[1] == 0xd8 && bytes[2] == 0xff {
        OutputEncoding::Jpeg
    } else {
        OutputEncoding::RgbJpeg
    }
}

/// The longest edge, in pixels, that an uploaded reference keeps.
pub fn max_upload_edge() -> (r: u32)
    ensures
        r == 1024,
{
    1024
}

/// JPEG quality of re-encoded references.
pub fn jpeg_quality() -> (r: u8)
    ensures
        r == 85,
{
    85
}

/// Whether an image of this size must be scaled down to fit `max_edge`.
pub fn needs_downscale(width: u32, height: u32, max_edge: u32) -> (r: bool)
    ensures
        r == (width > max_edge || height > max_edge),
{
    let long_edge = if width >= height {
        width
    } else {
        height
    };
    long_edge > max_edge
}

/// What `image::load_from_memory` makes of these bytes: the decoded image, or
/// the text of its error.
pub uninterp spec fn image_decoding(bytes: Seq<u8>) -> Result<DynamicImage, Seq<char>>;

/// A decoding result with its error text taken by view.
pub open spec fn decoded_view(r: Result<DynamicImage, String>) -> Result<DynamicImage, Seq<char>> {
    match r {
        Ok(img) => Ok(img),
        Err(e) => Err(e@),
    }
}

/// `image::load_from_memory`, its error as text: the result named by `image_decoding`.
#[verifier::external_body]
fn load_image(bytes: &[u8]) -> (r: Result<DynamicImage, String>)
    ensures
        decoded_view(r) == image_decoding(bytes@),
{
    match image::load_from_memory(bytes) {
        Ok(img) => Ok(img),
        Err(e) => Err(e.to_string()),
    }
}

/// The width and height that `DynamicImage::width` and `DynamicImage::height`
/// report for an image.
pub uninterp spec fn image_size(img: DynamicImage) -> (u32, u32);

/// `DynamicImage::width` and `DynamicImage::height`: the image's size, named by
/// `image_size`.
#[verifier::external_body]
fn image_dimensions(img: &DynamicImage) -> (r: (u32, u32))
    ensures
        r == image_size(*img),
{
    (img.width(), img.height())
}

/// The image that `DynamicImage::resize` with the Lanczos3 filter makes of an
/// image and a pair of bounds.
pub uninterp spec fn resized_image(img: DynamicImage, width: u32, height: u32) -> DynamicImage;

/// The size that `DynamicImage::resize` gives an image of size `size` within the
/// bounds `width` by `height` (aspect ratio kept, computed in floating point).
pub uninterp spec fn resized_size(size: (u32, u32), width: u32, height: u32) -> (u32, u32);

/// `DynamicImage::resize` with the Lanczos3 filter. The result is named by
/// `resized_image`, its size by `resized_size`; of that size the claims are the
/// ones its documentation and source make: bounds equal to the image's own size
/// leave the size as it is (the image is cloned); any other bounds give each side
/// at least one pixel; and bounds of at least one pixel are not exceeded. The
/// floating-point scaling itself is not stated.
#[verifier::external_body]
fn resize_image(img: &DynamicImage, width: u32, height: u32) -> (r: DynamicImage)
    ensures
        r == resized_image(*img, width, height),
        image_size(r) == resized_size(image_size(*img), width, height),
        image_size(*img) != (width, height) ==> image_size(r).0 >= 1 && image_size(r).1 >= 1,
        width >= 1 && height >= 1 ==> 1 <= image_size(r).0 <= width && 1 <= image_size(r).1 <= height,
        image_size(*img) == (width, height) ==> image_size(r) == (width, height),
{
    img.resize(width, height, image::imageops::FilterType::Lanczos3)
}

/// The bytes, or the error text, that `DynamicImage::write_with_encoder` with
/// `JpegEncoder::new_with_quality(quality)` produces for an image.
pub uninterp spec fn jpeg_encoding(img: DynamicImage, quality: u8) -> Result<Seq<u8>, Seq<char>>;

/// The bytes, or the error text, that `DynamicImage::to_rgb8` followed by
/// `ImageEncoder::write_image` of `JpegEncoder::new_with_quality(quality)` with
/// `Rgb8` pixels produces for an image.
pub uninterp spec fn rgb_jpeg_encoding(img: DynamicImage, quality: u8) -> Result<Seq<u8>, Seq<char>>;

/// An encoder's result with the bytes and the error text taken by view.
pub open spec fn bytes_view(r: Result<Vec<u8>, String>) -> Result<Seq<u8>, Seq<char>> {
    match r {
        Ok(b) => Ok(b@),
        Err(e) => Err(e@),
    }
}

/// `DynamicImage::write_with_encoder` with `JpegEncoder::new_with_quality`: the
/// result named by `jpeg_encoding`.
#[verifier::external_body]
fn write_jpeg(img: &DynamicImage, quality: u8) -> (r: Result<Vec<u8>, String>)
    ensures
        bytes_view(r) == jpeg_encoding(*img, quality),
{
    let mut out = std::io::Cursor::new(Vec::new());
    let encoder = image::codecs::jpeg::JpegEncoder::new_with_quality(&mut out, quality);
    match img.write_with_encoder(encoder) {
        Ok(()) => Ok(out.into_inner()),
        Err(e) => Err(e.to_string()),
    }
}

/// `DynamicImage::to_rgb8` then `ImageEncoder::write_image` of a
/// `JpegEncoder::new_with_quality` with `Rgb8` pixels: the result named by
/// `rgb_jpeg_encoding`.
#[verifier::external_body]
fn write_rgb_jpeg(img: &DynamicImage, quality: u8) -> (r: Result<Vec<u8>, String>)
    ensures
        bytes_view(r) == rgb_jpeg_encoding(*img, quality),
{
    let rgb = img.to_rgb8();
    let mut out = std::io::Cursor::new(Vec::new());
    let encoder = image::codecs::jpeg::JpegEncoder::new_with_quality(&mut out, quality);
    match encoder.write_image(rgb.as_raw(), rgb.width(), rgb.height(), image::ExtendedColorType::Rgb8) {
        Ok(()) => Ok(out.into_inner()),
        Err(e) => Err(e.to_string()),
    }
}

/// A decoding as reported: the decoded image, or "decode failed: " followed by
/// the codec's message.
pub open spec fn reported_decoding(decoded: Result<DynamicImage, Seq<char>>) -> Result<DynamicImage, Seq<char>> {
    match decoded {
        Ok(img) => Ok(img),
        Err(e) => Err("decode failed: "@ + e),
    }
}

/// What decoding reference bytes gives (see [`reported_decoding`]).
pub open spec fn decode_outcome(bytes: Seq<u8>) -> Result<DynamicImage, Seq<char>> {
    reported_decoding(image_decoding(bytes))
}

/// Reports a decoding: the image as it is, a codec error after "decode failed: ".
pub fn report_decoding(decoded: Result<DynamicImage, String>) -> (r: Result<DynamicImage, String>)
    ensures
        decoded_view(r) == reported_decoding(decoded_view(decoded)),
{
    match decoded {
        Ok(img) => Ok(img),
        Err(e) => Err(concat2("decode failed: ", e.as_str())),
    }
}

/// Decodes reference bytes; a failure reads "decode failed: " and the codec's message.
pub fn decode_image(bytes: &[u8]) -> (r: Result<DynamicImage, String>)
    ensures
        decoded_view(r) == decode_outcome(bytes@),
{
    report_decoding(load_image(bytes))
}

/// A re-encoded reference with its bytes, MIME type and error text taken by view.
pub open spec fn upload_view(r: Result<(Vec<u8>, String), String>) -> Result<(Seq<u8>, Seq<char>), Seq<char>> {
    match r {
        Ok(out) => Ok((out.0@, out.1@)),
        Err(e) => Err(e@),
    }
}

/// An encoder's result as uploaded: the bytes labelled "image/jpeg", or the
/// encoder's error after "jpeg encode failed: ".
pub open spec fn jpeg_upload(encoded: Result<Seq<u8>, Seq<char>>) -> Result<(Seq<u8>, Seq<char>), Seq<char>> {
    match encoded {
        Ok(b) => Ok((b, "image/jpeg"@)),
        Err(e) => Err("jpeg encode failed: "@ + e),
    }
}

/// What re-encoding an image for upload gives, where its original bytes are
/// `original`: the JPEG encoder for JPEG input and the RGB JPEG encoder for any
/// other, both at quality 85, labelled as [`jpeg_upload`] says.
pub open spec fn upload_encoding(original: Seq<u8>, img: DynamicImage) -> Result<(Seq<u8>, Seq<char>), Seq<char>> {
    jpeg_upload(
        match encoding_for(original) {
            OutputEncoding::Jpeg => jpeg_encoding(img, 85),
            OutputEncoding::RgbJpeg => rgb_jpeg_encoding(img, 85),
        },
    )
}

/// Labels an encoder's result for upload (see [`jpeg_upload`]).
pub fn label_jpeg_upload(encoded: Result<Vec<u8>, String>) -> (r: Result<(Vec<u8>, String), String>)
    ensures
        upload_view(r) == jpeg_upload(bytes_view(encoded)),
{
    match encoded {
        Ok(b) => Ok((b, owned("image/jpeg"))),
        Err(e) => Err(concat2("jpeg encode failed: ", e.as_str())),
    }
}

/// Re-encodes an image as JPEG at quality 85 (JPEG input through the JPEG
/// encoder, any other through RGB), giving the bytes with their MIME type, or the
/// failure after "jpeg encode failed: ".
pub fn encode_for_upload(original: &[u8], img: &DynamicImage) -> (r: Result<(Vec<u8>, String), String>)
    ensures
        upload_view(r) == upload_encoding(original@, *img),
{
    let quality = jpeg_quality();
    let encoded = match output_encoding(original) {
        OutputEncoding::Jpeg => write_jpeg(img, quality),
        OutputEncoding::RgbJpeg => write_rgb_jpeg(img, quality),
    };
    label_jpeg_upload(encoded)
}

/// The size and longest edge of an image whose size exceeds `max_edge`; nothing
/// for an image that fits.
pub open spec fn downscale_of(size: (u32, u32), max_edge: u32) -> Option<(u32, u32, u32)> {
    if size.0 > max_edge || size.1 > max_edge {
        Some((size.0, size.1, if size.0 >= size.1 { size.0 } else { size.1 }))
    } else {
        None
    }
}

/// The size of a decoded image that exceeds `max_edge`, with its longest edge:
/// `Some((width, height, long_edge))` where it must be scaled down, `None` where it fits.
pub fn downscale_request(img: &DynamicImage, max_edge: u32) -> (r: Option<(u32, u32, u32)>)
    ensures
        r == downscale_of(image_size(*img), max_edge),
{
    let (width, height) = image_dimensions(img);
    if needs_downscale(width, height, max_edge) {
        let long_edge = if width >= height {
            width
        } else {
            height
        };
        Some((width, height, long_edge))
    } else {
        None
    }
}

/// The image that is encoded: the one resized to `target` where a target is
/// given, else the image itself.
pub open spec fn scaled_image(img: DynamicImage, target: Option<(u32, u32)>) -> DynamicImage {
    match target {
        Some((width, height)) => resized_image(img, width, height),
        None => img,
    }
}

/// Scales a decoded image to `target` where one is given, then re-encodes it as
/// [`encode_for_upload`] does.
pub fn compress_decoded(original: &[u8], img: DynamicImage, target: Option<(u32, u32)>) -> (r: Result<
    (Vec<u8>, String),
    String,
>)
    ensures
        upload_view(r) == upload_encoding(original@, scaled_image(img, target)),
{
    match target {
        Some((width, height)) => {
            let resized = resize_image(&img, width, height);
            encode_for_upload(original, &resized)
        },
        None => encode_for_upload(original, &img),
    }
}

/// The bytes that are sent for a local reference: the compressed image where
/// compression succeeded, else the file's own bytes.
pub open spec fn upload_bytes(raw: Seq<u8>, compressed: Result<(Vec<u8>, String), String>) -> Seq<u8> {
    match compressed {
        Ok(c) => c.0@,
        Err(_) => raw,
    }
}

/// The base64 text sent for a local reference: the compressed bytes where
/// compression succeeded, else the file's own bytes.
pub fn upload_payload(raw: &[u8], compressed: Result<(Vec<u8>, String), String>) -> (r: String)
    ensures
        r@ == base64_encode(upload_bytes(raw@, compressed)),
{
    match compressed {
        Ok(c) => base64_standard(c.0.as_slice()),
        Err(_) => base64_standard(raw),
    }
}

} // verus!
