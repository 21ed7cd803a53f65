//! The calls into the `base64` and `image` crates, each behind a contract.

use base64::engine::general_purpose::STANDARD as BASE64;
use base64::Engine;
use image::codecs::jpeg::JpegEncoder;
use image::imageops::FilterType;
use image::DynamicImage;
use image::ExtendedColorType;
use image::ImageEncoder;
use image::ImageFormat;
use std::io::Cursor;
use vstd::prelude::*;

use crate::image_header;

verus! {

// ---------------------------------------------------------------------------
// base64
// ---------------------------------------------------------------------------

/// What the standard engine of the `base64` crate decodes `text` to, or `None` where it refuses.
pub uninterp spec fn base64_decoded(text: Seq<u8>) -> Option<Seq<u8>>;

/// The text that the standard engine of the `base64` crate writes for `bytes`.
pub uninterp spec fn base64_encoded(bytes: Seq<u8>) -> Seq<char>;

/// A character of the standard alphabet, or the padding character.
pub open spec fn is_base64_char(c: char) -> bool {
    ||| 'A' <= c <= 'Z'
    ||| 'a' <= c <= 'z'
    ||| '0' <= c <= '9'
    ||| c == '+'
    ||| c == '/'
    ||| c == '='
}

/// The first `count` items, or all of them where there are fewer.
pub open spec fn front<A>(items: Seq<A>, count: int) -> Seq<A> {
    if 0 <= count <= items.len() {
        items.take(count)
    } else {
        items
    }
}

/// What encoding promises: the text consists of whole groups of four characters of the alphabet,
/// one for each three bytes begun, and decoding any row of leading groups gives the leading bytes
/// back. All groups together give all the bytes back.
pub open spec fn is_base64_of(text: Seq<char>, bytes: Seq<u8>) -> bool {
    &&& text.len() == (bytes.len() + 2) / 3 * 4
    &&& forall|i: int| 0 <= i < text.len() ==> is_base64_char(#[trigger] text[i])
    &&& forall|groups: int|
        0 <= groups && 4 * groups <= text.len() ==> base64_decoded(
            #[trigger] vstd::utf8::encode_utf8(text).take(4 * groups),
        ) == Some(front(bytes, 3 * groups))
}

/// `Engine::decode` of `base64::engine::general_purpose::STANDARD`.
///
/// Trusted: the result depends on the bytes alone; `base64_decoded` names it.
#[verifier::external_body]
pub(crate) fn decode_base64(text: &[u8]) -> (bytes: Option<Vec<u8>>)
    ensures
        match bytes {
            Some(bytes) => base64_decoded(text@) == Some(bytes@),
            None => base64_decoded(text@) is None,
        },
{
    BASE64.decode(text).ok()
}

/// `Engine::encode` of `base64::engine::general_purpose::STANDARD`.
///
/// Trusted: the text depends on the bytes alone (`base64_encoded` names it), and it is what RFC 4648
/// makes of them, with padding (`is_base64_of`). The bound leaves out the lengths whose text no
/// allocation can hold, on which the call panics.
#[verifier::external_body]
pub(crate) fn encode_base64(bytes: &[u8]) -> (text: String)
    requires
        bytes@.len() <= usize::MAX / 4,
    ensures
        text@ == base64_encoded(bytes@),
        is_base64_of(text@, bytes@),
{
    BASE64.encode(bytes)
}

// ---------------------------------------------------------------------------
// image
// ---------------------------------------------------------------------------

/// A decoded image of the `image` crate.
#[verifier::external_type_specification]
#[verifier::external_body]
pub struct ExDynamicImage(DynamicImage);

/// The `(width, height)` of the image that `image::load_from_memory` decodes `bytes` to, or `None`
/// where it refuses.
pub uninterp spec fn decoded_size(bytes: Seq<u8>) -> Option<(u32, u32)>;

/// The `(width, height)` of a decoded image.
pub uninterp spec fn image_size(image: DynamicImage) -> (u32, u32);

/// Whether `image` is what `image::load_from_memory` makes of `bytes`.
pub uninterp spec fn decodes_to(bytes: Seq<u8>, image: DynamicImage) -> bool;

/// Whether `resized` is an outcome of `DynamicImage::resize` of `image` into a square of
/// `max_edge`, with the Lanczos filter.
pub uninterp spec fn resizes_to(image: DynamicImage, max_edge: u32, resized: DynamicImage) -> bool;

/// The PNG file that `DynamicImage::write_to` makes of `image`, where it makes one.
pub uninterp spec fn png_file(image: DynamicImage) -> Seq<u8>;

/// Whether `file` is an outcome of `DynamicImage::write_to` of `image` as PNG: a file, or `None` where
/// it fails.
pub uninterp spec fn png_outcome(image: DynamicImage, file: Option<Seq<u8>>) -> bool;

/// The JPEG file that `JpegEncoder` makes of `image` in RGB at `quality`, or `None` where it
/// refuses.
pub uninterp spec fn jpeg_file(image: DynamicImage, quality: u8) -> Option<Seq<u8>>;

/// Whether the image's buffer holds its pixels and nothing behind them.
pub uninterp spec fn image_is_packed(image: DynamicImage) -> bool;

/// Whether each sample of the image is a single byte.
pub uninterp spec fn has_byte_samples(image: DynamicImage) -> bool;

/// A PNG file whose IHDR chunk announces sixteen bits per sample.
pub open spec fn is_deep_png(bytes: Seq<u8>) -> bool {
    image_header::is_png(bytes) && bytes[24] == 16
}

/// There is at least one pixel.
pub open spec fn has_pixels(size: (u32, u32)) -> bool {
    1 <= size.0 && 1 <= size.1
}

/// The largest edge that an image is resized to. The resampler computes sample positions in single
/// precision; up to here their error stays below one pixel of the resized image, so that pixels of
/// weight lie around each of them.
pub const RESAMPLE_MAX_EDGE: u32 = 0x30_0000;

/// `to` is `from` scaled down into a square box: the longer edge becomes exactly `max_edge`, and
/// the shorter one follows the aspect ratio to within a pixel without vanishing.
pub open spec fn scaled_to_fit(from: (u32, u32), max_edge: u32, to: (u32, u32)) -> bool {
    &&& 1 <= to.0 <= max_edge
    &&& 1 <= to.1 <= max_edge
    &&& from.0 >= from.1 ==> to.0 == max_edge
    &&& from.1 >= from.0 ==> to.1 == max_edge
    &&& from.0 >= from.1 > 0 ==> -from.0 < to.1 * from.0 - from.1 * max_edge < from.0
    &&& from.1 >= from.0 > 0 ==> -from.1 < to.0 * from.1 - from.0 * max_edge < from.1
}

/// `edge` is the quotient rounded to the nearest integer, a half either way, and at least 1.
pub open spec fn is_rounded_edge(edge: int, dividend: int, divisor: int) -> bool {
    ||| -divisor <= 2 * (edge * divisor - dividend) <= divisor
    ||| edge == 1 && 2 * dividend <= divisor
}

/// The shorter edge of `to` is the proportional one, rounded to the nearest pixel.
pub open spec fn rounded_to_fit(from: (u32, u32), max_edge: u32, to: (u32, u32)) -> bool {
    &&& from.0 >= from.1 ==> is_rounded_edge(to.1 as int, from.1 * max_edge, from.0 as int)
    &&& from.1 >= from.0 ==> is_rounded_edge(to.0 as int, from.0 * max_edge, from.1 as int)
}

/// The sizes that double precision scales without moving an edge across a half: a quotient by `w`
/// that is no half lies at least `1 / 2w` away from one.
pub open spec fn scales_exactly(from: (u32, u32), max_edge: u32) -> bool {
    from.0 * max_edge <= 0x8_0000_0000_0000 && from.1 * max_edge <= 0x8_0000_0000_0000
}

/// The sizes that the loader's limit of 512 MiB admits.
pub open spec fn is_loadable(size: (u32, u32)) -> bool {
    size.0 <= 0x2000_0000 && size.1 <= 0x2000_0000
}

/// The sizes that a JPEG frame header can state.
pub open spec fn jpeg_can_state(size: (u32, u32)) -> bool {
    1 <= size.0 <= 0xFFFF && 1 <= size.1 <= 0xFFFF
}

/// The bytes of an encoder's outcome.
pub open spec fn bytes_of(file: Option<Vec<u8>>) -> Option<Seq<u8>> {
    match file {
        Some(file) => Some(file@),
        None => None,
    }
}

/// How many leading bytes of an encoded image are enough to read its size from.
pub open spec fn header_reach() -> int {
    30
}

/// The encoded image states `size` in its header, and so does every prefix that reaches past it.
pub open spec fn states_size(encoded: Seq<u8>, size: (u32, u32)) -> bool {
    &&& header_reach() <= encoded.len()
    &&& forall|reach: int|
        header_reach() <= reach <= encoded.len() ==> image_header::header_dimensions(
            #[trigger] encoded.take(reach),
        ) == Some((size.0 as int, size.1 as int))
}

/// `DynamicImage::width`: the first component of the image's size.
pub assume_specification[ DynamicImage::width ](image: &DynamicImage) -> (width: u32)
    ensures
        width == image_size(*image).0,
;

/// `DynamicImage::height`: the second component of the image's size.
pub assume_specification[ DynamicImage::height ](image: &DynamicImage) -> (height: u32)
    ensures
        height == image_size(*image).1,
;

/// `image::load_from_memory`.
///
/// Trusted: whether the bytes decode, and to which size, depends on the bytes alone
/// (`decoded_size` names it) in a process that registers no decoding hooks with the crate. With
/// the crate's `png` and `jpeg` features alone, samples of more than a byte come from PNG files that
/// announce them, and an image takes at most 512 MiB at a byte or more per pixel. Of the pixels it is only said that they come from these bytes (`decodes_to`).
#[verifier::external_body]
pub(crate) fn load_image(bytes: &[u8]) -> (image: Option<DynamicImage>)
    ensures
        match image {
            Some(image) => decoded_size(bytes@) == Some(image_size(image)) && decodes_to(
                bytes@,
                image,
            ),
            None => decoded_size(bytes@) is None,
        },
        image matches Some(image) ==> is_deep_png(bytes@) || has_byte_samples(image),
        image matches Some(image) ==> is_loadable(image_size(image)),
{
    image::load_from_memory(bytes).ok()
}

/// `DynamicImage::resize` into a square of `max_edge`, with the Lanczos filter.
///
/// Trusted, for an image that exceeds the square: the new image is the old one scaled into it with
/// the aspect ratio and the kind of sample kept, and its buffer is freshly made. The edges are
/// computed in double precision, which rounds exactly where `scales_exactly` holds. Of the pixels it is only said that they
/// come from this image and this square (`resizes_to`): the filter rests on `f32::sin`, whose
/// precision the standard library leaves open, so two runs may differ. On edges well beyond
/// [`RESAMPLE_MAX_EDGE`] the sample positions can be off by several pixels, to the point where every
/// weight is zero and the call panics.
#[verifier::external_body]
pub(crate) fn resize_to_fit(image: &DynamicImage, max_edge: u32) -> (resized: DynamicImage)
    requires
        0 < max_edge <= RESAMPLE_MAX_EDGE,
        image_size(*image).0 > max_edge || image_size(*image).1 > max_edge,
    ensures
        scaled_to_fit(image_size(*image), max_edge, image_size(resized)),
        scales_exactly(image_size(*image), max_edge) ==> rounded_to_fit(
            image_size(*image),
            max_edge,
            image_size(resized),
        ),
        resizes_to(*image, max_edge, resized),
        image_is_packed(resized),
        has_byte_samples(resized) == has_byte_samples(*image),
{
    image.resize(max_edge, max_edge, FilterType::Lanczos3)
}

/// `DynamicImage::write_to` with `ImageFormat::Png`, into memory.
///
/// Trusted: what comes out is the encoder's outcome on this image (`png_outcome`). A file depends on
/// the image alone (`png_file` names it) and carries the image's size in its IHDR chunk, the first
/// one. An image with pixels of single bytes is never
/// refused. Wider samples are copied first, into memory that may not be had: for those it is left
/// open whether a file comes out. The call panics on a buffer of another length than the size
/// demands; a packed one has that length.
#[verifier::external_body]
pub(crate) fn encode_png(image: &DynamicImage) -> (png: Option<Vec<u8>>)
    requires
        image_is_packed(*image),
    ensures
        png_outcome(*image, bytes_of(png)),
        png matches Some(file) ==> file@ == png_file(*image),
        png matches Some(file) ==> states_size(file@, image_size(*image)),
        has_byte_samples(*image) && has_pixels(image_size(*image)) ==> png is Some,
{
    let mut png = Vec::new();
    image.write_to(&mut Cursor::new(&mut png), ImageFormat::Png).ok()?;
    Some(png)
}

/// `JpegEncoder::write_image` on `DynamicImage::to_rgb8`, into memory: JPEG carries no alpha.
///
/// Trusted: the outcome depends on the image and the quality alone (`jpeg_file` names it). The
/// encoder refuses exactly the sizes that the format cannot express, and otherwise writes the size
/// into the frame header right behind the JFIF segment. The call panics on a buffer of another
/// length than the size demands; a packed one has that length.
#[verifier::external_body]
pub(crate) fn encode_jpeg(image: &DynamicImage, quality: u8) -> (jpeg: Option<Vec<u8>>)
    requires
        image_is_packed(*image),
    ensures
        bytes_of(jpeg) == jpeg_file(*image, quality),
        jpeg is Some <==> jpeg_can_state(image_size(*image)),
        jpeg matches Some(file) ==> states_size(file@, image_size(*image)),
{
    let mut jpeg = Vec::new();
    let rgb = image.to_rgb8();
    let encoder = JpegEncoder::new_with_quality(Cursor::new(&mut jpeg), quality);
    let (width, height) = (rgb.width(), rgb.height());
    encoder.write_image(rgb.as_raw(), width, height, ExtendedColorType::Rgb8).ok()?;
    Some(jpeg)
}

} // verus!
