//! Clamp outbound image dimensions so vision requests stay within provider per-image pixel limits.
//!
//! Anthropic's Messages API rejects requests whose images exceed a per-image pixel cap that depends
//! on how many images the request carries: with more than 20 images each must be at most 2000px on
//! every edge, with 20 or fewer at most 8000px. Clamping every outbound image's longest edge to
//! 2000px satisfies both.
//!
//! - Fast path: width and height come straight out of the encoded header. An image within bounds
//!   is handed back as a borrow.
//! - Slow path: decode, downscale with the aspect ratio kept, and re-encode. Results are memoized
//!   in a [`ClampCache`].

use std::borrow::Cow;
use vstd::prelude::*;

use crate::clamp_cache;
use crate::clamp_cache::CacheKey;
use crate::clamp_cache::ClampCache;
use crate::codec;
use crate::image_header;
use crate::text;

verus! {

/// Longest-edge cap that satisfies Anthropic's strictest (many-image) limit.
pub const ANTHROPIC_MANY_IMAGE_MAX_EDGE: u32 = 2000;

/// JPEG quality used when re-encoding downscaled JPEG inputs.
pub const JPEG_REENCODE_QUALITY: u8 = 85;

/// How many base64 characters of a payload are decoded to find its header.
pub const HEADER_PREFIX_CHARS: usize = 2048;

// ---------------------------------------------------------------------------
// The limit
// ---------------------------------------------------------------------------

/// The edge limit for an override: its number where it is a positive one, the default otherwise.
pub open spec fn max_edge_for(setting: Option<Seq<char>>) -> u32 {
    match setting {
        Some(setting) => match text::u32_of_text(text::trimmed(setting)) {
            Some(edge) => if edge > 0 {
                edge
            } else {
                ANTHROPIC_MANY_IMAGE_MAX_EDGE
            },
            None => ANTHROPIC_MANY_IMAGE_MAX_EDGE,
        },
        None => ANTHROPIC_MANY_IMAGE_MAX_EDGE,
    }
}

/// No override, or one that is no positive number.
pub open spec fn is_unusable(setting: Option<Seq<char>>) -> bool {
    setting matches Some(text) ==> text::u32_of_text(text::trimmed(text)) is None
        || text::u32_of_text(text::trimmed(text)) == Some(0u32)
}

/// The text of an optional setting.
pub open spec fn setting_text(setting: Option<&str>) -> Option<Seq<char>> {
    match setting {
        Some(setting) => Some(setting@),
        None => None,
    }
}

/// Resolve the effective max edge, honoring the override (the value of `JCODE_IMAGE_MAX_EDGE`) when
/// present.
pub fn effective_max_edge(setting: Option<&str>) -> (edge: u32)
    ensures
        edge == max_edge_for(setting_text(setting)),
        edge > 0,
{
    if let Some(setting) = setting {
        if let Some(edge) = text::parse_u32(setting.trim()) {
            if edge > 0 {
                return edge;
            }
        }
    }
    ANTHROPIC_MANY_IMAGE_MAX_EDGE
}

// ---------------------------------------------------------------------------
// The header of a payload
// ---------------------------------------------------------------------------

/// The leading part of a payload that the header is looked for in: at most
/// [`HEADER_PREFIX_CHARS`] bytes behind any white space, in whole base64 groups.
pub open spec fn header_prefix(data: Seq<char>) -> Seq<u8> {
    let bytes = vstd::utf8::encode_utf8(text::trimmed_start(data));
    let reach = if bytes.len() < HEADER_PREFIX_CHARS {
        bytes.len() as int
    } else {
        HEADER_PREFIX_CHARS as int
    };
    bytes.take(reach - reach % 4)
}

/// The `(width, height)` that a payload states in its header, where it can be read.
pub open spec fn payload_size(data: Seq<char>) -> Option<(int, int)> {
    match codec::base64_decoded(header_prefix(data)) {
        Some(header) => image_header::header_dimensions(header),
        None => None,
    }
}

/// Parse image dimensions directly from the (possibly very large) base64 string by decoding only a
/// small header prefix. Returns `None` if the format/header is not recognized, in which case
/// callers fall back to a full decode.
pub fn dimensions_from_base64_header(data: &str) -> (size: Option<(u32, u32)>)
    ensures
        match size {
            Some((width, height)) => payload_size(data@) == Some((width as int, height as int)),
            None => payload_size(data@) is None,
        },
{
    let bytes = data.trim_start().as_bytes();
    let reach: usize = if bytes.len() < HEADER_PREFIX_CHARS {
        bytes.len()
    } else {
        HEADER_PREFIX_CHARS
    };
    // base64 must be decoded on 4-char boundaries.
    let aligned: usize = reach - reach % 4;
    let prefix = vstd::slice::slice_subrange(bytes, 0, aligned);
    assert(prefix@ =~= header_prefix(data@));
    match codec::decode_base64(prefix) {
        Some(header) => image_header::dimensions_from_bytes(header.as_slice()),
        None => None,
    }
}

/// Both edges are within the limit.
pub open spec fn fits(size: (int, int), max_edge: u32) -> bool {
    size.0 <= max_edge && size.1 <= max_edge
}

/// The header of a payload shows that the image is within the limit.
pub open spec fn shown_to_fit(data: Seq<char>, max_edge: u32) -> bool {
    payload_size(data) matches Some(size) && fits(size, max_edge)
}

// ---------------------------------------------------------------------------
// Shrinking
// ---------------------------------------------------------------------------

/// The encoded image that a payload carries.
pub open spec fn payload_file(data: Seq<char>) -> Option<Seq<u8>> {
    codec::base64_decoded(vstd::utf8::encode_utf8(text::trimmed(data)))
}

/// A payload that decodes to an image beyond the limit.
pub open spec fn is_oversized(data: Seq<char>, max_edge: u32) -> bool {
    payload_file(data) matches Some(file) && codec::decoded_size(file) matches Some(size) && !fits(
        (size.0 as int, size.1 as int),
        max_edge,
    )
}

/// `resized` comes from the image that the payload carries, scaled into the limit.
pub open spec fn is_shrunk(
    data: Seq<char>,
    max_edge: u32,
    resized: image::DynamicImage,
) -> bool {
    &&& payload_file(data) matches Some(file)
    &&& codec::decoded_size(file) matches Some(size)
    &&& codec::scaled_to_fit(size, max_edge, codec::image_size(resized))
    &&& codec::rounded_to_fit(size, max_edge, codec::image_size(resized))
    &&& exists|image: image::DynamicImage| #[trigger]
        codec::decodes_to(file, image) && codec::resizes_to(image, max_edge, resized)
}

/// JPEG in, JPEG out.
pub open spec fn wants_jpeg(media_type: Seq<char>) -> bool {
    text::same_but_for_ascii_case(media_type, "image/jpeg"@) || text::same_but_for_ascii_case(
        media_type,
        "image/jpg"@,
    )
}

/// The media type of a re-encoded image.
pub open spec fn output_media(media_type: Seq<char>) -> Seq<char> {
    if wants_jpeg(media_type) {
        "image/jpeg"@
    } else {
        "image/png"@
    }
}

/// `file` is what encoding `resized` gives: the encoder's file, which states the image's size in its
/// header, or `None` where the encoder makes none.
pub open spec fn is_output_file(
    media_type: Seq<char>,
    resized: image::DynamicImage,
    file: Option<Seq<u8>>,
) -> bool {
    &&& if wants_jpeg(media_type) {
        &&& file == codec::jpeg_file(resized, JPEG_REENCODE_QUALITY)
        &&& file is Some <==> codec::jpeg_can_state(codec::image_size(resized))
    } else {
        &&& codec::png_outcome(resized, file)
        &&& file matches Some(png) ==> png == codec::png_file(resized)
    }
    &&& file matches Some(encoded) ==> codec::states_size(encoded, codec::image_size(resized))
}

/// The images whose re-encoding always gives a file: all that fit into a JPEG frame header where
/// that is the format, and all with samples of a byte otherwise.
pub open spec fn file_is_owed(media_type: Seq<char>, data: Seq<char>, max_edge: u32) -> bool {
    if wants_jpeg(media_type) {
        max_edge <= 0xFFFF
    } else {
        payload_file(data) matches Some(file) && !codec::is_deep_png(file)
    }
}

/// A media type and a payload.
pub open spec fn texts_of(output: Option<(String, String)>) -> Option<(Seq<char>, Seq<char>)> {
    match output {
        Some((media_type, data)) => Some((media_type@, data@)),
        None => None,
    }
}

/// What becomes of an encoder's outcome: a file that memory can hold as text is written as base64.
pub open spec fn packaged(media_type: Seq<char>, file: Option<Seq<u8>>) -> Option<
    (Seq<char>, Seq<char>),
> {
    match file {
        Some(file) => if file.len() <= usize::MAX / 4 {
            Some((output_media(media_type), codec::base64_encoded(file)))
        } else {
            None
        },
        None => None,
    }
}

/// A payload whose header states that size, both in the prefix that is looked at first and in the
/// whole file.
pub open spec fn payload_states(data: Seq<char>, size: (int, int)) -> bool {
    &&& payload_size(data) == Some(size)
    &&& payload_file(data) matches Some(file) && image_header::header_dimensions(file) == Some(size)
}

/// A payload of an image within the limit, as its header shows in the prefix and in the whole.
pub open spec fn is_clamped(data: Seq<char>, max_edge: u32) -> bool {
    payload_size(data) matches Some(size) && fits(size, max_edge) && payload_states(data, size)
}

/// Whether the media type asks for JPEG output.
pub fn prefers_jpeg(media_type: &str) -> (jpeg: bool)
    ensures
        jpeg == wants_jpeg(media_type@),
{
    media_type.eq_ignore_ascii_case("image/jpeg") || media_type.eq_ignore_ascii_case("image/jpg")
}

/// Packages an encoder's outcome as a media type and a base64 payload.
pub fn package(media_type: &str, file: Option<Vec<u8>>) -> (output: Option<(String, String)>)
    ensures
        texts_of(output) == packaged(media_type@, codec::bytes_of(file)),
        output matches Some((_, data)) ==> codec::is_base64_of(data@, file->0@),
{
    match file {
        Some(file) => {
            if file.len() > usize::MAX / 4 {
                return None;
            }
            let out_media = if prefers_jpeg(media_type) {
                "image/jpeg".to_owned()
            } else {
                "image/png".to_owned()
            };
            Some((out_media, codec::encode_base64(file.as_slice())))
        },
        None => None,
    }
}

/// A base64 payload of a file states the size that the file does.
proof fn lemma_payload_states(data: Seq<char>, file: Seq<u8>, size: (u32, u32))
    requires
        codec::is_base64_of(data, file),
        codec::states_size(file, size),
    ensures
        payload_file(data) == Some(file),
        payload_states(data, (size.0 as int, size.1 as int)),
{
    let bytes = vstd::utf8::encode_utf8(data);
    assert forall|i: int| 0 <= i < data.len() implies '\0' <= #[trigger] data[i] <= '\u{7f}' by {
        assert(codec::is_base64_char(data[i]));
    }
    vstd::utf8::is_ascii_chars_encode_utf8(data);
    assert(codec::is_base64_char(data[0]));
    assert(codec::is_base64_char(data[data.len() - 1]));
    assert(text::trimmed_start(data) == data);
    assert(text::trimmed(data) == data);

    // The whole.
    let groups = data.len() as int / 4;
    assert(bytes.take(4 * groups) =~= bytes);
    assert(file.take(file.len() as int) =~= file);
    assert(codec::front(file, 3 * groups) == file);
    assert(payload_file(data) == Some(file));
    assert(image_header::header_dimensions(file.take(file.len() as int)) == Some(
        (size.0 as int, size.1 as int),
    ));

    // The prefix.
    if data.len() < HEADER_PREFIX_CHARS {
        assert(header_prefix(data) =~= bytes.take(4 * groups));
    } else {
        let few = HEADER_PREFIX_CHARS as int / 4;
        assert(header_prefix(data) =~= bytes.take(4 * few));
        let reach = codec::front(file, 3 * few);
        assert(codec::base64_decoded(header_prefix(data)) == Some(reach));
        assert(3 * few <= file.len() || reach == file);
    }
}

/// What re-encoding gives: nothing where the payload cannot be decoded or needs no change, and
/// otherwise the package of the shrunk image's file, a payload that states the shrunk size.
pub open spec fn is_reencoding(
    media_type: Seq<char>,
    data: Seq<char>,
    max_edge: u32,
    output: Option<(Seq<char>, Seq<char>)>,
) -> bool {
    if is_oversized(data, max_edge) {
        exists|resized: image::DynamicImage, file: Option<Seq<u8>>| #[trigger]
            is_shrunk(data, max_edge, resized) && #[trigger] is_output_file(
                media_type,
                resized,
                file,
            ) && (file_is_owed(media_type, data, max_edge) ==> file is Some) && output == packaged(
                media_type,
                file,
            ) && (output matches Some((_, encoded)) ==> carries_file(encoded, file->0, resized))
    } else {
        output is None
    }
}

/// The payload is base64 of the image's file and states the image's size.
pub open spec fn carries_file(
    encoded: Seq<char>,
    file: Seq<u8>,
    resized: image::DynamicImage,
) -> bool {
    let size = codec::image_size(resized);
    &&& codec::is_base64_of(encoded, file)
    &&& payload_file(encoded) == Some(file)
    &&& payload_states(encoded, (size.0 as int, size.1 as int))
}

/// A payload that can be shrunk to the limit, or need not be: the limit is one that the resampler
/// can reach, or the payload is not an image beyond it.
pub open spec fn is_in_reach(data: Seq<char>, max_edge: u32) -> bool {
    max_edge <= codec::RESAMPLE_MAX_EDGE || !is_oversized(data, max_edge)
}

/// Decodes the image that a payload carries.
fn load_payload(data: &str) -> (image: Option<image::DynamicImage>)
    ensures
        match image {
            Some(image) => payload_file(data@) matches Some(file) && codec::decoded_size(file)
                == Some(codec::image_size(image)) && codec::decodes_to(file, image) && (
            codec::is_deep_png(file) || codec::has_byte_samples(image)) && codec::is_loadable(
                codec::image_size(image),
            ),
            None => payload_file(data@) matches Some(file) ==> codec::decoded_size(file) is None,
        },
{
    match codec::decode_base64(data.trim().as_bytes()) {
        Some(bytes) => codec::load_image(bytes.as_slice()),
        None => None,
    }
}

/// Whether a payload can be shrunk to the limit, or need not be.
pub fn is_within_reach(data: &str, max_edge: u32) -> (within: bool)
    ensures
        within == is_in_reach(data@, max_edge),
{
    if max_edge <= codec::RESAMPLE_MAX_EDGE {
        return true;
    }
    match load_payload(data) {
        Some(decoded) => decoded.width() <= max_edge && decoded.height() <= max_edge,
        None => true,
    }
}

/// Decode, downscale, and re-encode an oversized image. Returns `None` when the payload cannot be
/// decoded or already fits (no change required).
pub fn reencode_clamped(media_type: &str, data: &str, max_edge: u32) -> (output: Option<
    (String, String),
>)
    requires
        max_edge > 0,
        is_in_reach(data@, max_edge),
    ensures
        is_reencoding(media_type@, data@, max_edge, texts_of(output)),
{
    let decoded = match load_payload(data) {
        Some(decoded) => decoded,
        None => {
            return None;
        },
    };
    let (w, h): (u32, u32) = (decoded.width(), decoded.height());
    if w <= max_edge && h <= max_edge {
        // The header parser missed it but the real dimensions are fine; no work.
        return None;
    }
    // Preserve aspect ratio; the resize fits within the bounding box.

    assert(codec::scales_exactly(codec::image_size(decoded), max_edge)) by {
        assert(w * max_edge <= 0x2000_0000 * 0x30_0000) by (nonlinear_arith)
            requires
                w <= 0x2000_0000,
                max_edge <= 0x30_0000,
        ;
        assert(h * max_edge <= 0x2000_0000 * 0x30_0000) by (nonlinear_arith)
            requires
                h <= 0x2000_0000,
                max_edge <= 0x30_0000,
        ;
    }
    let resized = codec::resize_to_fit(&decoded, max_edge);
    assert(is_shrunk(data@, max_edge, resized));
    let file = if prefers_jpeg(media_type) {
        codec::encode_jpeg(&resized, JPEG_REENCODE_QUALITY)
    } else {
        codec::encode_png(&resized)
    };
    let ghost written = codec::bytes_of(file);
    assert(is_output_file(media_type@, resized, written));
    let output = package(media_type, file);
    proof {
        if output is Some {
            lemma_payload_states((output->0).1@, written->0, codec::image_size(resized));
        }
    }
    output
}

// ---------------------------------------------------------------------------
// Clamping
// ---------------------------------------------------------------------------

/// The key under which a payload's clamp result is filed.
pub open spec fn key_of(data: Seq<char>, max_edge: u32) -> CacheKey {
    CacheKey {
        hash: clamp_cache::text_hash(data),
        len: vstd::utf8::encode_utf8(data).len() as usize,
        max_edge,
    }
}

/// The inputs handed back as they are, without a copy.
pub open spec fn is_untouched(
    clamped: (Cow<'_, str>, Cow<'_, str>),
    media_type: Seq<char>,
    data: Seq<char>,
) -> bool {
    &&& clamped.0 is Borrowed && clamped.0@ == media_type
    &&& clamped.1 is Borrowed && clamped.1@ == data
}

/// A new media type and payload in place of the inputs.
pub open spec fn is_replaced(
    clamped: (Cow<'_, str>, Cow<'_, str>),
    media_type: Seq<char>,
    data: Seq<char>,
) -> bool {
    &&& clamped.0 is Owned && clamped.0@ == media_type
    &&& clamped.1 is Owned && clamped.1@ == data
}

/// No work is needed: there is no limit, or the header shows that the image is within it.
pub open spec fn needs_no_work(data: Seq<char>, max_edge: u32) -> bool {
    max_edge == 0 || shown_to_fit(data, max_edge)
}

/// What becomes of a payload and of the cache once its re-encoding is known: a new payload is
/// filed and sent, and without one the original goes out rather than being dropped.
pub open spec fn settles(
    before: Seq<clamp_cache::CacheSlot>,
    after: Seq<clamp_cache::CacheSlot>,
    key: CacheKey,
    media_type: Seq<char>,
    data: Seq<char>,
    output: Option<(Seq<char>, Seq<char>)>,
    clamped: (Cow<'_, str>, Cow<'_, str>),
) -> bool {
    match output {
        Some((new_media, new_data)) => {
            &&& is_replaced(clamped, new_media, new_data)
            &&& after == clamp_cache::with_slot(
                before,
                clamp_cache::CacheSlot { key, media_type: new_media, data: new_data },
            )
        },
        None => is_untouched(clamped, media_type, data) && after == before,
    }
}

/// Every filed payload keeps to the limit that it was clamped for.
pub open spec fn all_clamped(slots: Seq<clamp_cache::CacheSlot>) -> bool {
    forall|i: int|
        0 <= i < slots.len() ==> is_clamped(
            (#[trigger] slots[i]).data,
            slots[i].key.max_edge,
        )
}

/// What clamping a payload to `max_edge` sends and remembers: nothing changes where no work is
/// needed; a remembered result is sent again; any other payload is re-encoded.
pub open spec fn clamps(
    before: Seq<clamp_cache::CacheSlot>,
    after: Seq<clamp_cache::CacheSlot>,
    media_type: Seq<char>,
    data: Seq<char>,
    max_edge: u32,
    clamped: (Cow<'_, str>, Cow<'_, str>),
) -> bool {
    let key = key_of(data, max_edge);
    if needs_no_work(data, max_edge) {
        is_untouched(clamped, media_type, data) && after == before
    } else if clamp_cache::holds_key(before, key) {
        &&& is_replaced(clamped, clamped.0@, clamped.1@)
        &&& before.contains(
            clamp_cache::CacheSlot { key, media_type: clamped.0@, data: clamped.1@ },
        )
        &&& after == before
    } else {
        exists|output: Option<(Seq<char>, Seq<char>)>| #[trigger]
            is_reencoding(media_type, data, max_edge, output) && settles(
                before,
                after,
                key,
                media_type,
                data,
                output,
                clamped,
            )
    }
}

/// Files a re-encoding and picks what is sent.
pub fn settle<'a>(
    cache: &mut ClampCache,
    key: CacheKey,
    media_type: &'a str,
    data: &'a str,
    output: Option<(String, String)>,
) -> (clamped: (Cow<'a, str>, Cow<'a, str>))
    requires
        clamp_cache::is_cache(old(cache)@),
    ensures
        settles(
            old(cache)@,
            final(cache)@,
            key,
            media_type@,
            data@,
            texts_of(output),
            clamped,
        ),
        clamp_cache::is_cache(final(cache)@),
{
    match output {
        Some((mt, encoded)) => {
            clamp_cache::cache_put(cache, key, (mt.clone(), encoded.clone()));
            (Cow::Owned(mt), Cow::Owned(encoded))
        },
        // Could not parse/decode, or nothing to change. Fall back to the original payload rather
        // than dropping the image.
        None => (Cow::Borrowed(media_type), Cow::Borrowed(data)),
    }
}

/// A payload that needs no re-encoding: no work is needed, or a result is filed for it.
pub open spec fn is_settled(
    slots: Seq<clamp_cache::CacheSlot>,
    data: Seq<char>,
    max_edge: u32,
) -> bool {
    needs_no_work(data, max_edge) || clamp_cache::holds_key(slots, key_of(data, max_edge))
}

/// What is known of a payload before any re-encoding.
#[derive(Debug)]
pub enum Lookup<'a> {
    /// What to send.
    Settled((Cow<'a, str>, Cow<'a, str>)),
    /// The payload has to be re-encoded, and the result is to be filed under this key.
    Missed(CacheKey),
}

/// Looks for what to send without re-encoding anything.
pub fn look_up<'a>(
    cache: &ClampCache,
    media_type: &'a str,
    data: &'a str,
    max_edge: u32,
) -> (found: Lookup<'a>)
    ensures
        match found {
            Lookup::Settled(clamped) => is_settled(cache@, data@, max_edge) && clamps(
                cache@,
                cache@,
                media_type@,
                data@,
                max_edge,
                clamped,
            ),
            Lookup::Missed(key) => !is_settled(cache@, data@, max_edge) && key == key_of(
                data@,
                max_edge,
            ),
        },
{
    if max_edge == 0 {
        return Lookup::Settled((Cow::Borrowed(media_type), Cow::Borrowed(data)));
    }
    // Fast path: read dimensions from the encoded header without a full decode. If we can confirm
    // the image already fits, send it untouched.

    if let Some((w, h)) = dimensions_from_base64_header(data) {
        if w <= max_edge && h <= max_edge {
            return Lookup::Settled((Cow::Borrowed(media_type), Cow::Borrowed(data)));
        }
    }
    assert(!needs_no_work(data@, max_edge));

    // Memoize the (expensive) decode+resize+encode keyed by the raw payload so a resumed session
    // that rebuilds the request repeatedly only pays once.
    let key = CacheKey { hash: clamp_cache::hash_str(data), len: data.len(), max_edge };
    match clamp_cache::cache_get(cache, &key) {
        Some((mt, encoded)) => {
            proof {
                let slot = clamp_cache::CacheSlot { key, media_type: mt@, data: encoded@ };
                let at = choose|at: int| 0 <= at < cache@.len() && cache@[at] == slot;
                assert(cache@[at].key == key);
            }
            Lookup::Settled((Cow::Owned(mt), Cow::Owned(encoded)))
        },
        None => Lookup::Missed(key),
    }
}

/// Like [`clamp_base64_image`] but with an explicit edge limit.
pub fn clamp_base64_image_with_edge<'a>(
    cache: &mut ClampCache,
    media_type: &'a str,
    data: &'a str,
    max_edge: u32,
) -> (clamped: (Cow<'a, str>, Cow<'a, str>))
    requires
        clamp_cache::is_cache(old(cache)@),
        is_settled(old(cache)@, data@, max_edge) || is_in_reach(data@, max_edge),
    ensures
        clamp_cache::is_cache(final(cache)@),
        clamps(old(cache)@, final(cache)@, media_type@, data@, max_edge, clamped),
        all_clamped(old(cache)@) ==> all_clamped(final(cache)@) && (clamped.1 is Owned
            ==> is_clamped(clamped.1@, max_edge)),
{
    let ghost before = cache@;
    match look_up(cache, media_type, data, max_edge) {
        Lookup::Settled(clamped) => {
            proof {
                lemma_clamped_stays_clamped(
                    before,
                    before,
                    media_type@,
                    data@,
                    max_edge,
                    clamped,
                );
            }
            clamped
        },
        Lookup::Missed(key) => {
            let output = reencode_clamped(media_type, data, max_edge);
            let ghost known = texts_of(output);
            let clamped = settle(cache, key, media_type, data, output);
            proof {
                assert(is_reencoding(media_type@, data@, max_edge, known));
                lemma_clamped_stays_clamped(
                    before,
                    cache@,
                    media_type@,
                    data@,
                    max_edge,
                    clamped,
                );
            }
            clamped
        },
    }
}

/// A cache of clamped payloads stays one, and a payload that is sent instead of the given one is
/// clamped.
proof fn lemma_clamped_stays_clamped(
    before: Seq<clamp_cache::CacheSlot>,
    after: Seq<clamp_cache::CacheSlot>,
    media_type: Seq<char>,
    data: Seq<char>,
    max_edge: u32,
    clamped: (Cow<'_, str>, Cow<'_, str>),
)
    requires
        clamps(before, after, media_type, data, max_edge, clamped),
    ensures
        all_clamped(before) ==> all_clamped(after) && (clamped.1 is Owned ==> is_clamped(
            clamped.1@,
            max_edge,
        )),
{
    let key = key_of(data, max_edge);
    let sent = clamp_cache::CacheSlot { key, media_type: clamped.0@, data: clamped.1@ };
    if all_clamped(before) && clamped.1 is Owned {
        if clamp_cache::holds_key(before, key) {
            let at = choose|at: int| 0 <= at < before.len() && before[at] == sent;
            assert(is_clamped(before[at].data, before[at].key.max_edge));
        } else {
            clamp_cache::law_what_is_filed_is_found(before, sent);
            assert forall|i: int| 0 <= i < after.len() implies is_clamped(
                (#[trigger] after[i]).data,
                after[i].key.max_edge,
            ) by {
                if before.contains(after[i]) {
                    let at = choose|at: int| 0 <= at < before.len() && before[at] == after[i];
                    assert(is_clamped(before[at].data, before[at].key.max_edge));
                }
            }
        }
    }
}

/// [`clamp_base64_image_with_edge`] where that is possible. `None` where the payload would have to
/// be shrunk to a limit that the resampler cannot reach.
pub fn try_clamp_base64_image_with_edge<'a>(
    cache: &mut ClampCache,
    media_type: &'a str,
    data: &'a str,
    max_edge: u32,
) -> (clamped: Option<(Cow<'a, str>, Cow<'a, str>)>)
    requires
        clamp_cache::is_cache(old(cache)@),
    ensures
        clamp_cache::is_cache(final(cache)@),
        clamped is Some <==> is_settled(old(cache)@, data@, max_edge) || is_in_reach(
            data@,
            max_edge,
        ),
        match clamped {
            Some(clamped) => clamps(
                old(cache)@,
                final(cache)@,
                media_type@,
                data@,
                max_edge,
                clamped,
            ),
            None => final(cache)@ == old(cache)@,
        },
        all_clamped(old(cache)@) ==> all_clamped(final(cache)@),
{
    let ghost before = cache@;
    if !is_within_reach(data, max_edge) {
        return match look_up(cache, media_type, data, max_edge) {
            Lookup::Settled(clamped) => {
                proof {
                    lemma_clamped_stays_clamped(
                        before,
                        before,
                        media_type@,
                        data@,
                        max_edge,
                        clamped,
                    );
                }
                Some(clamped)
            },
            Lookup::Missed(_) => None,
        };
    }
    Some(clamp_base64_image_with_edge(cache, media_type, data, max_edge))
}

/// Clamp a base64-encoded image so neither edge exceeds the configured limit.
///
/// Returns the `(media_type, base64_data)` that should actually be sent. When no work is needed
/// (already small, or the payload cannot be processed) the original inputs are returned as borrows
/// so the common path is allocation-free. `setting` is the value of `JCODE_IMAGE_MAX_EDGE`.
pub fn clamp_base64_image<'a>(
    cache: &mut ClampCache,
    media_type: &'a str,
    data: &'a str,
    setting: Option<&str>,
) -> (clamped: (Cow<'a, str>, Cow<'a, str>))
    requires
        clamp_cache::is_cache(old(cache)@),
        is_settled(old(cache)@, data@, max_edge_for(setting_text(setting))) || is_in_reach(
            data@,
            max_edge_for(setting_text(setting)),
        ),
    ensures
        clamp_cache::is_cache(final(cache)@),
        clamps(
            old(cache)@,
            final(cache)@,
            media_type@,
            data@,
            max_edge_for(setting_text(setting)),
            clamped,
        ),
        all_clamped(old(cache)@) ==> all_clamped(final(cache)@) && (clamped.1 is Owned
            ==> is_clamped(clamped.1@, max_edge_for(setting_text(setting)))),
{
    clamp_base64_image_with_edge(cache, media_type, data, effective_max_edge(setting))
}

/// [`clamp_base64_image`] where that is possible. `None` where the payload would have to be shrunk
/// to a limit that the resampler cannot reach.
pub fn try_clamp_base64_image<'a>(
    cache: &mut ClampCache,
    media_type: &'a str,
    data: &'a str,
    setting: Option<&str>,
) -> (clamped: Option<(Cow<'a, str>, Cow<'a, str>)>)
    requires
        clamp_cache::is_cache(old(cache)@),
    ensures
        clamp_cache::is_cache(final(cache)@),
        clamped is Some <==> is_settled(
            old(cache)@,
            data@,
            max_edge_for(setting_text(setting)),
        ) || is_in_reach(data@, max_edge_for(setting_text(setting))),
        match clamped {
            Some(clamped) => clamps(
                old(cache)@,
                final(cache)@,
                media_type@,
                data@,
                max_edge_for(setting_text(setting)),
                clamped,
            ),
            None => final(cache)@ == old(cache)@,
        },
        all_clamped(old(cache)@) ==> all_clamped(final(cache)@),
{
    let max_edge: u32 = effective_max_edge(setting);
    if !is_within_reach(data, max_edge) {
        return try_clamp_base64_image_with_edge(cache, media_type, data, max_edge);
    }
    Some(clamp_base64_image(cache, media_type, data, setting))
}

// ---------------------------------------------------------------------------
// Laws
// ---------------------------------------------------------------------------

/// The limit is never zero, and without a usable override it is the strictest one that the provider
/// sets, which satisfies the laxer one for few images as well.
pub proof fn law_default_limit_satisfies_both_thresholds(setting: Option<Seq<char>>, data: Seq<char>)
    ensures
        max_edge_for(setting) > 0,
        max_edge_for(None) == 2000,
        is_unusable(setting) ==> max_edge_for(setting) == 2000,
        is_clamped(data, max_edge_for(None)) ==> is_clamped(data, 2000) && is_clamped(data, 8000),
{
}

/// A payload that was clamped to a limit needs no work under that limit or any laxer one: it is
/// handed back as it is.
pub proof fn law_clamped_payload_passes_laxer_limits(
    slots: Seq<clamp_cache::CacheSlot>,
    after: Seq<clamp_cache::CacheSlot>,
    media_type: Seq<char>,
    data: Seq<char>,
    limit: u32,
    laxer: u32,
    clamped: (Cow<'_, str>, Cow<'_, str>),
)
    requires
        is_clamped(data, limit),
        limit <= laxer,
        clamps(slots, after, media_type, data, laxer, clamped),
    ensures
        is_untouched(clamped, media_type, data),
        after == slots,
{
}

/// A payload that cannot be decoded goes out as it is, unless a result is filed under its key.
pub proof fn law_undecodable_payload_falls_back_to_original(
    slots: Seq<clamp_cache::CacheSlot>,
    after: Seq<clamp_cache::CacheSlot>,
    media_type: Seq<char>,
    data: Seq<char>,
    max_edge: u32,
    clamped: (Cow<'_, str>, Cow<'_, str>),
)
    requires
        clamps(slots, after, media_type, data, max_edge, clamped),
        payload_file(data) is None || codec::decoded_size(payload_file(data)->0) is None,
        !clamp_cache::holds_key(slots, key_of(data, max_edge)),
    ensures
        is_untouched(clamped, media_type, data),
        after == slots,
{
}

/// What a call sends in place of a payload, the next call on that payload sends again, whatever its
/// media type, and the cache stays as it is.
pub proof fn law_replacement_is_served_from_cache(
    before: Seq<clamp_cache::CacheSlot>,
    between: Seq<clamp_cache::CacheSlot>,
    after: Seq<clamp_cache::CacheSlot>,
    media_type: Seq<char>,
    next_media_type: Seq<char>,
    data: Seq<char>,
    max_edge: u32,
    first: (Cow<'_, str>, Cow<'_, str>),
    second: (Cow<'_, str>, Cow<'_, str>),
)
    requires
        clamp_cache::is_cache(before),
        clamps(before, between, media_type, data, max_edge, first),
        clamps(between, after, next_media_type, data, max_edge, second),
        first.1 is Owned,
    ensures
        is_replaced(second, first.0@, first.1@),
        after == between,
{
    let key = key_of(data, max_edge);
    let sent = clamp_cache::CacheSlot { key, media_type: first.0@, data: first.1@ };
    assert(between.contains(sent)) by {
        if !clamp_cache::holds_key(before, key) {
            clamp_cache::law_what_is_filed_is_found(before, sent);
            assert(between[between.len() - 1] == sent);
        }
    }
    assert(clamp_cache::is_cache(between)) by {
        clamp_cache::law_filing_keeps_the_cache_bounded(before, sent);
    }
    let at = choose|at: int| 0 <= at < between.len() && between[at] == sent;
    assert(between[at].key == key);
    let again = clamp_cache::CacheSlot { key, media_type: second.0@, data: second.1@ };
    clamp_cache::law_reading_is_unambiguous(between, sent, again);
}

/// An oversized payload that no JPEG can hold: the format cannot state the limit, which the shrunk
/// image's longer edge would be.
pub open spec fn is_beyond_jpeg(media_type: Seq<char>, max_edge: u32) -> bool {
    wants_jpeg(media_type) && max_edge > 0xFFFF
}

/// Clamping comes out the same every time: the encoder does not decide, or it gave a file that was
/// sent.
pub open spec fn is_conclusive(
    media_type: Seq<char>,
    data: Seq<char>,
    max_edge: u32,
    clamped: (Cow<'_, str>, Cow<'_, str>),
) -> bool {
    ||| needs_no_work(data, max_edge)
    ||| clamped.1 is Owned
    ||| !is_oversized(data, max_edge)
    ||| is_beyond_jpeg(media_type, max_edge)
}

/// A memoized answer is the computed one: the same call right after gives the same result in both
/// components and leaves the cache as it is. It leaves out the call in which an encoder had to make
/// a file and made none that could be sent: that one is tried again.
pub proof fn law_second_call_is_served_from_cache(
    before: Seq<clamp_cache::CacheSlot>,
    between: Seq<clamp_cache::CacheSlot>,
    after: Seq<clamp_cache::CacheSlot>,
    media_type: Seq<char>,
    data: Seq<char>,
    max_edge: u32,
    first: (Cow<'_, str>, Cow<'_, str>),
    second: (Cow<'_, str>, Cow<'_, str>),
)
    requires
        clamp_cache::is_cache(before),
        clamps(before, between, media_type, data, max_edge, first),
        clamps(between, after, media_type, data, max_edge, second),
        is_conclusive(media_type, data, max_edge, first),
    ensures
        second.0@ == first.0@,
        second.1@ == first.1@,
        second.1 is Owned <==> first.1 is Owned,
        after == between,
{
    if first.1 is Owned {
        law_replacement_is_served_from_cache(
            before,
            between,
            after,
            media_type,
            media_type,
            data,
            max_edge,
            first,
            second,
        );
    } else if !needs_no_work(data, max_edge) {
        assert(between == before);
        assert(!clamp_cache::holds_key(before, key_of(data, max_edge)));
        lemma_nothing_to_encode_is_untouched(between, after, media_type, data, max_edge, second);
    }
}

/// Where the encoder has nothing to decide, a payload that is not settled goes out as it is.
proof fn lemma_nothing_to_encode_is_untouched(
    slots: Seq<clamp_cache::CacheSlot>,
    after: Seq<clamp_cache::CacheSlot>,
    media_type: Seq<char>,
    data: Seq<char>,
    max_edge: u32,
    clamped: (Cow<'_, str>, Cow<'_, str>),
)
    requires
        clamps(slots, after, media_type, data, max_edge, clamped),
        !is_settled(slots, data, max_edge),
        !is_oversized(data, max_edge) || is_beyond_jpeg(media_type, max_edge),
    ensures
        is_untouched(clamped, media_type, data),
        after == slots,
{
    let output = choose|output: Option<(Seq<char>, Seq<char>)>| #[trigger]
        is_reencoding(media_type, data, max_edge, output) && settles(
            slots,
            after,
            key_of(data, max_edge),
            media_type,
            data,
            output,
            clamped,
        );
    if is_oversized(data, max_edge) {
        let (resized, file) = choose|resized: image::DynamicImage, file: Option<Seq<u8>>|
            #![trigger is_shrunk(data, max_edge, resized), is_output_file(media_type, resized, file)]
            is_shrunk(data, max_edge, resized) && is_output_file(media_type, resized, file)
                && output == packaged(media_type, file);
        assert(!codec::jpeg_can_state(codec::image_size(resized)));
        assert(output is None);
    }
}

/// Clamping what a call sent, whether replaced or handed back, changes nothing.
pub proof fn law_clamping_twice_changes_nothing(
    before: Seq<clamp_cache::CacheSlot>,
    between: Seq<clamp_cache::CacheSlot>,
    after: Seq<clamp_cache::CacheSlot>,
    media_type: Seq<char>,
    data: Seq<char>,
    max_edge: u32,
    first: (Cow<'_, str>, Cow<'_, str>),
    second: (Cow<'_, str>, Cow<'_, str>),
)
    requires
        clamp_cache::is_cache(before),
        all_clamped(before),
        clamps(before, between, media_type, data, max_edge, first),
        clamps(between, after, first.0@, first.1@, max_edge, second),
        is_conclusive(media_type, data, max_edge, first),
    ensures
        is_untouched(second, first.0@, first.1@),
        after == between,
{
    if first.1 is Owned {
        lemma_clamped_stays_clamped(before, between, media_type, data, max_edge, first);
    } else if !needs_no_work(data, max_edge) {
        assert(is_untouched(first, media_type, data) && between == before);
        assert(!clamp_cache::holds_key(before, key_of(data, max_edge)));
        lemma_nothing_to_encode_is_untouched(between, after, media_type, data, max_edge, second);
    }
}

/// The size that the header states, where it can be read, is the size that the image decodes to.
pub open spec fn header_is_honest(data: Seq<char>) -> bool {
    match (payload_size(data), payload_file(data)) {
        (Some(stated), Some(file)) => codec::decoded_size(file) matches Some(size) ==> stated == (
            size.0 as int,
            size.1 as int,
        ),
        _ => true,
    }
}

/// The encoder was given the shrunk image and made no file of it that can be sent.
pub open spec fn encoder_gave_nothing(
    media_type: Seq<char>,
    data: Seq<char>,
    max_edge: u32,
) -> bool {
    exists|resized: image::DynamicImage, file: Option<Seq<u8>>| #[trigger]
        is_shrunk(data, max_edge, resized) && #[trigger] is_output_file(media_type, resized, file)
            && (file_is_owed(media_type, data, max_edge) ==> file is Some) && packaged(
            media_type,
            file,
        ) is None
}

/// Re-encoding gives nothing exactly for what cannot be decoded or already fits, as long as the
/// encoder does not fail.
pub proof fn law_nothing_only_for_undecodable_or_fitting(
    media_type: Seq<char>,
    data: Seq<char>,
    max_edge: u32,
    output: Option<(Seq<char>, Seq<char>)>,
)
    requires
        is_reencoding(media_type, data, max_edge, output),
    ensures
        !is_oversized(data, max_edge) ==> output is None,
        output is None ==> !is_oversized(data, max_edge) || encoder_gave_nothing(
            media_type,
            data,
            max_edge,
        ),
{
}

/// What is sent is the given payload, which fits, or one that was clamped.
pub open spec fn is_sent_within(
    media_type: Seq<char>,
    data: Seq<char>,
    max_edge: u32,
    clamped: (Cow<'_, str>, Cow<'_, str>),
) -> bool {
    ||| is_untouched(clamped, media_type, data) && !is_oversized(data, max_edge)
    ||| clamped.1 is Owned && is_clamped(clamped.1@, max_edge)
}

/// Every image with an honest header goes out within the limit, unless the encoder makes no file of
/// the shrunk image, and then the given payload goes out rather than none.
pub proof fn law_image_goes_out_within_the_limit(
    slots: Seq<clamp_cache::CacheSlot>,
    after: Seq<clamp_cache::CacheSlot>,
    media_type: Seq<char>,
    data: Seq<char>,
    max_edge: u32,
    clamped: (Cow<'_, str>, Cow<'_, str>),
)
    requires
        all_clamped(slots),
        clamps(slots, after, media_type, data, max_edge, clamped),
        max_edge > 0,
        payload_file(data) is Some,
        codec::decoded_size(payload_file(data)->0) is Some,
        header_is_honest(data),
    ensures
        is_sent_within(media_type, data, max_edge, clamped) || encoder_gave_nothing(
            media_type,
            data,
            max_edge,
        ),
        !is_sent_within(media_type, data, max_edge, clamped) ==> is_untouched(
            clamped,
            media_type,
            data,
        ),
{
    lemma_clamped_stays_clamped(slots, after, media_type, data, max_edge, clamped);
}

/// Without a usable override that limit is 2000.
pub proof fn law_image_goes_out_within_the_default_limit(
    slots: Seq<clamp_cache::CacheSlot>,
    after: Seq<clamp_cache::CacheSlot>,
    media_type: Seq<char>,
    data: Seq<char>,
    setting: Option<Seq<char>>,
    clamped: (Cow<'_, str>, Cow<'_, str>),
)
    requires
        all_clamped(slots),
        is_unusable(setting),
        clamps(slots, after, media_type, data, max_edge_for(setting), clamped),
        payload_file(data) is Some,
        codec::decoded_size(payload_file(data)->0) is Some,
        header_is_honest(data),
    ensures
        is_sent_within(media_type, data, 2000, clamped) || encoder_gave_nothing(
            media_type,
            data,
            2000,
        ),
{
    law_image_goes_out_within_the_limit(slots, after, media_type, data, 2000, clamped);
}

/// No oversized image with an honest header goes out as it is, where it has to yield a file: what is
/// sent is the shrunk image's file in base64, and its header states the shrunk size. The longer
/// edge is exactly the limit, and the shorter one the proportional one, rounded.
pub proof fn law_oversized_image_is_replaced(
    slots: Seq<clamp_cache::CacheSlot>,
    after: Seq<clamp_cache::CacheSlot>,
    media_type: Seq<char>,
    data: Seq<char>,
    max_edge: u32,
    clamped: (Cow<'_, str>, Cow<'_, str>),
) -> (shrunk: (image::DynamicImage, Seq<u8>))
    requires
        clamps(slots, after, media_type, data, max_edge, clamped),
        max_edge > 0,
        header_is_honest(data),
        !clamp_cache::holds_key(slots, key_of(data, max_edge)),
        is_oversized(data, max_edge),
        file_is_owed(media_type, data, max_edge),
    ensures
        is_shrunk(data, max_edge, shrunk.0),
        is_output_file(media_type, shrunk.0, Some(shrunk.1)),
        shrunk.1.len() <= usize::MAX / 4 ==> {
            &&& is_replaced(
                clamped,
                output_media(media_type),
                codec::base64_encoded(shrunk.1),
            )
            &&& carries_file(clamped.1@, shrunk.1, shrunk.0)
        },
        shrunk.1.len() > usize::MAX / 4 ==> is_untouched(clamped, media_type, data) && after
            == slots,
{
    let output = choose|output: Option<(Seq<char>, Seq<char>)>| #[trigger]
        is_reencoding(media_type, data, max_edge, output) && settles(
            slots,
            after,
            key_of(data, max_edge),
            media_type,
            data,
            output,
            clamped,
        );
    let (resized, file) = choose|resized: image::DynamicImage, file: Option<Seq<u8>>| #[trigger]
        is_shrunk(data, max_edge, resized) && #[trigger] is_output_file(media_type, resized, file)
            && (file_is_owed(media_type, data, max_edge) ==> file is Some) && output == packaged(
            media_type,
            file,
        ) && (output matches Some((_, encoded)) ==> carries_file(encoded, file->0, resized));
    (resized, file->0)
}

} // verus!
