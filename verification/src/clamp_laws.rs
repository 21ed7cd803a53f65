//! What image clamping sends and remembers, in terms of the payload's own width, height and bytes.

use std::borrow::Cow;
use vstd::prelude::*;

use crate::clamp_cache;
use crate::clamp_cache::CacheKey;
use crate::codec;
use crate::image_clamp;
use crate::image_header;
use crate::text;

verus! {

// ---------------------------------------------------------------------------
// The limit
// ---------------------------------------------------------------------------

/// A positive number is the limit, whatever its size; anything else leaves it at 2000.
pub proof fn law_override_is_the_limit(setting: Option<Seq<char>>)
    ensures
        setting is None ==> image_clamp::max_edge_for(setting) == 2000,
        setting matches Some(text) ==> match text::u32_of_text(text::trimmed(text)) {
            Some(number) => if number > 0 {
                image_clamp::max_edge_for(setting) == number
            } else {
                image_clamp::max_edge_for(setting) == 2000
            },
            None => image_clamp::max_edge_for(setting) == 2000,
        },
{
}

/// What counts as a payload within reach: every payload under a limit up to 3 * 2^20, and every
/// payload that does not decode to an image with an edge beyond the limit.
pub proof fn law_ordinary_limits_are_in_reach(data: Seq<char>, max_edge: u32)
    ensures
        max_edge <= 3 * 0x10_0000 ==> image_clamp::is_in_reach(data, max_edge),
        match codec::base64_decoded(vstd::utf8::encode_utf8(text::trimmed(data))) {
            Some(file) => match codec::decoded_size(file) {
                Some((width, height)) => width <= max_edge && height <= max_edge
                    ==> image_clamp::is_in_reach(data, max_edge),
                None => image_clamp::is_in_reach(data, max_edge),
            },
            None => image_clamp::is_in_reach(data, max_edge),
        },
{
}

// ---------------------------------------------------------------------------
// The header
// ---------------------------------------------------------------------------

/// The size of a payload is what the file's first 1536 bytes state, and its file is the whole one.
#[verifier::spinoff_prover]
#[verifier::rlimit(60)]
pub proof fn law_header_is_read_from_the_front(data: Seq<char>, file: Seq<u8>)
    requires
        codec::is_base64_of(data, file),
    ensures
        image_clamp::payload_file(data) == Some(file),
        image_clamp::payload_size(data) == image_header::header_dimensions(
            if file.len() <= 1536 {
                file
            } else {
                file.take(1536)
            },
        ),
{
    let bytes = vstd::utf8::encode_utf8(data);
    assert forall|i: int| 0 <= i < data.len() implies '\0' <= #[trigger] data[i] <= '\u{7f}' by {
        assert(codec::is_base64_char(data[i]));
    }
    vstd::utf8::is_ascii_chars_encode_utf8(data);
    if data.len() > 0 {
        assert(codec::is_base64_char(data[0]));
        assert(codec::is_base64_char(data[data.len() - 1]));
    }
    assert(text::trimmed_start(data) == data);
    assert(text::trimmed(data) == data);
    let groups = data.len() as int / 4;
    assert(bytes.take(4 * groups) =~= bytes);
    assert(file.take(file.len() as int) =~= file);
    assert(codec::front(file, 3 * groups) == file);
    if data.len() < 2048 {
        assert(image_clamp::header_prefix(data) =~= bytes.take(4 * groups));
        assert(file.len() <= 1536);
    } else {
        let few: int = 512;
        assert(image_clamp::header_prefix(data) =~= bytes.take(4 * few));
        assert(codec::front(file, 3 * few) == if file.len() <= 1536 {
            file
        } else {
            file.take(1536)
        });
    }
}

/// The header of any text is looked for in its first 2048 bytes behind white space, or in all of them
/// where there are fewer, less the one to three that complete no group of four.
pub proof fn law_header_is_looked_for_in_whole_groups(data: Seq<char>)
    ensures
        ({
            let bytes = vstd::utf8::encode_utf8(text::trimmed_start(data));
            let reach: int = if bytes.len() >= 2048 {
                2048
            } else {
                bytes.len() as int - bytes.len() as int % 4
            };
            image_clamp::payload_size(data) == match codec::base64_decoded(bytes.take(reach)) {
                Some(header) => image_header::header_dimensions(header),
                None => None,
            }
        }),
{
}

/// White space around a payload does not matter: none in front of it moves the header, and none on
/// either side changes the file.
pub proof fn law_white_space_around_a_payload_is_ignored(data: Seq<char>, front: char, back: char)
    requires
        text::is_white_space(front),
        text::is_white_space(back),
    ensures
        image_clamp::payload_size(seq![front] + data) == image_clamp::payload_size(data),
        image_clamp::payload_file(seq![front] + data) == image_clamp::payload_file(data),
        image_clamp::payload_file(data.push(back)) == image_clamp::payload_file(data),
{
    let padded = seq![front] + data;
    assert(padded.drop_first() =~= data);
    assert(text::trimmed_start(padded) == text::trimmed_start(data));
    lemma_trimmed_start_of_push(data, back);
    let rest = text::trimmed_start(data);
    assert(rest.push(back).drop_last() =~= rest);
    assert(text::trimmed(data.push(back)) == text::trimmed(data));
}

/// White space that is appended stays behind what is left, if anything is.
proof fn lemma_trimmed_start_of_push(data: Seq<char>, back: char)
    requires
        text::is_white_space(back),
    ensures
        text::trimmed_start(data).len() > 0 ==> text::trimmed_start(data.push(back))
            == text::trimmed_start(data).push(back),
        text::trimmed_start(data).len() == 0 ==> text::trimmed_start(data.push(back)).len() == 0,
    decreases data.len(),
{
    let longer = data.push(back);
    if data.len() == 0 {
        assert(longer.drop_first() =~= seq![]);
        assert(text::trimmed_start(longer) == text::trimmed_start(longer.drop_first()));
        assert(text::trimmed_start(longer.drop_first()).len() == 0);
    } else if text::is_white_space(data[0]) {
        assert(longer.drop_first() =~= data.drop_first().push(back));
        lemma_trimmed_start_of_push(data.drop_first(), back);
    }
}

// ---------------------------------------------------------------------------
// What is sent
// ---------------------------------------------------------------------------

/// The key of a payload under a limit.
pub open spec fn is_filed(
    slots: Seq<clamp_cache::CacheSlot>,
    data: Seq<char>,
    max_edge: u32,
) -> bool {
    exists|i: int|
        0 <= i < slots.len() && (#[trigger] slots[i]).key.hash == clamp_cache::text_hash(data)
            && slots[i].key.len == vstd::utf8::encode_utf8(data).len() as usize
            && slots[i].key.max_edge == max_edge
}

/// No limit, or a header that states a width and a height that are both within it: the payload and
/// its media type go out as they are, without a copy, and nothing is remembered.
pub proof fn law_image_within_the_limit_is_untouched(
    slots: Seq<clamp_cache::CacheSlot>,
    after: Seq<clamp_cache::CacheSlot>,
    media_type: Seq<char>,
    data: Seq<char>,
    max_edge: u32,
    clamped: (Cow<'_, str>, Cow<'_, str>),
    width: int,
    height: int,
)
    requires
        image_clamp::clamps(slots, after, media_type, data, max_edge, clamped),
        max_edge == 0 || (image_clamp::payload_size(data) == Some((width, height)) && width
            <= max_edge && height <= max_edge),
    ensures
        clamped.0 is Borrowed && clamped.0@ == media_type,
        clamped.1 is Borrowed && clamped.1@ == data,
        after == slots,
{
}

/// What is no base64, no image, or an image that decodes to a width and a height within the limit
/// goes out as it is, where no result is filed for it.
pub proof fn law_nothing_to_shrink_is_untouched(
    slots: Seq<clamp_cache::CacheSlot>,
    after: Seq<clamp_cache::CacheSlot>,
    media_type: Seq<char>,
    data: Seq<char>,
    max_edge: u32,
    clamped: (Cow<'_, str>, Cow<'_, str>),
)
    requires
        image_clamp::clamps(slots, after, media_type, data, max_edge, clamped),
        !is_filed(slots, data, max_edge),
        match codec::base64_decoded(vstd::utf8::encode_utf8(text::trimmed(data))) {
            Some(file) => match codec::decoded_size(file) {
                Some((width, height)) => width <= max_edge && height <= max_edge,
                None => true,
            },
            None => true,
        },
    ensures
        clamped.0 is Borrowed && clamped.0@ == media_type,
        clamped.1 is Borrowed && clamped.1@ == data,
        after == slots,
{
    lemma_key_is_not_held(slots, data, max_edge);
}

proof fn lemma_key_is_not_held(
    slots: Seq<clamp_cache::CacheSlot>,
    data: Seq<char>,
    max_edge: u32,
)
    ensures
        clamp_cache::holds_key(slots, image_clamp::key_of(data, max_edge)) <==> is_filed(
            slots,
            data,
            max_edge,
        ),
{
    let key = image_clamp::key_of(data, max_edge);
    if clamp_cache::holds_key(slots, key) {
        let i = choose|i: int| 0 <= i < slots.len() && (#[trigger] slots[i]).key == key;
        assert(slots[i].key.hash == clamp_cache::text_hash(data));
    }
    if is_filed(slots, data, max_edge) {
        let i = choose|i: int|
            0 <= i < slots.len() && (#[trigger] slots[i]).key.hash == clamp_cache::text_hash(data)
                && slots[i].key.len == vstd::utf8::encode_utf8(data).len() as usize
                && slots[i].key.max_edge == max_edge;
        assert(slots[i].key == key);
    }
}

/// What is sent for an image beyond the limit: the image as it was shrunk, its file, and the size
/// that both state.
pub ghost struct ShrunkImage {
    pub image: image::DynamicImage,
    pub file: Seq<u8>,
    pub width: int,
    pub height: int,
}

/// An image that decodes to a width or a height beyond the limit, whose header does not misstate
/// them, and for which no result is filed, is replaced. The new payload states a width and a height
/// that are both at least 1 and at most the limit, in the prefix as in the whole file. The longer
/// edge is the limit, and the shorter one is the proportional one to the nearest pixel. JPEG stays
/// JPEG, at quality 85, and everything else becomes PNG; the media type says which. The result is
/// filed.
///
/// The encoder owes the file for JPEG up to a limit of 65535, and for PNG of every image but one of
/// sixteen bits per sample. A file of more than a quarter of the address space is not sent.
#[verifier::spinoff_prover]
#[verifier::rlimit(60)]
pub proof fn law_image_beyond_the_limit_is_shrunk(
    slots: Seq<clamp_cache::CacheSlot>,
    after: Seq<clamp_cache::CacheSlot>,
    media_type: Seq<char>,
    data: Seq<char>,
    max_edge: u32,
    clamped: (Cow<'_, str>, Cow<'_, str>),
    file: Seq<u8>,
    width: u32,
    height: u32,
) -> (sent: ShrunkImage)
    requires
        image_clamp::clamps(slots, after, media_type, data, max_edge, clamped),
        max_edge > 0,
        codec::base64_decoded(vstd::utf8::encode_utf8(text::trimmed(data))) == Some(file),
        codec::decoded_size(file) == Some((width, height)),
        image_clamp::payload_size(data) matches Some(stated) ==> stated == (
            width as int,
            height as int,
        ),
        width > max_edge || height > max_edge,
        !is_filed(slots, data, max_edge),
        if text::same_but_for_ascii_case(media_type, "image/jpeg"@)
            || text::same_but_for_ascii_case(media_type, "image/jpg"@) {
            max_edge <= 65535
        } else {
            !(file.len() > 24 && file.take(8) == seq![
                0x89u8,
                0x50,
                0x4E,
                0x47,
                0x0D,
                0x0A,
                0x1A,
                0x0A,
            ] && file[24] == 16)
        },
    ensures
        1 <= sent.width <= max_edge,
        1 <= sent.height <= max_edge,
        width >= height ==> sent.width == max_edge,
        height >= width ==> sent.height == max_edge,
        width >= height ==> -width <= 2 * (sent.height * width - height * max_edge) <= width || (
        sent.height == 1 && 2 * (height * max_edge) <= width),
        height >= width ==> -height <= 2 * (sent.width * height - width * max_edge) <= height || (
        sent.width == 1 && 2 * (width * max_edge) <= height),
        codec::image_size(sent.image).0 == sent.width && codec::image_size(sent.image).1
            == sent.height,
        exists|whole: image::DynamicImage| #[trigger]
            codec::decodes_to(file, whole) && codec::resizes_to(whole, max_edge, sent.image),
        if text::same_but_for_ascii_case(media_type, "image/jpeg"@)
            || text::same_but_for_ascii_case(media_type, "image/jpg"@) {
            codec::jpeg_file(sent.image, 85) == Some(sent.file)
        } else {
            codec::png_file(sent.image) == sent.file
        },
        sent.file.len() <= usize::MAX / 4 ==> {
            &&& clamped.0 is Owned
            &&& clamped.0@ == if text::same_but_for_ascii_case(media_type, "image/jpeg"@)
                || text::same_but_for_ascii_case(media_type, "image/jpg"@) {
                "image/jpeg"@
            } else {
                "image/png"@
            }
            &&& clamped.1 is Owned
            &&& clamped.1@ == codec::base64_encoded(sent.file)
            &&& image_clamp::payload_size(clamped.1@) == Some((sent.width, sent.height))
            &&& codec::base64_decoded(vstd::utf8::encode_utf8(text::trimmed(clamped.1@))) == Some(
                sent.file,
            )
            &&& image_header::header_dimensions(sent.file) == Some((sent.width, sent.height))
            &&& is_filed(after, data, max_edge)
            &&& after.len() > 0
            &&& after.last().media_type == clamped.0@
            &&& after.last().data == clamped.1@
        },
        sent.file.len() > usize::MAX / 4 ==> {
            &&& clamped.0 is Borrowed && clamped.0@ == media_type
            &&& clamped.1 is Borrowed && clamped.1@ == data
            &&& after == slots
        },
{
    lemma_key_is_not_held(slots, data, max_edge);
    lemma_key_is_not_held(after, data, max_edge);
    assert(!codec::is_deep_png(file) || image_clamp::wants_jpeg(media_type)) by {
        if codec::is_deep_png(file) {
            assert(file.take(8) =~= file.subrange(0, 8));
        }
    }
    let (resized, encoded) = image_clamp::law_oversized_image_is_replaced(
        slots,
        after,
        media_type,
        data,
        max_edge,
        clamped,
    );
    let size = codec::image_size(resized);
    let key = image_clamp::key_of(data, max_edge);
    if encoded.len() <= usize::MAX / 4 {
        let slot = clamp_cache::CacheSlot { key, media_type: clamped.0@, data: clamped.1@ };
        clamp_cache::law_what_is_filed_is_found(slots, slot);
    }
    ShrunkImage {
        image: resized,
        file: encoded,
        width: size.0 as int,
        height: size.1 as int,
    }
}

/// Where the encoder owes nothing, an image beyond the limit still goes out within it or as it came,
/// and as it came only if the encoder was given the shrunk image and made no file that can be sent.
pub proof fn law_image_beyond_the_limit_goes_out_shrunk_or_whole(
    slots: Seq<clamp_cache::CacheSlot>,
    after: Seq<clamp_cache::CacheSlot>,
    media_type: Seq<char>,
    data: Seq<char>,
    max_edge: u32,
    clamped: (Cow<'_, str>, Cow<'_, str>),
    file: Seq<u8>,
    width: u32,
    height: u32,
)
    requires
        image_clamp::clamps(slots, after, media_type, data, max_edge, clamped),
        max_edge > 0,
        codec::base64_decoded(vstd::utf8::encode_utf8(text::trimmed(data))) == Some(file),
        codec::decoded_size(file) == Some((width, height)),
        image_clamp::payload_size(data) matches Some(stated) ==> stated == (
            width as int,
            height as int,
        ),
        width > max_edge || height > max_edge,
        !is_filed(slots, data, max_edge),
    ensures
        clamped.1 is Owned ==> exists|w: int, h: int|
            1 <= w <= max_edge && 1 <= h <= max_edge && #[trigger] image_clamp::payload_states(
                clamped.1@,
                (w, h),
            ),
        clamped.1 is Borrowed ==> clamped.0 is Borrowed && clamped.0@ == media_type && clamped.1@
            == data && after == slots,
        clamped.1 is Borrowed ==> exists|resized: image::DynamicImage, made: Option<Seq<u8>>|
            #![trigger image_clamp::is_output_file(media_type, resized, made)]
            image_clamp::is_output_file(media_type, resized, made) && image_clamp::is_shrunk(
                data,
                max_edge,
                resized,
            ) && (made matches Some(bytes) ==> bytes.len() > usize::MAX / 4),
{
    lemma_key_is_not_held(slots, data, max_edge);
    let output = choose|output: Option<(Seq<char>, Seq<char>)>| #[trigger]
        image_clamp::is_reencoding(media_type, data, max_edge, output) && image_clamp::settles(
            slots,
            after,
            image_clamp::key_of(data, max_edge),
            media_type,
            data,
            output,
            clamped,
        );
    let (resized, made) = choose|resized: image::DynamicImage, made: Option<Seq<u8>>| #[trigger]
        image_clamp::is_shrunk(data, max_edge, resized) && #[trigger] image_clamp::is_output_file(
            media_type,
            resized,
            made,
        ) && (image_clamp::file_is_owed(media_type, data, max_edge) ==> made is Some) && output
            == image_clamp::packaged(media_type, made) && (output matches Some((_, encoded))
            ==> image_clamp::carries_file(encoded, made->0, resized));
    let size = codec::image_size(resized);
    if clamped.1 is Owned {
        assert(image_clamp::payload_states(clamped.1@, (size.0 as int, size.1 as int)));
    }
}

/// A filed result is what goes out, as a copy, and the cache stays as it is.
pub proof fn law_filed_result_goes_out(
    slots: Seq<clamp_cache::CacheSlot>,
    after: Seq<clamp_cache::CacheSlot>,
    media_type: Seq<char>,
    data: Seq<char>,
    max_edge: u32,
    clamped: (Cow<'_, str>, Cow<'_, str>),
    at: int,
)
    requires
        image_clamp::clamps(slots, after, media_type, data, max_edge, clamped),
        clamp_cache::is_cache(slots),
        max_edge > 0,
        image_clamp::payload_size(data) matches Some((width, height)) ==> width > max_edge || height
            > max_edge,
        0 <= at < slots.len(),
        slots[at].key.hash == clamp_cache::text_hash(data),
        slots[at].key.len == vstd::utf8::encode_utf8(data).len() as usize,
        slots[at].key.max_edge == max_edge,
    ensures
        clamped.0 is Owned && clamped.0@ == slots[at].media_type,
        clamped.1 is Owned && clamped.1@ == slots[at].data,
        after == slots,
{
    let key = image_clamp::key_of(data, max_edge);
    assert(slots[at].key == key);
    let sent = clamp_cache::CacheSlot { key, media_type: clamped.0@, data: clamped.1@ };
    clamp_cache::law_reading_is_unambiguous(slots, slots[at], sent);
}

/// A clamped payload states a width and a height that are both within the limit.
pub proof fn law_clamped_payload_states_both_edges(data: Seq<char>, max_edge: u32)
    requires
        image_clamp::is_clamped(data, max_edge),
    ensures
        exists|width: int, height: int|
            width <= max_edge && height <= max_edge && #[trigger] image_clamp::payload_states(
                data,
                (width, height),
            ),
{
    let size = image_clamp::payload_size(data)->0;
    assert(image_clamp::payload_states(data, (size.0, size.1)));
}

/// What is known of a payload whose size is stated: both the prefix and the whole file state it.
pub proof fn law_stated_size_is_read_either_way(data: Seq<char>, width: int, height: int)
    requires
        image_clamp::payload_states(data, (width, height)),
    ensures
        image_clamp::payload_size(data) == Some((width, height)),
        codec::base64_decoded(vstd::utf8::encode_utf8(text::trimmed(data))) matches Some(file)
            && image_header::header_dimensions(file) == Some((width, height)),
{
}

/// An encoder's file goes out in base64 under the media type of its format, and without a file
/// nothing does.
pub proof fn law_file_is_packaged(media_type: Seq<char>, file: Seq<u8>)
    ensures
        image_clamp::packaged(media_type, None) is None,
        file.len() <= usize::MAX / 4 ==> image_clamp::packaged(media_type, Some(file)) == Some(
            (
                if text::same_but_for_ascii_case(media_type, "image/jpeg"@)
                    || text::same_but_for_ascii_case(media_type, "image/jpg"@) {
                    "image/jpeg"@
                } else {
                    "image/png"@
                },
                codec::base64_encoded(file),
            ),
        ),
{
}

/// A payload needs no re-encoding exactly where there is no limit, where its header states a width
/// and a height within it, or where a result is filed.
pub proof fn law_settled_without_encoding(
    slots: Seq<clamp_cache::CacheSlot>,
    data: Seq<char>,
    max_edge: u32,
)
    ensures
        image_clamp::is_settled(slots, data, max_edge) <==> {
            ||| max_edge == 0
            ||| image_clamp::payload_size(data) matches Some((width, height)) && width <= max_edge
                && height <= max_edge
            ||| is_filed(slots, data, max_edge)
        },
{
    lemma_key_is_not_held(slots, data, max_edge);
}

// ---------------------------------------------------------------------------
// The cache
// ---------------------------------------------------------------------------

/// Filing under a key that is taken changes nothing. Otherwise the result goes to the end. Below 64
/// results all others stay in place; at 64 the first leaves and the others move up.
pub proof fn law_sixty_four_results_are_kept(
    slots: Seq<clamp_cache::CacheSlot>,
    slot: clamp_cache::CacheSlot,
)
    requires
        slots.len() <= 64,
    ensures
        ({
            let after = clamp_cache::with_slot(slots, slot);
            let taken = exists|i: int|
                0 <= i < slots.len() && (#[trigger] slots[i]).key.hash == slot.key.hash
                    && slots[i].key.len == slot.key.len && slots[i].key.max_edge
                    == slot.key.max_edge;
            &&& taken ==> after == slots
            &&& !taken ==> after.len() > 0 && after.last() == slot
            &&& !taken && slots.len() < 64 ==> after.len() == slots.len() + 1 && forall|i: int|
                0 <= i < slots.len() ==> #[trigger] after[i] == slots[i]
            &&& !taken && slots.len() == 64 ==> after.len() == 64 && forall|i: int|
                0 <= i < 63 ==> #[trigger] after[i] == slots[i + 1]
        }),
{
    let after = clamp_cache::with_slot(slots, slot);
    if clamp_cache::holds_key(slots, slot.key) {
        let i = choose|i: int| 0 <= i < slots.len() && (#[trigger] slots[i]).key == slot.key;
        assert(slots[i].key.hash == slot.key.hash);
    } else {
        assert forall|i: int| 0 <= i < slots.len() implies !((#[trigger] slots[i]).key.hash
            == slot.key.hash && slots[i].key.len == slot.key.len && slots[i].key.max_edge
            == slot.key.max_edge) by {
            assert(slots[i].key != slot.key);
        }
    }
}

/// A cache holds at most 64 results, no two under one key.
pub proof fn law_cache_is_bounded_and_unambiguous(slots: Seq<clamp_cache::CacheSlot>)
    ensures
        clamp_cache::is_cache(slots) <==> {
            &&& slots.len() <= 64
            &&& forall|i: int, j: int|
                0 <= i < j < slots.len() ==> {
                    ||| (#[trigger] slots[i]).key.hash != (#[trigger] slots[j]).key.hash
                    ||| slots[i].key.len != slots[j].key.len
                    ||| slots[i].key.max_edge != slots[j].key.max_edge
                }
        },
{
    if clamp_cache::is_cache(slots) {
        assert forall|i: int, j: int| 0 <= i < j < slots.len() implies {
            ||| (#[trigger] slots[i]).key.hash != (#[trigger] slots[j]).key.hash
            ||| slots[i].key.len != slots[j].key.len
            ||| slots[i].key.max_edge != slots[j].key.max_edge
        } by {
            assert(slots[i].key != slots[j].key);
        }
    }
}

/// A payload's key is the hash of its bytes and a closing byte, its length in bytes, and the limit:
/// another length or another limit is another key.
pub proof fn law_key_tells_length_and_limit(
    data: Seq<char>,
    other: Seq<char>,
    max_edge: u32,
    other_edge: u32,
)
    ensures
        image_clamp::key_of(data, max_edge) == (CacheKey {
            hash: clamp_cache::text_hash(data),
            len: vstd::utf8::encode_utf8(data).len() as usize,
            max_edge,
        }),
        clamp_cache::text_hash(data) == <std::collections::hash_map::DefaultHasher as vstd::std_specs::hash::DefaultHasherAdditionalSpecFns>::spec_finish(
            seq![vstd::utf8::encode_utf8(data), seq![0xFFu8]],
        ),
        max_edge != other_edge ==> image_clamp::key_of(data, max_edge) != image_clamp::key_of(
            other,
            other_edge,
        ),
        vstd::utf8::encode_utf8(data).len() as usize != vstd::utf8::encode_utf8(other).len()
            as usize ==> image_clamp::key_of(data, max_edge) != image_clamp::key_of(
            other,
            other_edge,
        ),
{
}

} // verus!
