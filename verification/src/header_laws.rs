//! What the header reader gives for every file that is laid out as the four formats demand, byte by
//! byte, and for every file that is not.

use vstd::prelude::*;

use crate::image_header;

verus! {

// ---------------------------------------------------------------------------
// PNG
// ---------------------------------------------------------------------------

/// A PNG signature, the eight bytes that open the IHDR chunk, the width and the height as big-endian
/// 32-bit numbers, and at least one more byte: the result is that width and that height.
#[verifier::spinoff_prover]
#[verifier::rlimit(60)]
pub proof fn law_png_states_its_size(opening: Seq<u8>, width: u32, height: u32, rest: Seq<u8>)
    requires
        opening.len() == 8,
        rest.len() >= 1,
    ensures
        image_header::header_dimensions(
            seq![0x89u8, 0x50, 0x4E, 0x47, 0x0D, 0x0A, 0x1A, 0x0A] + opening + seq![
                (width / 0x100_0000) as u8,
                (width / 0x1_0000 % 0x100) as u8,
                (width / 0x100 % 0x100) as u8,
                (width % 0x100) as u8,
                (height / 0x100_0000) as u8,
                (height / 0x1_0000 % 0x100) as u8,
                (height / 0x100 % 0x100) as u8,
                (height % 0x100) as u8,
            ] + rest,
        ) == Some((width as int, height as int)),
{
    let data = seq![0x89u8, 0x50, 0x4E, 0x47, 0x0D, 0x0A, 0x1A, 0x0A] + opening + seq![
        (width / 0x100_0000) as u8,
        (width / 0x1_0000 % 0x100) as u8,
        (width / 0x100 % 0x100) as u8,
        (width % 0x100) as u8,
        (height / 0x100_0000) as u8,
        (height / 0x1_0000 % 0x100) as u8,
        (height / 0x100 % 0x100) as u8,
        (height % 0x100) as u8,
    ] + rest;
    assert(data.subrange(0, 8) =~= image_header::png_signature());
}

// ---------------------------------------------------------------------------
// JPEG
// ---------------------------------------------------------------------------

/// A segment that holds no frame: bytes that are stepped over, the marker, its length, and what that
/// covers.
pub ghost struct JpegSegment {
    pub gap: Seq<u8>,
    pub marker: u8,
    pub length: int,
    pub body: Seq<u8>,
}

/// The bytes of a segment.
pub open spec fn segment_bytes(segment: JpegSegment) -> Seq<u8> {
    segment.gap + seq![
        0xFFu8,
        segment.marker,
        (segment.length / 0x100) as u8,
        (segment.length % 0x100) as u8,
    ] + segment.body
}

/// The bytes of a row of segments.
pub open spec fn segments_bytes(segments: Seq<JpegSegment>) -> Seq<u8>
    decreases segments.len(),
{
    if segments.len() == 0 {
        seq![]
    } else {
        segment_bytes(segments[0]) + segments_bytes(segments.drop_first())
    }
}

/// Segments that can be told apart by their markers and lengths. A length counts itself and the body;
/// one that is too small to count itself covers nothing.
pub open spec fn are_segments(segments: Seq<JpegSegment>) -> bool {
    forall|i: int|
        0 <= i < segments.len() ==> {
            &&& (#[trigger] segments[i]).body.len() + 2 <= 0xFFFF
            &&& segments[i].length == segments[i].body.len() + 2 || (0 <= segments[i].length < 2
                && segments[i].body.len() == 0)
            &&& forall|k: int|
                0 <= k < segments[i].gap.len() ==> #[trigger] segments[i].gap[k] != 0xFF
        }
}

/// A start of image, any row of segments that hold no frame, and then a frame: the result is the
/// frame's width and height. Frames are what the markers C0 to C3, C5 to C7, C9 to CB and CD to CF
/// open; quantization tables (DB), application data (E0 to EF) and all other segments are passed
/// over by their lengths.
#[verifier::spinoff_prover]
#[verifier::rlimit(60)]
pub proof fn law_jpeg_states_its_frame(
    segments: Seq<JpegSegment>,
    gap: Seq<u8>,
    marker: u8,
    before: Seq<u8>,
    width: u16,
    height: u16,
    rest: Seq<u8>,
)
    requires
        are_segments(segments),
        forall|i: int|
            0 <= i < segments.len() ==> {
                let m = (#[trigger] segments[i]).marker;
                !(0xC0 <= m <= 0xC3 || 0xC5 <= m <= 0xC7 || 0xC9 <= m <= 0xCB || 0xCD <= m <= 0xCF)
            },
        forall|k: int| 0 <= k < gap.len() ==> #[trigger] gap[k] != 0xFF,
        0xC0 <= marker <= 0xC3 || 0xC5 <= marker <= 0xC7 || 0xC9 <= marker <= 0xCB || 0xCD <= marker
            <= 0xCF,
        before.len() == 3,
        rest.len() >= 1,
    ensures
        image_header::header_dimensions(
            seq![0xFFu8, 0xD8] + segments_bytes(segments) + (gap + seq![0xFFu8, marker] + before
                + seq![
                (height / 0x100) as u8,
                (height % 0x100) as u8,
                (width / 0x100) as u8,
                (width % 0x100) as u8,
            ] + rest),
        ) == Some((width as int, height as int)),
{
    let frame = seq![0xFFu8, marker] + before + seq![
        (height / 0x100) as u8,
        (height % 0x100) as u8,
        (width / 0x100) as u8,
        (width % 0x100) as u8,
    ];
    let tail = gap + seq![0xFFu8, marker] + before + seq![
        (height / 0x100) as u8,
        (height % 0x100) as u8,
        (width / 0x100) as u8,
        (width % 0x100) as u8,
    ] + rest;
    let data = seq![0xFFu8, 0xD8] + segments_bytes(segments) + tail;
    lemma_no_png(data);
    assert(data.skip(2) =~= segments_bytes(segments) + tail);
    lemma_segments_are_passed(data, 2, segments, tail);
    let at: int = 2 + segments_bytes(segments).len() as int;
    assert forall|k: int| 0 <= k < gap.len() implies data[#[trigger] (at + k)] != 0xFF by {
        assert(data[at + k] == tail[k]);
        assert(tail[k] == gap[k]);
    }
    lemma_gap_is_passed(data, at, gap.len() as int);
    let start: int = at + gap.len();
    assert forall|k: int| 0 <= k < frame.len() implies data[start + k] == #[trigger] frame[k] by {
        assert(data[start + k] == tail[gap.len() + k]);
    }
    assert(data[start] == frame[0]);
    assert(data[start + 1] == frame[1]);
    assert(data[start + 5] == frame[5]);
    assert(data[start + 6] == frame[6]);
    assert(data[start + 7] == frame[7]);
    assert(data[start + 8] == frame[8]);
}

/// A start of image and segments without a frame state nothing, also where fewer than ten bytes of
/// anything follow, such as a frame that is cut short.
pub proof fn law_jpeg_without_a_frame_states_nothing(segments: Seq<JpegSegment>, rest: Seq<u8>)
    requires
        are_segments(segments),
        forall|i: int|
            0 <= i < segments.len() ==> {
                let m = (#[trigger] segments[i]).marker;
                !(0xC0 <= m <= 0xC3 || 0xC5 <= m <= 0xC7 || 0xC9 <= m <= 0xCB || 0xCD <= m <= 0xCF)
            },
        rest.len() < 10,
    ensures
        image_header::header_dimensions(
            seq![0xFFu8, 0xD8] + segments_bytes(segments) + rest,
        ) is None,
{
    let data = seq![0xFFu8, 0xD8] + segments_bytes(segments) + rest;
    lemma_no_png(data);
    assert(data.skip(2) =~= segments_bytes(segments) + rest);
    lemma_segments_are_passed(data, 2, segments, rest);
    assert(data[0] == 0xFF);
    if data.len() > 10 {
        assert(data.subrange(0, 6)[0] == 0xFF);
        assert(data.subrange(0, 4)[0] == 0xFF);
    }
}

/// A segment that reaches to within nine bytes of the end, or past it, hides whatever it covers.
pub proof fn law_jpeg_segment_past_the_end_states_nothing(
    segments: Seq<JpegSegment>,
    marker: u8,
    length: u16,
    rest: Seq<u8>,
)
    requires
        are_segments(segments),
        forall|i: int|
            0 <= i < segments.len() ==> {
                let m = (#[trigger] segments[i]).marker;
                !(0xC0 <= m <= 0xC3 || 0xC5 <= m <= 0xC7 || 0xC9 <= m <= 0xCB || 0xCD <= m <= 0xCF)
            },
        !(0xC0 <= marker <= 0xC3 || 0xC5 <= marker <= 0xC7 || 0xC9 <= marker <= 0xCB || 0xCD
            <= marker <= 0xCF),
        length + 7 >= rest.len(),
    ensures
        image_header::header_dimensions(
            seq![0xFFu8, 0xD8] + segments_bytes(segments) + (seq![
                0xFFu8,
                marker,
                (length / 0x100) as u8,
                (length % 0x100) as u8,
            ] + rest),
        ) is None,
{
    let head = seq![0xFFu8, marker, (length / 0x100) as u8, (length % 0x100) as u8];
    let tail = head + rest;
    let data = seq![0xFFu8, 0xD8] + segments_bytes(segments) + tail;
    lemma_no_png(data);
    assert(data.skip(2) =~= segments_bytes(segments) + tail);
    lemma_segments_are_passed(data, 2, segments, tail);
    let at: int = 2 + segments_bytes(segments).len() as int;
    assert(data[at] == tail[0]);
    assert(data[at + 1] == tail[1]);
    assert(data[at + 2] == tail[2]);
    assert(data[at + 3] == tail[3]);
    assert(tail[0] == 0xFF && tail[1] == marker);
    assert(tail[2] == head[2] && tail[3] == head[3]);
    assert(image_header::be16(data, at + 2) == length);
    assert(image_header::jpeg_dimensions(data, at + 2 + length) is None);
}

proof fn lemma_no_png(data: Seq<u8>)
    requires
        data.len() >= 2,
        data[0] == 0xFF,
    ensures
        !image_header::is_png(data),
{
    if data.len() > 24 {
        assert(data.subrange(0, 8)[0] == 0xFF);
    }
}

/// Bytes that open no marker are passed over.
proof fn lemma_gap_is_passed(data: Seq<u8>, at: int, count: int)
    requires
        0 <= at,
        0 <= count,
        at + count <= data.len(),
        forall|k: int| 0 <= k < count ==> data[#[trigger] (at + k)] != 0xFF,
    ensures
        image_header::jpeg_dimensions(data, at) == image_header::jpeg_dimensions(data, at + count),
    decreases count,
{
    if count > 0 {
        assert(data[at + 0] != 0xFF);
        assert forall|k: int| 0 <= k < count - 1 implies data[#[trigger] (at + 1 + k)] != 0xFF by {
            assert(data[at + (k + 1)] != 0xFF);
        }
        lemma_gap_is_passed(data, at + 1, count - 1);
    }
}

/// Segments without a frame are passed over.
#[verifier::spinoff_prover]
#[verifier::rlimit(60)]
proof fn lemma_segments_are_passed(
    data: Seq<u8>,
    at: int,
    segments: Seq<JpegSegment>,
    tail: Seq<u8>,
)
    requires
        0 <= at <= data.len(),
        data.skip(at) == segments_bytes(segments) + tail,
        are_segments(segments),
        forall|i: int|
            0 <= i < segments.len() ==> {
                let m = (#[trigger] segments[i]).marker;
                !(0xC0 <= m <= 0xC3 || 0xC5 <= m <= 0xC7 || 0xC9 <= m <= 0xCB || 0xCD <= m <= 0xCF)
            },
    ensures
        image_header::jpeg_dimensions(data, at) == image_header::jpeg_dimensions(
            data,
            at + segments_bytes(segments).len(),
        ),
    decreases segments.len(),
{
    if segments.len() > 0 {
        let first = segments[0];
        let others = segments.drop_first();
        let length = first.length;
        let bytes = segment_bytes(first);
        let all = data.skip(at);
        assert(all == bytes + segments_bytes(others) + tail);
        assert(forall|k: int| 0 <= k < bytes.len() ==> data[at + k] == #[trigger] bytes[k]) by {
            assert forall|k: int| 0 <= k < bytes.len() implies data[at + k] == #[trigger] bytes[k] by {
                assert(all[k] == data[at + k]);
            }
        }
        assert forall|k: int| 0 <= k < first.gap.len() implies data[#[trigger] (at + k)] != 0xFF by {
            assert(data[at + k] == bytes[k]);
            assert(bytes[k] == first.gap[k]);
        }
        lemma_gap_is_passed(data, at, first.gap.len() as int);
        let g = first.gap.len() as int;
        let start = at + g;
        assert(data[at + g] == bytes[g]);
        assert(data[at + (g + 1)] == bytes[g + 1]);
        assert(data[at + (g + 2)] == bytes[g + 2]);
        assert(data[at + (g + 3)] == bytes[g + 3]);
        assert(image_header::be16(data, start + 2) == length);
        let next = at + bytes.len();
        assert(image_header::jpeg_dimensions(data, start) == image_header::jpeg_dimensions(
            data,
            start + 2 + length,
        ));
        if length < 2 {
            // The length itself is stepped over byte by byte.
            assert forall|k: int| 0 <= k < 2 - length implies data[#[trigger] (start + 2 + length
                + k)] != 0xFF by {
                if length + k == 0 {
                    assert(data[start + 2] == 0);
                } else {
                    assert(data[start + 3] == length);
                }
            }
            lemma_gap_is_passed(data, start + 2 + length, 2 - length);
        }
        assert(data.skip(next) =~= segments_bytes(others) + tail) by {
            assert(data.skip(next) =~= all.skip(bytes.len() as int));
        }
        assert(forall|i: int| 0 <= i < others.len() ==> #[trigger] others[i] == segments[i + 1]);
        lemma_segments_are_passed(data, next, others, tail);
    }
}

// ---------------------------------------------------------------------------
// GIF
// ---------------------------------------------------------------------------

/// `GIF87a` or `GIF89a`, the width and the height as little-endian 16-bit numbers, and at least one
/// more byte: the result is that width and that height.
pub proof fn law_gif_states_its_size(version: u8, width: u16, height: u16, rest: Seq<u8>)
    requires
        version == 0x37 || version == 0x39,
        rest.len() >= 1,
    ensures
        image_header::header_dimensions(
            seq![
                0x47u8,
                0x49,
                0x46,
                0x38,
                version,
                0x61,
                (width % 0x100) as u8,
                (width / 0x100) as u8,
                (height % 0x100) as u8,
                (height / 0x100) as u8,
            ] + rest,
        ) == Some((width as int, height as int)),
{
    let data = seq![
        0x47u8,
        0x49,
        0x46,
        0x38,
        version,
        0x61,
        (width % 0x100) as u8,
        (width / 0x100) as u8,
        (height % 0x100) as u8,
        (height / 0x100) as u8,
    ] + rest;
    if data.len() > 24 {
        assert(data.subrange(0, 8)[0] == 0x47);
    }
    if version == 0x37 {
        assert(data.subrange(0, 6) =~= image_header::gif87a());
    } else {
        assert(data.subrange(0, 6) =~= image_header::gif89a());
    }
}

// ---------------------------------------------------------------------------
// WebP
// ---------------------------------------------------------------------------

/// The opening of a WebP file: `RIFF`, any size, `WEBP` and the tag of the first chunk.
pub open spec fn webp_opening(size: Seq<u8>, tag: Seq<u8>) -> Seq<u8> {
    seq![0x52u8, 0x49, 0x46, 0x46] + size + seq![0x57u8, 0x45, 0x42, 0x50] + tag
}

proof fn lemma_webp_opening(data: Seq<u8>, size: Seq<u8>, tag: Seq<u8>, rest: Seq<u8>)
    requires
        size.len() == 4,
        tag.len() == 4,
        data == webp_opening(size, tag) + rest,
        data.len() > 30,
    ensures
        !image_header::is_png(data),
        !image_header::is_jpeg(data),
        !image_header::is_gif(data),
        image_header::is_webp(data),
        data.subrange(12, 16) == tag,
        forall|k: int| 0 <= k < rest.len() ==> data[16 + k] == #[trigger] rest[k],
{
    assert(data.subrange(0, 8)[0] == 0x52);
    assert(data.subrange(0, 6)[0] == 0x52);
    assert(data.subrange(0, 4) =~= image_header::riff_tag());
    assert(data.subrange(8, 12) =~= image_header::webp_tag());
    assert(data.subrange(12, 16) =~= tag);
}

/// Where the fields of a WebP file's first chunk stand.
proof fn lemma_webp_bytes(
    size: Seq<u8>,
    tag: Seq<u8>,
    before: Seq<u8>,
    fields: Seq<u8>,
    rest: Seq<u8>,
) -> (data: Seq<u8>)
    requires
        size.len() == 4,
        tag.len() == 4,
        before.len() + fields.len() + rest.len() > 14,
    ensures
        data == webp_opening(size, tag) + (before + fields + rest),
        !image_header::is_png(data),
        !image_header::is_jpeg(data),
        !image_header::is_gif(data),
        image_header::is_webp(data),
        data.subrange(12, 16) == tag,
        forall|k: int|
            0 <= k < fields.len() ==> data[16 + before.len() + k] == #[trigger] fields[k],
{
    let chunk = before + fields + rest;
    let data = webp_opening(size, tag) + chunk;
    lemma_webp_opening(data, size, tag, chunk);
    assert forall|k: int| 0 <= k < fields.len() implies data[16 + before.len() + k]
        == #[trigger] fields[k] by {
        assert(chunk[before.len() + k] == fields[k]);
        assert(data[16 + (before.len() + k)] == chunk[before.len() + k]);
    }
    data
}

/// Fourteen bits below a scale of two.
proof fn lemma_scaled_edge(edge: int, scale: int)
    requires
        0 <= edge < 0x4000,
        0 <= scale < 4,
    ensures
        0 <= edge % 0x100 < 0x100,
        0 <= edge / 0x100 + scale * 0x40 < 0x100,
        (edge % 0x100 + (edge / 0x100 + scale * 0x40) * 0x100) % 0x4000 == edge,
{
    assert(edge % 0x100 + (edge / 0x100 + scale * 0x40) * 0x100 == edge + scale * 0x4000);
}

/// Two numbers of fourteen bits and one of four, as four bytes.
proof fn lemma_packed_edges(low: int, high: int, flags: int)
    requires
        0 <= low < 0x4000,
        0 <= high < 0x4000,
        0 <= flags < 16,
    ensures
        ({
            let bits = low + high * 0x4000 + flags * 0x1000_0000;
            &&& 0 <= bits / 0x100_0000 < 0x100
            &&& bits % 0x100 + (bits / 0x100 % 0x100) * 0x100 + (bits / 0x1_0000 % 0x100
                + bits / 0x100_0000 * 0x100) * 0x1_0000 == bits
            &&& bits % 0x4000 == low
            &&& bits / 0x4000 % 0x4000 == high
        }),
{
    let bits = low + high * 0x4000 + flags * 0x1000_0000;
    assert(bits / 0x4000 == high + flags * 0x4000);
    assert(bits / 0x100 == (bits / 0x1_0000) * 0x100 + bits / 0x100 % 0x100);
    assert(bits / 0x1_0000 == (bits / 0x100_0000) * 0x100 + bits / 0x1_0000 % 0x100);
}

/// A number of twenty-four bits, as three bytes.
proof fn lemma_three_bytes(number: int)
    requires
        0 <= number < 0x100_0000,
    ensures
        0 <= number / 0x1_0000 < 0x100,
        number % 0x100 + (number / 0x100 % 0x100) * 0x100 + number / 0x1_0000 * 0x1_0000 == number,
{
    assert(number / 0x100 == (number / 0x1_0000) * 0x100 + number / 0x100 % 0x100);
}

/// A lossy WebP file: 14 bits of each edge stand behind the frame's start code, with a scale of two
/// bits above each.
#[verifier::spinoff_prover]
#[verifier::rlimit(60)]
pub proof fn law_lossy_webp_states_its_size(
    size: Seq<u8>,
    before: Seq<u8>,
    width: u16,
    height: u16,
    width_scale: u16,
    height_scale: u16,
    rest: Seq<u8>,
)
    requires
        size.len() == 4,
        before.len() == 7,
        width < 0x4000,
        height < 0x4000,
        width_scale < 4,
        height_scale < 4,
        rest.len() >= 1,
    ensures
        image_header::header_dimensions(
            webp_opening(size, seq![0x56u8, 0x50, 0x38, 0x20]) + (before + seq![
                0x9Du8,
                0x01,
                0x2A,
                (width % 0x100) as u8,
                (width / 0x100 + width_scale * 0x40) as u8,
                (height % 0x100) as u8,
                (height / 0x100 + height_scale * 0x40) as u8,
            ] + rest),
        ) == Some((width as int, height as int)),
{
    let tag = seq![0x56u8, 0x50, 0x38, 0x20];
    let frame = seq![
        0x9Du8,
        0x01,
        0x2A,
        (width % 0x100) as u8,
        (width / 0x100 + width_scale * 0x40) as u8,
        (height % 0x100) as u8,
        (height / 0x100 + height_scale * 0x40) as u8,
    ];
    let data = lemma_webp_bytes(size, tag, before, frame, rest);
    assert(tag =~= image_header::vp8_tag());
    assert(data[23] == frame[0] && data[24] == frame[1] && data[25] == frame[2]);
    assert(data[26] == frame[3] && data[27] == frame[4]);
    assert(data[28] == frame[5] && data[29] == frame[6]);
    lemma_scaled_edge(width as int, width_scale as int);
    lemma_scaled_edge(height as int, height_scale as int);
}

/// A lossless WebP file: both edges less one stand in 28 bits, the width below the height, with four
/// bits of flags above them.
#[verifier::spinoff_prover]
#[verifier::rlimit(60)]
pub proof fn law_lossless_webp_states_its_size(
    size: Seq<u8>,
    before: Seq<u8>,
    width: int,
    height: int,
    flags: int,
    rest: Seq<u8>,
)
    requires
        size.len() == 4,
        before.len() == 5,
        1 <= width <= 0x4000,
        1 <= height <= 0x4000,
        0 <= flags < 16,
        rest.len() >= 6,
    ensures
        ({
            let bits = (width - 1) + (height - 1) * 0x4000 + flags * 0x1000_0000;
            image_header::header_dimensions(
                webp_opening(size, seq![0x56u8, 0x50, 0x38, 0x4C]) + (before + seq![
                    (bits % 0x100) as u8,
                    (bits / 0x100 % 0x100) as u8,
                    (bits / 0x1_0000 % 0x100) as u8,
                    (bits / 0x100_0000) as u8,
                ] + rest),
            ) == Some((width, height))
        }),
{
    let bits = (width - 1) + (height - 1) * 0x4000 + flags * 0x1000_0000;
    let tag = seq![0x56u8, 0x50, 0x38, 0x4C];
    let packed = seq![
        (bits % 0x100) as u8,
        (bits / 0x100 % 0x100) as u8,
        (bits / 0x1_0000 % 0x100) as u8,
        (bits / 0x100_0000) as u8,
    ];
    let data = lemma_webp_bytes(size, tag, before, packed, rest);
    assert(tag =~= image_header::vp8l_tag());
    assert(tag[3] != image_header::vp8_tag()[3]);
    assert(data[21] == packed[0] && data[22] == packed[1]);
    assert(data[23] == packed[2] && data[24] == packed[3]);
    lemma_packed_edges(width - 1, height - 1, flags);
}

/// An extended WebP file: both edges of the canvas less one stand in 24 bits each.
#[verifier::spinoff_prover]
#[verifier::rlimit(60)]
pub proof fn law_extended_webp_states_its_size(
    size: Seq<u8>,
    before: Seq<u8>,
    width: int,
    height: int,
    rest: Seq<u8>,
)
    requires
        size.len() == 4,
        before.len() == 8,
        1 <= width <= 0x100_0000,
        1 <= height <= 0x100_0000,
        rest.len() >= 1,
    ensures
        image_header::header_dimensions(
            webp_opening(size, seq![0x56u8, 0x50, 0x38, 0x58]) + (before + seq![
                ((width - 1) % 0x100) as u8,
                ((width - 1) / 0x100 % 0x100) as u8,
                ((width - 1) / 0x1_0000) as u8,
                ((height - 1) % 0x100) as u8,
                ((height - 1) / 0x100 % 0x100) as u8,
                ((height - 1) / 0x1_0000) as u8,
            ] + rest),
        ) == Some((width, height)),
{
    let tag = seq![0x56u8, 0x50, 0x38, 0x58];
    let canvas = seq![
        ((width - 1) % 0x100) as u8,
        ((width - 1) / 0x100 % 0x100) as u8,
        ((width - 1) / 0x1_0000) as u8,
        ((height - 1) % 0x100) as u8,
        ((height - 1) / 0x100 % 0x100) as u8,
        ((height - 1) / 0x1_0000) as u8,
    ];
    let data = lemma_webp_bytes(size, tag, before, canvas, rest);
    assert(tag =~= image_header::vp8x_tag());
    assert(tag[3] != image_header::vp8_tag()[3]);
    assert(tag[3] != image_header::vp8l_tag()[3]);
    assert(data[24] == canvas[0] && data[25] == canvas[1] && data[26] == canvas[2]);
    assert(data[27] == canvas[3] && data[28] == canvas[4] && data[29] == canvas[5]);
    lemma_three_bytes(width - 1);
    lemma_three_bytes(height - 1);
}

// ---------------------------------------------------------------------------
// Anything else
// ---------------------------------------------------------------------------

/// A file that opens in none of the four ways, or ends before its size, states nothing.
#[verifier::spinoff_prover]
#[verifier::rlimit(60)]
pub proof fn law_other_files_state_nothing(data: Seq<u8>)
    requires
        data.len() > 24 ==> data.take(8) != seq![
            0x89u8,
            0x50,
            0x4E,
            0x47,
            0x0D,
            0x0A,
            0x1A,
            0x0A,
        ],
        data.len() > 2 ==> data.take(2) != seq![0xFFu8, 0xD8],
        data.len() > 10 ==> data.take(6) != seq![0x47u8, 0x49, 0x46, 0x38, 0x37, 0x61]
            && data.take(6) != seq![0x47u8, 0x49, 0x46, 0x38, 0x39, 0x61],
        data.len() > 30 ==> data.take(4) != seq![0x52u8, 0x49, 0x46, 0x46] || data.subrange(8, 12)
            != seq![0x57u8, 0x45, 0x42, 0x50],
    ensures
        image_header::header_dimensions(data) is None,
{
    if data.len() > 2 && data[0] == 0xFF && data[1] == 0xD8 {
        assert(data.take(2) =~= seq![0xFFu8, 0xD8]);
    }
}

/// A WebP file whose first chunk is none of the three kinds, or whose lossy frame lacks the start
/// code, states nothing.
#[verifier::spinoff_prover]
#[verifier::rlimit(60)]
pub proof fn law_other_webp_states_nothing(size: Seq<u8>, tag: Seq<u8>, rest: Seq<u8>)
    requires
        size.len() == 4,
        tag.len() == 4,
        rest.len() > 14,
        tag != seq![0x56u8, 0x50, 0x38, 0x20] || rest.subrange(7, 10) != seq![0x9Du8, 0x01, 0x2A],
        tag != seq![0x56u8, 0x50, 0x38, 0x4C],
        tag != seq![0x56u8, 0x50, 0x38, 0x58],
    ensures
        image_header::header_dimensions(webp_opening(size, tag) + rest) is None,
{
    let data = webp_opening(size, tag) + rest;
    lemma_webp_opening(data, size, tag, rest);
    assert(data[23] == rest[7]);
    assert(data[24] == rest[8]);
    assert(data[25] == rest[9]);
    if data[23] == 0x9D && data[24] == 0x01 && data[25] == 0x2A {
        assert(rest.subrange(7, 10) =~= seq![0x9Du8, 0x01, 0x2A]);
    }
}

} // verus!
