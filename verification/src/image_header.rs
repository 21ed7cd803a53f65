//! Reading an image's width and height straight out of its encoded header.
//!
//! Nothing is decoded: PNG, JPEG, GIF and WebP all carry their dimensions near the front, so a
//! short prefix of the file is enough.

use vstd::prelude::*;

verus! {

// ---------------------------------------------------------------------------
// Integers in a byte sequence
// ---------------------------------------------------------------------------

/// The big-endian 16-bit integer at `at`.
pub open spec fn be16(data: Seq<u8>, at: int) -> int {
    data[at] * 0x100 + data[at + 1]
}

/// The big-endian 32-bit integer at `at`.
pub open spec fn be32(data: Seq<u8>, at: int) -> int {
    be16(data, at) * 0x1_0000 + be16(data, at + 2)
}

/// The little-endian 16-bit integer at `at`.
pub open spec fn le16(data: Seq<u8>, at: int) -> int {
    data[at] + data[at + 1] * 0x100
}

/// The little-endian 24-bit integer at `at`.
pub open spec fn le24(data: Seq<u8>, at: int) -> int {
    le16(data, at) + data[at + 2] * 0x1_0000
}

/// The little-endian 32-bit integer at `at`.
pub open spec fn le32(data: Seq<u8>, at: int) -> int {
    le16(data, at) + le16(data, at + 2) * 0x1_0000
}

fn read_be16(data: &[u8], at: usize) -> (value: u32)
    requires
        at + 2 <= data.len(),
    ensures
        value == be16(data@, at as int),
        value <= 0xFFFF,
{
    data[at] as u32 * 0x100 + data[at + 1] as u32
}

fn read_be32(data: &[u8], at: usize) -> (value: u32)
    requires
        at + 4 <= data.len(),
    ensures
        value == be32(data@, at as int),
{
    read_be16(data, at) * 0x1_0000 + read_be16(data, at + 2)
}

fn read_le16(data: &[u8], at: usize) -> (value: u32)
    requires
        at + 2 <= data.len(),
    ensures
        value == le16(data@, at as int),
        value <= 0xFFFF,
{
    data[at] as u32 + data[at + 1] as u32 * 0x100
}

fn read_le24(data: &[u8], at: usize) -> (value: u32)
    requires
        at + 3 <= data.len(),
    ensures
        value == le24(data@, at as int),
        value <= 0xFF_FFFF,
{
    read_le16(data, at) + data[at + 2] as u32 * 0x1_0000
}

fn read_le32(data: &[u8], at: usize) -> (value: u32)
    requires
        at + 4 <= data.len(),
    ensures
        value == le32(data@, at as int),
{
    read_le16(data, at) + read_le16(data, at + 2) * 0x1_0000
}

/// Whether the bytes of `magic` stand in `data` at `at`.
pub open spec fn has_at(data: Seq<u8>, at: int, magic: Seq<u8>) -> bool {
    &&& 0 <= at
    &&& at + magic.len() <= data.len()
    &&& data.subrange(at, at + magic.len()) == magic
}

/// Tests four consecutive bytes.
fn has_four_at(data: &[u8], at: usize, magic: [u8; 4]) -> (found: bool)
    requires
        at + 4 <= data.len(),
    ensures
        found == has_at(data@, at as int, magic@),
{
    let found = data[at] == magic[0] && data[at + 1] == magic[1] && data[at + 2] == magic[2]
        && data[at + 3] == magic[3];
    proof {
        let here = data@.subrange(at as int, at + 4);
        assert(here[0] == data@[at as int] && here[1] == data@[at + 1] && here[2] == data@[at + 2]
            && here[3] == data@[at + 3]);
        if found {
            assert(here =~= magic@);
        }
    }
    found
}

// ---------------------------------------------------------------------------
// PNG
// ---------------------------------------------------------------------------

/// The eight bytes that open every PNG file.
pub open spec fn png_signature() -> Seq<u8> {
    seq![0x89u8, 0x50, 0x4E, 0x47, 0x0D, 0x0A, 0x1A, 0x0A]
}

/// A PNG file that is long enough to hold its IHDR dimensions.
pub open spec fn is_png(data: Seq<u8>) -> bool {
    data.len() > 24 && has_at(data, 0, png_signature())
}

/// IHDR holds the width at offset 16 and the height at offset 20.
pub open spec fn png_dimensions(data: Seq<u8>) -> (int, int) {
    (be32(data, 16), be32(data, 20))
}

fn check_png(data: &[u8]) -> (found: bool)
    ensures
        found == is_png(data@),
{
    if data.len() <= 24 {
        return false;
    }
    let first = has_four_at(data, 0, [0x89, 0x50, 0x4E, 0x47]);
    let second = has_four_at(data, 4, [0x0D, 0x0A, 0x1A, 0x0A]);
    proof {
        let whole = data@.subrange(0, 8);
        let front = data@.subrange(0, 4);
        let back = data@.subrange(4, 8);
        assert(front =~= whole.subrange(0, 4));
        assert(back =~= whole.subrange(4, 8));
        assert(whole =~= front + back);
        assert(png_signature().subrange(0, 4) =~= seq![0x89u8, 0x50, 0x4E, 0x47]);
        assert(png_signature().subrange(4, 8) =~= seq![0x0Du8, 0x0A, 0x1A, 0x0A]);
        assert(png_signature() =~= seq![0x89u8, 0x50, 0x4E, 0x47] + seq![0x0Du8, 0x0A, 0x1A, 0x0A]);
        assert([0x89u8, 0x50, 0x4E, 0x47]@ =~= seq![0x89u8, 0x50, 0x4E, 0x47]);
        assert([0x0Du8, 0x0A, 0x1A, 0x0A]@ =~= seq![0x0Du8, 0x0A, 0x1A, 0x0A]);
    }
    first && second
}

// ---------------------------------------------------------------------------
// JPEG
// ---------------------------------------------------------------------------

/// A start-of-frame marker: 0xC0 to 0xCF without DHT (0xC4), JPG (0xC8) and DAC (0xCC).
pub open spec fn is_start_of_frame(marker: u8) -> bool {
    0xC0 <= marker <= 0xCF && marker != 0xC4 && marker != 0xC8 && marker != 0xCC
}

/// The file opens with the start-of-image marker and something follows it.
pub open spec fn is_jpeg(data: Seq<u8>) -> bool {
    data.len() > 2 && data[0] == 0xFF && data[1] == 0xD8
}

/// Walks the segments from `at` to the first start-of-frame marker and reads `(width, height)`.
///
/// A byte other than 0xFF is stepped over; a marker that starts no frame is skipped together with
/// the segment whose length follows it. The walk ends ten bytes before the end of the data.
pub open spec fn jpeg_dimensions(data: Seq<u8>, at: int) -> Option<(int, int)>
    decreases
            (if at < data.len() {
                data.len() - at
            } else {
                0
            }),
{
    if at < 0 || at + 9 >= data.len() {
        None
    } else if data[at] != 0xFF {
        jpeg_dimensions(data, at + 1)
    } else if is_start_of_frame(data[at + 1]) {
        Some((be16(data, at + 7), be16(data, at + 5)))
    } else {
        jpeg_dimensions(data, at + 2 + be16(data, at + 2))
    }
}

fn read_jpeg(data: &[u8]) -> (size: Option<(u32, u32)>)
    ensures
        match size {
            Some((width, height)) => jpeg_dimensions(data@, 2) == Some((width as int, height as int)),
            None => jpeg_dimensions(data@, 2) is None,
        },
{
    let total: usize = data.len();
    let mut at: usize = 2;
    while total > 9 && at < total - 9
        invariant
            total == data@.len(),
            2 <= at,
            jpeg_dimensions(data@, 2) == jpeg_dimensions(data@, at as int),
        decreases total - at,
    {
        if data[at] != 0xFF {
            at += 1;
            continue;
        }
        let marker: u8 = data[at + 1];
        if 0xC0 <= marker && marker <= 0xCF && marker != 0xC4 && marker != 0xC8 && marker != 0xCC {
            let height: u32 = read_be16(data, at + 5);
            let width: u32 = read_be16(data, at + 7);
            return Some((width, height));
        }
        let skip: usize = 2 + read_be16(data, at + 2) as usize;
        if skip >= total - at {
            assert(jpeg_dimensions(data@, at + skip) is None);
            return None;
        }
        at += skip;
    }
    None
}

// ---------------------------------------------------------------------------
// GIF
// ---------------------------------------------------------------------------

/// `GIF87a`
pub open spec fn gif87a() -> Seq<u8> {
    seq![0x47u8, 0x49, 0x46, 0x38, 0x37, 0x61]
}

/// `GIF89a`
pub open spec fn gif89a() -> Seq<u8> {
    seq![0x47u8, 0x49, 0x46, 0x38, 0x39, 0x61]
}

/// A GIF file that is long enough to hold its logical screen size.
pub open spec fn is_gif(data: Seq<u8>) -> bool {
    data.len() > 10 && (has_at(data, 0, gif87a()) || has_at(data, 0, gif89a()))
}

/// The logical screen's width stands at offset 6 and its height at offset 8.
pub open spec fn gif_dimensions(data: Seq<u8>) -> (int, int) {
    (le16(data, 6), le16(data, 8))
}

fn check_gif(data: &[u8]) -> (found: bool)
    ensures
        found == is_gif(data@),
{
    if data.len() <= 10 {
        return false;
    }
    let found = data[0] == 0x47 && data[1] == 0x49 && data[2] == 0x46 && data[3] == 0x38 && (data[4]
        == 0x37 || data[4] == 0x39) && data[5] == 0x61;
    proof {
        let here = data@.subrange(0, 6);
        assert forall|i: int| 0 <= i < 6 implies here[i] == data@[i] by {}
        if found {
            if data@[4] == 0x37 {
                assert(here =~= gif87a());
            } else {
                assert(here =~= gif89a());
            }
        } else {
            assert(here[0] == data@[0] && here[1] == data@[1] && here[2] == data@[2] && here[3]
                == data@[3] && here[4] == data@[4] && here[5] == data@[5]);
        }
    }
    found
}

// ---------------------------------------------------------------------------
// WebP
// ---------------------------------------------------------------------------

/// `RIFF`
pub open spec fn riff_tag() -> Seq<u8> {
    seq![0x52u8, 0x49, 0x46, 0x46]
}

/// `WEBP`
pub open spec fn webp_tag() -> Seq<u8> {
    seq![0x57u8, 0x45, 0x42, 0x50]
}

/// `VP8 `, the lossy bitstream.
pub open spec fn vp8_tag() -> Seq<u8> {
    seq![0x56u8, 0x50, 0x38, 0x20]
}

/// `VP8L`, the lossless bitstream.
pub open spec fn vp8l_tag() -> Seq<u8> {
    seq![0x56u8, 0x50, 0x38, 0x4C]
}

/// `VP8X`, the extended file format.
pub open spec fn vp8x_tag() -> Seq<u8> {
    seq![0x56u8, 0x50, 0x38, 0x58]
}

/// A RIFF container of type `WEBP` that is long enough for each of its three headers.
pub open spec fn is_webp(data: Seq<u8>) -> bool {
    data.len() > 30 && has_at(data, 0, riff_tag()) && has_at(data, 8, webp_tag())
}

/// A lossy frame keeps 14 bits of each edge behind its start code, a lossless one packs both edges
/// less one into 28 bits, and the extended header holds both edges less one in 24 bits each.
pub open spec fn webp_dimensions(data: Seq<u8>) -> Option<(int, int)> {
    if has_at(data, 12, vp8_tag()) && data[23] == 0x9D && data[24] == 0x01 && data[25] == 0x2A {
        Some((le16(data, 26) % 0x4000, le16(data, 28) % 0x4000))
    } else if has_at(data, 12, vp8l_tag()) {
        Some((le32(data, 21) % 0x4000 + 1, le32(data, 21) / 0x4000 % 0x4000 + 1))
    } else if has_at(data, 12, vp8x_tag()) {
        Some((le24(data, 24) + 1, le24(data, 27) + 1))
    } else {
        None
    }
}

fn check_webp(data: &[u8]) -> (found: bool)
    ensures
        found == is_webp(data@),
{
    if data.len() <= 30 {
        return false;
    }
    assert([0x52u8, 0x49, 0x46, 0x46]@ =~= riff_tag());
    assert([0x57u8, 0x45, 0x42, 0x50]@ =~= webp_tag());
    has_four_at(data, 0, [0x52, 0x49, 0x46, 0x46]) && has_four_at(data, 8, [0x57, 0x45, 0x42, 0x50])
}

fn read_webp(data: &[u8]) -> (size: Option<(u32, u32)>)
    requires
        data.len() > 30,
    ensures
        match size {
            Some((width, height)) => webp_dimensions(data@) == Some((width as int, height as int)),
            None => webp_dimensions(data@) is None,
        },
{
    assert([0x56u8, 0x50, 0x38, 0x20]@ =~= vp8_tag());
    assert([0x56u8, 0x50, 0x38, 0x4C]@ =~= vp8l_tag());
    assert([0x56u8, 0x50, 0x38, 0x58]@ =~= vp8x_tag());
    if has_four_at(data, 12, [0x56, 0x50, 0x38, 0x20]) && data[23] == 0x9D && data[24] == 0x01
        && data[25] == 0x2A {
        return Some((read_le16(data, 26) % 0x4000, read_le16(data, 28) % 0x4000));
    }
    if has_four_at(data, 12, [0x56, 0x50, 0x38, 0x4C]) {
        let bits: u32 = read_le32(data, 21);
        return Some((bits % 0x4000 + 1, bits / 0x4000 % 0x4000 + 1));
    }
    if has_four_at(data, 12, [0x56, 0x50, 0x38, 0x58]) {
        return Some((read_le24(data, 24) + 1, read_le24(data, 27) + 1));
    }
    None
}

// ---------------------------------------------------------------------------
// Any of the four
// ---------------------------------------------------------------------------

/// The `(width, height)` that an encoded image states in its header, where the format is one of
/// the four and the header is complete.
pub open spec fn header_dimensions(data: Seq<u8>) -> Option<(int, int)> {
    if is_png(data) {
        Some(png_dimensions(data))
    } else if is_jpeg(data) {
        jpeg_dimensions(data, 2)
    } else if is_gif(data) {
        Some(gif_dimensions(data))
    } else if is_webp(data) {
        webp_dimensions(data)
    } else {
        None
    }
}

/// Read width/height from raw encoded image bytes (header-only, no decode).
pub fn dimensions_from_bytes(data: &[u8]) -> (size: Option<(u32, u32)>)
    ensures
        match size {
            Some((width, height)) => header_dimensions(data@) == Some(
                (width as int, height as int),
            ),
            None => header_dimensions(data@) is None,
        },
{
    if check_png(data) {
        return Some((read_be32(data, 16), read_be32(data, 20)));
    }
    if data.len() > 2 && data[0] == 0xFF && data[1] == 0xD8 {
        return read_jpeg(data);
    }
    if check_gif(data) {
        return Some((read_le16(data, 6), read_le16(data, 8)));
    }
    if check_webp(data) {
        return read_webp(data);
    }
    None
}

} // verus!
