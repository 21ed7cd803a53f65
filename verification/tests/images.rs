use std::borrow::Cow;
use std::hash::{Hash, Hasher};

use base64::engine::general_purpose::STANDARD as BASE64;
use base64::Engine;
use image::{DynamicImage, ImageBuffer, ImageEncoder, Rgb, RgbImage, Rgba, RgbaImage};

use jcode_kit::clamp_cache::{cache_get, cache_put, hash_str, CacheKey, ClampCache, CACHE_CAPACITY};
use jcode_kit::image_clamp::{
    clamp_base64_image, clamp_base64_image_with_edge, dimensions_from_base64_header,
    effective_max_edge, is_within_reach, look_up, package, prefers_jpeg, reencode_clamped, settle,
    try_clamp_base64_image, try_clamp_base64_image_with_edge, Lookup,
    ANTHROPIC_MANY_IMAGE_MAX_EDGE,
};
use jcode_kit::image_header::dimensions_from_bytes;

fn png_of(img: DynamicImage) -> String {
    let mut buf = Vec::new();
    let mut cursor = std::io::Cursor::new(&mut buf);
    img.write_to(&mut cursor, image::ImageFormat::Png).unwrap();
    BASE64.encode(&buf)
}

fn encode_png(w: u32, h: u32) -> String {
    png_of(DynamicImage::ImageRgba8(RgbaImage::from_pixel(w, h, Rgba([10, 120, 200, 255]))))
}

fn encode_jpeg(w: u32, h: u32) -> String {
    let img = RgbImage::from_pixel(w, h, Rgb([10, 120, 200]));
    let mut buf = Vec::new();
    let mut cursor = std::io::Cursor::new(&mut buf);
    let encoder = image::codecs::jpeg::JpegEncoder::new_with_quality(&mut cursor, 90);
    encoder.write_image(img.as_raw(), w, h, image::ExtendedColorType::Rgb8).unwrap();
    BASE64.encode(&buf)
}

fn size_of(data: &str) -> Option<(u32, u32)> {
    dimensions_from_bytes(&BASE64.decode(data).unwrap())
}

#[test]
fn small_png_is_untouched() {
    let data = encode_png(100, 80);
    let mut cache = ClampCache::new();
    let (mt, out) = clamp_base64_image_with_edge(&mut cache, "image/png", &data, 2000);
    assert!(matches!(mt, Cow::Borrowed(_)));
    assert!(matches!(out, Cow::Borrowed(_)));
    assert_eq!(out.as_ref(), data);
}

#[test]
fn header_dimension_parse_png() {
    let data = encode_png(2500, 1000);
    assert_eq!(dimensions_from_base64_header(&data), Some((2500, 1000)));
}

#[test]
fn header_dimension_parse_jpeg() {
    let data = encode_jpeg(2400, 1200);
    assert_eq!(dimensions_from_base64_header(&data), Some((2400, 1200)));
}

#[test]
fn oversized_png_is_downscaled_within_bounds() {
    let data = encode_png(4000, 2000);
    let mut cache = ClampCache::new();
    let (mt, out) = clamp_base64_image_with_edge(&mut cache, "image/png", &data, 2000);
    assert!(matches!(out, Cow::Owned(_)));
    assert_eq!(mt.as_ref(), "image/png");
    let bytes = BASE64.decode(out.as_ref()).unwrap();
    let (w, h) = dimensions_from_bytes(&bytes).unwrap();
    assert!(w <= 2000 && h <= 2000, "got {w}x{h}");
    // Aspect ratio preserved: 4000x2000 -> 2000x1000.
    assert_eq!((w, h), (2000, 1000));
}

#[test]
fn oversized_jpeg_stays_jpeg() {
    let data = encode_jpeg(3000, 1500);
    let mut cache = ClampCache::new();
    let (mt, out) = clamp_base64_image_with_edge(&mut cache, "image/jpeg", &data, 2000);
    assert!(matches!(out, Cow::Owned(_)));
    assert_eq!(mt.as_ref(), "image/jpeg");
    let bytes = BASE64.decode(out.as_ref()).unwrap();
    let (w, h) = dimensions_from_bytes(&bytes).unwrap();
    assert!(w <= 2000 && h <= 2000, "got {w}x{h}");
}

#[test]
fn second_call_is_served_from_cache() {
    let data = encode_png(5000, 2500);
    let mut cache = ClampCache::new();
    let (_, first) = clamp_base64_image_with_edge(&mut cache, "image/png", &data, 2000);
    let (_, second) = clamp_base64_image_with_edge(&mut cache, "image/png", &data, 2000);
    assert_eq!(first.as_ref(), second.as_ref());
}

#[test]
fn undecodable_payload_falls_back_to_original() {
    let data = BASE64.encode(b"not really an image but big enough to look like base64 data");
    let mut cache = ClampCache::new();
    let (mt, out) = clamp_base64_image_with_edge(&mut cache, "image/webp", &data, 2000);
    assert_eq!(mt.as_ref(), "image/webp");
    assert_eq!(out.as_ref(), data);
}

// ---- the limit ----

#[test]
fn limit_override() {
    assert_eq!(ANTHROPIC_MANY_IMAGE_MAX_EDGE, 2000);
    assert_eq!(effective_max_edge(None), 2000);
    assert_eq!(effective_max_edge(Some("512")), 512);
    assert_eq!(effective_max_edge(Some("  640\n")), 640);
    assert_eq!(effective_max_edge(Some("+7")), 7);
    assert_eq!(effective_max_edge(Some("4294967295")), u32::MAX);
    for unusable in ["", "0", "-1", "4294967296", "12px", "1 2", "0x10", "+"] {
        assert_eq!(effective_max_edge(Some(unusable)), 2000, "{unusable:?}");
    }
}

#[test]
fn configured_limit_is_applied() {
    let data = encode_png(40, 20);
    let mut cache = ClampCache::new();
    let (_, out) = clamp_base64_image(&mut cache, "image/png", &data, None);
    assert!(matches!(out, Cow::Borrowed(_)));
    let (_, out) = clamp_base64_image(&mut cache, "image/png", &data, Some("10"));
    assert_eq!(size_of(&out), Some((10, 5)));
}

#[test]
fn zero_limit_means_no_limit() {
    let data = encode_png(40, 20);
    let mut cache = ClampCache::new();
    let (mt, out) = clamp_base64_image_with_edge(&mut cache, "image/png", &data, 0);
    assert!(matches!(mt, Cow::Borrowed("image/png")));
    assert!(matches!(out, Cow::Borrowed(_)));
    assert_eq!(out.as_ref(), data);
}

// ---- shrinking ----

#[test]
fn shrinking_keeps_the_aspect_ratio() {
    for (from, edge, to) in [
        ((40, 20), 10, (10, 5)),
        ((20, 40), 10, (5, 10)),
        ((40, 40), 10, (10, 10)),
        ((11, 10), 10, (10, 9)),
        ((400, 1), 10, (10, 1)),
        ((1, 400), 10, (1, 10)),
        ((30, 20), 1, (1, 1)),
    ] {
        let data = encode_png(from.0, from.1);
        let (mt, out) = reencode_clamped("image/png", &data, edge).unwrap();
        assert_eq!(mt, "image/png");
        assert_eq!(size_of(&out), Some(to), "{from:?} into {edge}");
    }
}

#[test]
fn shrunk_pixels_come_from_the_image() {
    let data = encode_png(40, 20);
    let (_, out) = reencode_clamped("image/png", &data, 10).unwrap();
    let img = image::load_from_memory(&BASE64.decode(&out).unwrap()).unwrap().to_rgba8();
    assert!(img.pixels().all(|p| *p == Rgba([10, 120, 200, 255])));
}

#[test]
fn nothing_to_reencode() {
    // Within the limit, no base64, no image, and white space around an image.
    let data = encode_png(10, 10);
    assert_eq!(reencode_clamped("image/png", &data, 10), None);
    assert_eq!(reencode_clamped("image/png", "***", 10), None);
    assert_eq!(reencode_clamped("image/png", "", 10), None);
    assert_eq!(reencode_clamped("image/png", &BASE64.encode(b"text"), 10), None);
    let padded = format!("  {data}\n");
    let (mt, out) = reencode_clamped("image/png", &padded, 5).unwrap();
    assert_eq!((mt.as_str(), size_of(&out)), ("image/png", Some((5, 5))));
}

#[test]
fn media_type_picks_the_format() {
    assert!(prefers_jpeg("image/jpeg"));
    assert!(prefers_jpeg("IMAGE/Jpg"));
    assert!(!prefers_jpeg("image/png"));
    assert!(!prefers_jpeg(" image/jpeg"));
    assert!(!prefers_jpeg(""));
    // The declared media type decides, not the payload's own format.
    let png = encode_png(40, 20);
    let (mt, out) = reencode_clamped("image/JPG", &png, 10).unwrap();
    assert_eq!(mt, "image/jpeg");
    let bytes = BASE64.decode(&out).unwrap();
    assert_eq!(bytes[..2], [0xFF, 0xD8]);
    assert_eq!(dimensions_from_bytes(&bytes), Some((10, 5)));
    let jpeg = encode_jpeg(40, 20);
    let (mt, out) = reencode_clamped("image/webp", &jpeg, 10).unwrap();
    assert_eq!(mt, "image/png");
    let bytes = BASE64.decode(&out).unwrap();
    assert_eq!(bytes[..4], [0x89, 0x50, 0x4E, 0x47]);
}

#[test]
fn deep_png_is_shrunk() {
    let deep: ImageBuffer<Rgb<u16>, Vec<u16>> = ImageBuffer::from_pixel(40, 20, Rgb([1, 2, 3]));
    let data = png_of(DynamicImage::ImageRgb16(deep));
    assert_eq!(BASE64.decode(&data).unwrap()[24], 16);
    let (_, out) = reencode_clamped("image/png", &data, 10).unwrap();
    assert_eq!(size_of(&out), Some((10, 5)));
    assert_eq!(BASE64.decode(&out).unwrap()[24], 16);
    let gray = DynamicImage::ImageLuma8(ImageBuffer::from_pixel(40, 20, image::Luma([7])));
    let (_, out) = reencode_clamped("image/png", &png_of(gray), 10).unwrap();
    assert_eq!(BASE64.decode(&out).unwrap()[24], 8);
}

#[test]
fn outcomes_are_packaged() {
    assert_eq!(package("image/png", None), None);
    assert_eq!(
        package("image/png", Some(b"abc".to_vec())),
        Some(("image/png".to_string(), "YWJj".to_string()))
    );
    assert_eq!(
        package("image/jpg", Some(b"abcd".to_vec())),
        Some(("image/jpeg".to_string(), "YWJjZA==".to_string()))
    );
    assert_eq!(
        package("image/gif", Some(Vec::new())),
        Some(("image/png".to_string(), String::new()))
    );
}

#[test]
fn clamping_twice_changes_nothing() {
    let data = encode_png(40, 20);
    let mut cache = ClampCache::new();
    let (mt, once) = clamp_base64_image_with_edge(&mut cache, "image/png", &data, 10);
    assert!(matches!(once, Cow::Owned(_)));
    for limit in [10, 11, 8000] {
        let (_, twice) = clamp_base64_image_with_edge(&mut cache, &mt, &once, limit);
        assert!(matches!(twice, Cow::Borrowed(_)));
        assert_eq!(twice, once);
    }
}

#[test]
fn outcome_decides_what_is_sent() {
    let mut cache = ClampCache::new();
    let key = CacheKey { hash: 1, len: 2, max_edge: 3 };
    let (mt, data) = settle(&mut cache, key, "image/gif", "orig", None);
    assert!(matches!(mt, Cow::Borrowed("image/gif")));
    assert!(matches!(data, Cow::Borrowed("orig")));
    assert_eq!(cache_get(&cache, &key), None);
    let output = Some(("image/png".to_string(), "new".to_string()));
    let (mt, data) = settle(&mut cache, key, "image/gif", "orig", output.clone());
    assert!(matches!(mt, Cow::Owned(_)));
    assert!(matches!(data, Cow::Owned(_)));
    assert_eq!((mt.as_ref(), data.as_ref()), ("image/png", "new"));
    assert_eq!(cache_get(&cache, &key), output);
}

#[test]
fn handed_back_payload_is_handed_back_again() {
    let mut cache = ClampCache::new();
    // Within the limit, but the header is hidden by white space behind a short payload.
    let hidden = format!("{}    ", encode_png(10, 10));
    assert_eq!(dimensions_from_base64_header(&hidden), None);
    let junk = BASE64.encode(b"no image");
    for data in [hidden.as_str(), junk.as_str(), "***"] {
        for _ in 0..2 {
            let (mt, out) = clamp_base64_image_with_edge(&mut cache, "image/gif", data, 10);
            assert!(matches!(mt, Cow::Borrowed("image/gif")));
            assert!(matches!(out, Cow::Borrowed(_)));
            assert_eq!(out, data);
        }
    }
}

#[test]
fn edges_are_rounded_to_the_nearest_pixel() {
    for (from, edge, to) in [
        ((100, 33), 10, (10, 3)),
        ((100, 36), 10, (10, 4)),
        ((33, 100), 10, (3, 10)),
        ((400, 19), 10, (10, 1)),
    ] {
        let (_, out) = reencode_clamped("image/png", &encode_png(from.0, from.1), edge).unwrap();
        assert_eq!(size_of(&out), Some(to), "{from:?} into {edge}");
        assert_eq!(dimensions_from_base64_header(&out), Some(to));
    }
}

fn grey_row(width: u32) -> String {
    png_of(DynamicImage::ImageLuma8(ImageBuffer::from_pixel(width, 1, image::Luma([7u8]))))
}

#[test]
fn limit_beyond_the_resampler() {
    // The resampler panics on this image under this limit.
    let edge = 33_554_437;
    let wide = grey_row(edge + 1);
    assert!(!is_within_reach(&wide, edge));
    assert!(is_within_reach(&wide, edge + 1));
    assert!(is_within_reach(&wide, 2000));
    let mut cache = ClampCache::new();
    assert_eq!(try_clamp_base64_image_with_edge(&mut cache, "image/png", &wide, edge), None);
    let setting = edge.to_string();
    assert_eq!(try_clamp_base64_image(&mut cache, "image/png", &wide, Some(&setting)), None);
    // A filed result is sent all the same.
    let key = CacheKey { hash: hash_str(&wide), len: wide.len(), max_edge: edge };
    cache_put(&mut cache, key, value(1));
    let (mt, out) =
        try_clamp_base64_image_with_edge(&mut cache, "image/png", &wide, edge).unwrap();
    assert_eq!((mt.into_owned(), out.into_owned()), value(1));
}

#[test]
fn high_limits_are_reached() {
    let mut cache = ClampCache::new();
    for edge in [0x10_0001, 0x2F_FFFF, 0x30_0000] {
        let wide = grey_row(edge + 1);
        let (_, out) =
            try_clamp_base64_image_with_edge(&mut cache, "image/png", &wide, edge).unwrap();
        assert_eq!(size_of(&out), Some((edge, 1)));
    }
    // No limit is too high for an image within it.
    let small = format!("{}    ", encode_png(40, 20));
    assert!(is_within_reach(&small, u32::MAX));
    let (_, out) =
        try_clamp_base64_image(&mut cache, "image/png", &small, Some("4294967295")).unwrap();
    assert!(matches!(out, Cow::Borrowed(_)));
}

#[test]
fn jpeg_that_cannot_state_its_size_is_not_made() {
    let row = ImageBuffer::from_pixel(0x1_0001, 1, image::Luma([7u8]));
    let wide = png_of(DynamicImage::ImageLuma8(row));
    assert_eq!(reencode_clamped("image/jpeg", &wide, 0x1_0000), None);
    let (_, out) = reencode_clamped("image/jpeg", &wide, 0xFFFF).unwrap();
    assert_eq!(size_of(&out), Some((0xFFFF, 1)));
    let (_, out) = reencode_clamped("image/png", &wide, 0x1_0000).unwrap();
    assert_eq!(size_of(&out), Some((0x1_0000, 1)));
}

// ---- the cache ----

#[test]
fn looking_up_encodes_nothing() {
    let data = encode_png(40, 20);
    let mut cache = ClampCache::new();
    assert!(matches!(
        look_up(&cache, "image/png", &data, 40),
        Lookup::Settled((Cow::Borrowed("image/png"), Cow::Borrowed(_)))
    ));
    assert!(matches!(look_up(&cache, "image/png", &data, 0), Lookup::Settled(_)));
    let key = match look_up(&cache, "image/png", &data, 10) {
        Lookup::Missed(key) => key,
        other => panic!("expected a miss, got {other:?}"),
    };
    assert_eq!(key, CacheKey { hash: hash_str(&data), len: data.len(), max_edge: 10 });
    cache_put(&mut cache, key, value(3));
    match look_up(&cache, "image/png", &data, 10) {
        Lookup::Settled((mt, out)) => assert_eq!((mt.into_owned(), out.into_owned()), value(3)),
        other => panic!("expected a hit, got {other:?}"),
    }
}

#[test]
fn remembered_result_is_sent_whatever_the_media_type() {
    let data = encode_png(40, 20);
    let mut cache = ClampCache::new();
    let (_, first) = clamp_base64_image_with_edge(&mut cache, "image/png", &data, 10);
    let (mt, second) = clamp_base64_image_with_edge(&mut cache, "image/jpeg", &data, 10);
    assert_eq!(mt, "image/png");
    assert_eq!(first, second);
    // Another limit is another result.
    let (mt, third) = clamp_base64_image_with_edge(&mut cache, "image/jpeg", &data, 5);
    assert_eq!(mt, "image/jpeg");
    assert_ne!(second, third);
}

#[test]
fn clamped_payload_is_filed_under_its_key() {
    let data = encode_png(40, 20);
    let mut cache = ClampCache::new();
    let (mt, out) = clamp_base64_image_with_edge(&mut cache, "image/png", &data, 10);
    let key = CacheKey { hash: hash_str(&data), len: data.len(), max_edge: 10 };
    assert_eq!(cache_get(&cache, &key), Some((mt.into_owned(), out.into_owned())));
    let other = CacheKey { max_edge: 11, ..key };
    assert_eq!(cache_get(&cache, &other), None);
}

#[test]
fn hash_is_that_of_the_standard_library() {
    for text in ["", "abc", "\u{e9}\u{1F600}", "a longer text with spaces in it"] {
        let mut hasher = std::collections::hash_map::DefaultHasher::new();
        text.hash(&mut hasher);
        assert_eq!(hash_str(text), hasher.finish());
    }
    assert_ne!(hash_str("a"), hash_str("b"));
}

fn key(n: u64) -> CacheKey {
    CacheKey { hash: n, len: 0, max_edge: 1 }
}

fn value(n: u64) -> (String, String) {
    (format!("type {n}"), format!("data {n}"))
}

#[test]
fn oldest_result_goes_first() {
    assert_eq!(CACHE_CAPACITY, 64);
    let mut cache = ClampCache::new();
    for n in 0..64 {
        cache_put(&mut cache, key(n), value(n));
    }
    assert!((0..64).all(|n| cache_get(&cache, &key(n)) == Some(value(n))));
    // Reading does not refresh: the first one filed still goes first.
    cache_put(&mut cache, key(64), value(64));
    assert_eq!(cache_get(&cache, &key(0)), None);
    assert!((1..65).all(|n| cache_get(&cache, &key(n)) == Some(value(n))));
    cache_put(&mut cache, key(65), value(65));
    assert_eq!(cache_get(&cache, &key(1)), None);
    assert_eq!(cache_get(&cache, &key(2)), Some(value(2)));
}

#[test]
fn filed_result_is_not_replaced() {
    let mut cache = ClampCache::new();
    cache_put(&mut cache, key(1), value(1));
    cache_put(&mut cache, key(1), value(2));
    assert_eq!(cache_get(&cache, &key(1)), Some(value(1)));
    let longer = CacheKey { len: 1, ..key(1) };
    assert_eq!(cache_get(&cache, &longer), None);
}

// ---- headers ----

fn padded(start: &[u8], len: usize) -> Vec<u8> {
    let mut bytes = start.to_vec();
    bytes.resize(len, 0);
    bytes
}

#[test]
fn header_prefix_reaches_behind_white_space() {
    let data = encode_png(300, 200);
    assert_eq!(dimensions_from_base64_header(&format!(" \n\t{data}")), Some((300, 200)));
    // White space inside the prefix, or a prefix that is too short.
    assert_eq!(dimensions_from_base64_header(&format!("{}\n{}", &data[..8], &data[8..])), None);
    assert_eq!(dimensions_from_base64_header(&data[..32]), None);
    assert_eq!(dimensions_from_base64_header(&data[..36]), Some((300, 200)));
    // The odd characters at the end of a short payload are left out.
    assert_eq!(dimensions_from_base64_header(&data[..39]), Some((300, 200)));
    assert_eq!(dimensions_from_base64_header(""), None);
    assert_eq!(dimensions_from_base64_header("\u{e9}\u{e9}\u{e9}\u{e9}"), None);
}

#[test]
fn png_header() {
    let mut png = vec![0x89, 0x50, 0x4E, 0x47, 0x0D, 0x0A, 0x1A, 0x0A];
    png.extend([0, 0, 0, 13, b'I', b'H', b'D', b'R']);
    png.extend([0x01, 0x02, 0x03, 0x04, 0xFF, 0xFE, 0xFD, 0xFC]);
    assert_eq!(dimensions_from_bytes(&png), None);
    png.push(8);
    assert_eq!(dimensions_from_bytes(&png), Some((0x01020304, 0xFFFEFDFC)));
    png[7] = 0;
    assert_eq!(dimensions_from_bytes(&png), None);
}

#[test]
fn jpeg_header() {
    // SOI, APP0 of length 4, SOF2 of 300 x 500.
    let mut jpeg = vec![0xFF, 0xD8, 0xFF, 0xE0, 0, 4, 1, 2];
    jpeg.extend([0xFF, 0xC2, 0, 17, 8, 0x01, 0x2C, 0x01, 0xF4, 3]);
    assert_eq!(dimensions_from_bytes(&jpeg), Some((500, 300)));
    // The last byte has to be there.
    assert_eq!(dimensions_from_bytes(&jpeg[..jpeg.len() - 1]), None);
    // Bytes between segments are skipped.
    let mut gap = jpeg.clone();
    gap.splice(8..8, [0, 1, 2]);
    assert_eq!(dimensions_from_bytes(&gap), Some((500, 300)));
    // DHT, JPG and DAC carry no dimensions.
    for marker in [0xC4, 0xC8, 0xCC] {
        let mut other = jpeg.clone();
        other[9] = marker;
        assert_eq!(dimensions_from_bytes(&other), None, "{marker:x}");
    }
    // A segment that reaches past the end.
    let mut long = jpeg.clone();
    long[4] = 0xFF;
    assert_eq!(dimensions_from_bytes(&long), None);
    assert_eq!(dimensions_from_bytes(&[0xFF, 0xD8]), None);
    // A segment of length zero is stepped over by its marker alone, and scanning goes on.
    let mut zero = vec![0xFF, 0xD8, 0xFF, 0xE0, 0, 0];
    zero.extend([0xFF, 0xC0, 0, 17, 8, 0, 7, 0, 9, 3, 0, 0]);
    assert_eq!(dimensions_from_bytes(&zero), Some((9, 7)));
}

#[test]
fn gif_header() {
    for version in [b"GIF87a", b"GIF89a"] {
        let mut gif = version.to_vec();
        gif.extend([0x10, 0x01, 0x20, 0x02]);
        assert_eq!(dimensions_from_bytes(&gif), None);
        gif.push(0);
        assert_eq!(dimensions_from_bytes(&gif), Some((0x110, 0x220)));
    }
    assert_eq!(dimensions_from_bytes(&padded(b"GIF88a", 20)), None);
}

#[test]
fn webp_headers() {
    let mut lossy = padded(b"RIFF\0\0\0\0WEBPVP8 ", 31);
    lossy[23..30].copy_from_slice(&[0x9D, 0x01, 0x2A, 0x2C, 0xC1, 0xF4, 0x41]);
    // The two upper bits of each are a scale.
    assert_eq!(dimensions_from_bytes(&lossy), Some((300, 500)));
    assert_eq!(dimensions_from_bytes(&lossy[..30]), None);
    lossy[23] = 0;
    assert_eq!(dimensions_from_bytes(&lossy), None);

    let mut lossless = padded(b"RIFF\0\0\0\0WEBPVP8L", 31);
    // 299 in the lower 14 bits, 499 in the next, and flags above.
    let bits: u32 = 299 | (499 << 14) | (0b1011 << 28);
    lossless[21..25].copy_from_slice(&bits.to_le_bytes());
    assert_eq!(dimensions_from_bytes(&lossless), Some((300, 500)));

    let mut extended = padded(b"RIFF\0\0\0\0WEBPVP8X", 31);
    extended[24..30].copy_from_slice(&[0x2B, 0x01, 0x01, 0xFF, 0xFF, 0xFF]);
    assert_eq!(dimensions_from_bytes(&extended), Some((0x1012C, 0x100_0000)));

    assert_eq!(dimensions_from_bytes(&padded(b"RIFF\0\0\0\0WEBPVP9 ", 40)), None);
    assert_eq!(dimensions_from_bytes(&padded(b"RIFF\0\0\0\0WAVEVP8 ", 40)), None);
}

#[test]
fn no_header() {
    assert_eq!(dimensions_from_bytes(&[]), None);
    assert_eq!(dimensions_from_bytes(&[0; 100]), None);
    assert_eq!(dimensions_from_bytes(b"plain text, long enough for any header"), None);
}
