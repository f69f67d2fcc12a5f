use vstd::prelude::*;
use vstd::string::StringExecFns;
use base64::Engine;

verus! {

/// The bytes that the standard base64 alphabet with padding encodes as `text`, or `None`
/// when `text` is no such encoding.
pub uninterp spec fn base64_decoded(text: Seq<char>) -> Option<Seq<u8>>;

/// Decodes `text` with `base64::engine::general_purpose::STANDARD` (`Engine::decode`).
/// Claimed: the outcome depends on `text` alone, giving the decoded bytes or failing exactly
/// when the text is no such encoding. The wording of the error message is not stated.
#[verifier::external_body]
fn decode_base64(text: &str) -> (r: Result<Vec<u8>, String>)
    ensures
        match r {
            Ok(b) => base64_decoded(text@) == Some(b@),
            Err(_) => base64_decoded(text@) is None,
        },
{
    match base64::engine::general_purpose::STANDARD.decode(text) {
        Ok(b) => Ok(b),
        Err(e) => Err(e.to_string()),
    }
}

/// Width, height and the RGBA8 pixel buffer (rows top first, four bytes per pixel) of the
/// image encoded in `bytes`, or `None` when no image can be decoded from them.
pub uninterp spec fn rgba_decoded(bytes: Seq<u8>) -> Option<(u32, u32, Seq<u8>)>;

/// Decodes `bytes` with `image::load_from_memory` and converts the image with
/// `DynamicImage::to_rgba8`, handing out its width, height and raw buffer (`into_raw`).
/// Claimed: the outcome depends on `bytes` alone, failing exactly when no image decodes, and
/// the buffer holds exactly four bytes for each of the width times height pixels (the decoder
/// fills a buffer of that size, and the conversion makes a fresh one of it). The wording of the error message is not stated.
#[verifier::external_body]
fn decode_image_rgba(bytes: &[u8]) -> (r: Result<(u32, u32, Vec<u8>), String>)
    ensures
        match r {
            Ok((w, h, px)) => rgba_decoded(bytes@) == Some((w, h, px@)) && px@.len() == 4 * w * h,
            Err(_) => rgba_decoded(bytes@) is None,
        },
{
    match image::load_from_memory(bytes) {
        Ok(img) => {
            let rgba = img.to_rgba8();
            Ok((rgba.width(), rgba.height(), rgba.into_raw()))
        },
        Err(e) => Err(e.to_string()),
    }
}

/// Index in an RGBA8 buffer of width `w` of the alpha byte of pixel (`x`, `y`).
pub open spec fn alpha_index(w: int, x: int, y: int) -> int {
    4 * (y * w + x) + 3
}

/// Whether pixel (`x`, `y`) of a `w` by `h` RGBA8 buffer lies inside it and is not fully
/// transparent.
pub open spec fn opaque_at(w: u32, h: u32, pixels: Seq<u8>, x: u32, y: u32) -> bool {
    x < w && y < h && pixels[alpha_index(w as int, x as int, y as int)] > 0
}

/// Whether the pixel at (`x`, `y`) of the image whose base64 text is `text` is opaque: false
/// when the text or the image does not decode or the pixel lies outside.
pub open spec fn pixel_opaque(text: Seq<char>, x: u32, y: u32) -> bool {
    match base64_decoded(text) {
        Some(bytes) => match rgba_decoded(bytes) {
            Some((w, h, px)) => opaque_at(w, h, px, x, y),
            None => false,
        },
        None => false,
    }
}

/// Whether pixel (`x`, `y`) of a `w` by `h` RGBA8 buffer lies inside it and has a non-zero alpha.
pub fn alpha_at(w: u32, h: u32, pixels: &Vec<u8>, x: u32, y: u32) -> (r: bool)
    requires
        pixels@.len() >= 4 * w * h,
    ensures
        r == opaque_at(w, h, pixels@, x, y),
{
    if x >= w || y >= h {
        return false;
    }
    assert(y * w + x < h * w) by (nonlinear_arith)
        requires
            x < w,
            y < h,
    {
        assert(y * w + x < y * w + w);
        assert(y * w + w == (y + 1) * w);
        assert((y + 1) * w <= h * w);
    }
    assert(4 * (y * w + x) + 3 < 4 * w * h) by (nonlinear_arith)
        requires
            y * w + x < h * w,
    ;
    let n = pixels.len();
    assert(n == pixels@.len());
    assert(y * w <= y * w + x);
    let i: usize = 4 * (y as usize * w as usize + x as usize) + 3;
    pixels[i] > 0
}

/// Whether the pixel at (`x`, `y`) of a base64-encoded image is opaque; false when the data
/// does not decode to an image or the pixel lies outside it.
pub fn is_pixel_opaque(base64_data: &str, x: u32, y: u32) -> (r: bool)
    ensures
        r == pixel_opaque(base64_data@, x, y),
{
    let bytes = match decode_base64(base64_data) {
        Ok(b) => b,
        Err(_) => { return false; },
    };
    match decode_image_rgba(bytes.as_slice()) {
        Ok((w, h, px)) => alpha_at(w, h, &px, x, y),
        Err(_) => false,
    }
}

/// The pixels of the image whose base64 text is `text`: width, height and RGBA8 buffer.
pub open spec fn decoded_pixels(text: Seq<char>) -> Option<(u32, u32, Seq<u8>)> {
    match base64_decoded(text) {
        Some(bytes) => rgba_decoded(bytes),
        None => None,
    }
}

/// Decodes a base64-encoded image into its width, height and RGBA8 buffer. The error message
/// starts "Failed to decode base64: " when the text is no base64, and "Failed to load image: "
/// when the bytes are no image.
pub fn decode_base64_rgba(base64_data: &str) -> (r: Result<(u32, u32, Vec<u8>), String>)
    ensures
        match r {
            Ok((w, h, px)) => decoded_pixels(base64_data@) == Some((w, h, px@)) && px@.len() == 4 * w * h,
            Err(m) => decoded_pixels(base64_data@) is None
                && (base64_decoded(base64_data@) is None ==> "Failed to decode base64: "@.is_prefix_of(m@))
                && (base64_decoded(base64_data@) is Some ==> "Failed to load image: "@.is_prefix_of(m@)),
        },
{
    proof {
        reveal_strlit("Failed to decode base64: ");
        reveal_strlit("Failed to load image: ");
    }
    let bytes = match decode_base64(base64_data) {
        Ok(b) => b,
        Err(e) => {
            let mut m = "Failed to decode base64: ".to_owned();
            m.append(e.as_str());
            assert(m@.take(25) =~= "Failed to decode base64: "@);
            return Err(m);
        },
    };
    match decode_image_rgba(bytes.as_slice()) {
        Ok(x) => Ok(x),
        Err(e) => {
            let mut m = "Failed to load image: ".to_owned();
            m.append(e.as_str());
            assert(m@.take(22) =~= "Failed to load image: "@);
            Err(m)
        },
    }
}

/// `after` is the RGBA8 buffer `before` with every pixel turned yellow (255, 255, 0) and its
/// alpha kept.
pub open spec fn yellowed(before: Seq<u8>, after: Seq<u8>) -> bool {
    &&& after.len() == before.len()
    &&& forall|i: int| 0 <= i < before.len() ==> #[trigger] after[i] == (
            if i % 4 == 0 || i % 4 == 1 { 255u8 } else if i % 4 == 2 { 0u8 } else { before[i] })
}

/// Turns every pixel of an RGBA8 buffer yellow, keeping its alpha; the silhouette shown for
/// the selected layer.
pub fn make_yellow(pixels: &mut Vec<u8>)
    ensures
        yellowed(old(pixels)@, final(pixels)@),
{
    let ghost orig = pixels@;
    let n = pixels.len();
    let mut i: usize = 0;
    while i < n
        invariant
            n == pixels.len(),
            orig.len() == n,
            i <= n,
            forall|j: int| 0 <= j < i ==> #[trigger] pixels@[j] == (
                if j % 4 == 0 || j % 4 == 1 { 255u8 } else if j % 4 == 2 { 0u8 } else { orig[j] }),
            forall|j: int| i <= j < n ==> #[trigger] pixels@[j] == orig[j],
        decreases n - i,
    {
        let k = i % 4;
        if k == 0 || k == 1 {
            pixels.set(i, 255);
        } else if k == 2 {
            pixels.set(i, 0);
        }
        i = i + 1;
    }
}

/// Decodes image file bytes (any format the image crate recognises) into width, height and
/// RGBA8 buffer.
pub fn decode_image_bytes(bytes: &[u8]) -> (r: Result<(u32, u32, Vec<u8>), String>)
    ensures
        match r {
            Ok((w, h, px)) => rgba_decoded(bytes@) == Some((w, h, px@)) && px@.len() == 4 * w * h,
            Err(_) => rgba_decoded(bytes@) is None,
        },
{
    decode_image_rgba(bytes)
}

/// What the reference image of `file_path` is drawn from: the image in `file_bytes` (what
/// reading the file gave, if it could be read) when it decodes, else the thumbnail kept for
/// it; width, height, RGBA8 buffer, the image's size and whether the thumbnail was used.
pub open spec fn reference_outcome(file_path: Seq<char>, file_bytes: Option<Seq<u8>>, thumbnail: Option<Seq<char>>)
    -> Result<(u32, u32, Seq<u8>, (u32, u32), bool), Seq<char>>
{
    let from_file = match file_bytes {
        Some(b) => rgba_decoded(b),
        None => None,
    };
    match from_file {
        Some((w, h, px)) => Ok((w, h, px, (w, h), false)),
        None => match thumbnail {
            Some(t) => match decoded_pixels(t) {
                Some((w, h, px)) => Ok((w, h, px, (w, h), true)),
                None => Err(if base64_decoded(t) is None { "Failed to decode thumbnail: "@ } else { "Failed to load thumbnail: "@ }),
            },
            None => Err("File not found and no thumbnail available: "@ + file_path),
        },
    }
}

/// The pixels a reference image is drawn from: those of the file's bytes when they decode,
/// else those of the thumbnail, with the image's size and whether the thumbnail was used.
/// A thumbnail that does not decode fails with "Failed to decode thumbnail: " or
/// "Failed to load thumbnail: " and the decoder's message; with neither, the error is
/// "File not found and no thumbnail available: " and the path.
pub fn reference_pixels(file_path: &str, file_bytes: Option<&[u8]>, thumbnail: Option<&str>)
    -> (r: Result<(u32, u32, Vec<u8>, (u32, u32), bool), String>)
    ensures
        ({
            let want = reference_outcome(file_path@, match file_bytes { Some(b) => Some(b@), None => None },
                match thumbnail { Some(t) => Some(t@), None => None });
            match r {
                Ok((w, h, px, size, fallback)) => want == Ok::<(u32, u32, Seq<u8>, (u32, u32), bool), Seq<char>>((w, h, px@, size, fallback))
                    && px@.len() == 4 * w * h,
                Err(m) => want matches Err(prefix) && prefix.is_prefix_of(m@)
                    && (thumbnail is None ==> m@ == prefix),
            }
        }),
{
    proof {
        reveal_strlit("Failed to decode thumbnail: ");
        reveal_strlit("Failed to load thumbnail: ");
        reveal_strlit("File not found and no thumbnail available: ");
    }
    match file_bytes {
        Some(b) => match decode_image_rgba(b) {
            Ok((w, h, px)) => { return Ok((w, h, px, (w, h), false)); },
            Err(_) => {},
        },
        None => {},
    }
    match thumbnail {
        Some(t) => {
            let bytes = match decode_base64(t) {
                Ok(b) => b,
                Err(e) => {
                    let mut m = "Failed to decode thumbnail: ".to_owned();
                    m.append(e.as_str());
                    assert("Failed to decode thumbnail: "@.is_prefix_of(m@)) by {
                        assert(m@.take(28) =~= "Failed to decode thumbnail: "@);
                    }
                    return Err(m);
                },
            };
            match decode_image_rgba(bytes.as_slice()) {
                Ok((w, h, px)) => Ok((w, h, px, (w, h), true)),
                Err(e) => {
                    let mut m = "Failed to load thumbnail: ".to_owned();
                    m.append(e.as_str());
                    assert("Failed to load thumbnail: "@.is_prefix_of(m@)) by {
                        assert(m@.take(26) =~= "Failed to load thumbnail: "@);
                    }
                    Err(m)
                },
            }
        },
        None => {
            let mut m = "File not found and no thumbnail available: ".to_owned();
            m.append(file_path);
            assert("File not found and no thumbnail available: "@.is_prefix_of(m@)) by {
                assert(m@.take(43) =~= "File not found and no thumbnail available: "@);
            }
            Err(m)
        },
    }
}

/// The bytes of the PNG file (or, with `jpeg`, the JPEG file) that the image crate writes for
/// the `w` by `h` RGBA8 image `pixels`, or `None` when it cannot write one.
pub uninterp spec fn image_encoded(w: u32, h: u32, pixels: Seq<u8>, jpeg: bool) -> Option<Seq<u8>>;

/// Encodes a `w` by `h` RGBA8 buffer with `DynamicImage::write_to` as PNG, or as JPEG when
/// `jpeg` holds (the image crate converts the colours to what the format takes). Claimed: the
/// outcome depends on the arguments alone, and the bytes, as any `Vec`, number at most
/// `isize::MAX`. The encoders assert that the buffer holds exactly four bytes per pixel, so
/// `requires` asks for that length. The wording of the error message is not stated.
#[verifier::external_body]
fn encode_image(w: u32, h: u32, pixels: Vec<u8>, jpeg: bool) -> (r: Result<Vec<u8>, String>)
    requires
        pixels@.len() == 4 * w * h,
    ensures
        match r {
            Ok(b) => image_encoded(w, h, pixels@, jpeg) == Some(b@) && b@.len() <= isize::MAX,
            Err(_) => image_encoded(w, h, pixels@, jpeg) is None,
        },
{
    let img = image::DynamicImage::ImageRgba8(image::RgbaImage::from_raw(w, h, pixels).unwrap());
    let format = if jpeg { image::ImageFormat::Jpeg } else { image::ImageFormat::Png };
    let mut bytes: Vec<u8> = Vec::new();
    match img.write_to(&mut std::io::Cursor::new(&mut bytes), format) {
        Ok(()) => Ok(bytes),
        Err(e) => Err(e.to_string()),
    }
}

/// The standard base64 text (alphabet of RFC 4648, with padding) of `bytes`.
pub uninterp spec fn base64_encoded(bytes: Seq<u8>) -> Seq<char>;

/// A character of the standard base64 alphabet, or the padding character.
pub open spec fn is_base64_char(c: char) -> bool {
    ||| 'A' <= c <= 'Z'
    ||| 'a' <= c <= 'z'
    ||| '0' <= c <= '9'
    ||| c == '+'
    ||| c == '/'
    ||| c == '='
}

/// Encodes `bytes` with `base64::engine::general_purpose::STANDARD` (`Engine::encode`).
/// Claimed: the text depends on the bytes alone; being padded, it has four characters for
/// each started group of three bytes, all from the standard alphabet or `=`. The encoder
/// panics only when the text's length overflows, which `requires` leaves out.
#[verifier::external_body]
fn encode_base64(bytes: &[u8]) -> (r: String)
    requires
        bytes@.len() / 3 * 4 + 4 <= usize::MAX,
    ensures
        r@ == base64_encoded(bytes@),
        r@.len() == 4 * ((bytes@.len() + 2) / 3),
        forall|i: int| 0 <= i < r@.len() ==> is_base64_char(#[trigger] r@[i]),
{
    base64::engine::general_purpose::STANDARD.encode(bytes)
}

/// The width, height and RGBA8 buffer of the `w` by `h` RGBA8 image `pixels` resized with
/// the image crate to fit within `nw` by `nh`, keeping its aspect ratio, sampled with a
/// triangle filter when `smooth` holds and with the nearest pixel otherwise.
pub uninterp spec fn rgba_resized(w: u32, h: u32, pixels: Seq<u8>, nw: u32, nh: u32, smooth: bool) -> (u32, u32, Seq<u8>);

/// Resizes a `w` by `h` RGBA8 buffer with `DynamicImage::resize` (`FilterType::Triangle` when
/// `smooth` holds, `FilterType::Nearest` otherwise) and hands out the result's width, height
/// and raw buffer. Claimed: the result depends on the arguments alone and its buffer holds
/// four bytes per pixel. `requires` keeps the target within the image, so the new buffer is
/// no larger than the old one.
#[verifier::external_body]
fn resize_rgba(w: u32, h: u32, pixels: Vec<u8>, nw: u32, nh: u32, smooth: bool) -> (r: (u32, u32, Vec<u8>))
    requires
        pixels@.len() == 4 * w * h,
        nw <= w,
        nh <= h,
    ensures
        (r.0, r.1, r.2@) == rgba_resized(w, h, pixels@, nw, nh, smooth),
        r.2@.len() == 4 * r.0 * r.1,
{
    let img = image::DynamicImage::ImageRgba8(image::RgbaImage::from_raw(w, h, pixels).unwrap());
    let filter = if smooth { image::imageops::FilterType::Triangle } else { image::imageops::FilterType::Nearest };
    let out = img.resize(nw, nh, filter).to_rgba8();
    (out.width(), out.height(), out.into_raw())
}

/// The image `pixels` (`w` by `h`, RGBA8) after an optional fit: unchanged for `None`, resized
/// to fit within the given width and height otherwise.
pub open spec fn fitted(w: u32, h: u32, pixels: Seq<u8>, fit: Option<(u32, u32)>, smooth: bool) -> (u32, u32, Seq<u8>) {
    match fit {
        Some((nw, nh)) => rgba_resized(w, h, pixels, nw, nh, smooth),
        None => (w, h, pixels),
    }
}

/// A `w` by `h` RGBA8 buffer, shrunk to fit within `fit` when one is given (smoothly when
/// `smooth` holds, else by nearest pixel).
pub fn fit_pixels(w: u32, h: u32, pixels: Vec<u8>, fit: Option<(u32, u32)>, smooth: bool) -> (r: (u32, u32, Vec<u8>))
    requires
        pixels@.len() == 4 * w * h,
        fit matches Some((nw, nh)) ==> nw <= w && nh <= h,
    ensures
        (r.0, r.1, r.2@) == fitted(w, h, pixels@, fit, smooth),
        r.2@.len() == 4 * r.0 * r.1,
{
    match fit {
        Some((nw, nh)) => resize_rgba(w, h, pixels, nw, nh, smooth),
        None => (w, h, pixels),
    }
}

/// The message an encoding failure starts with.
pub open spec fn encode_failure(jpeg: bool) -> Seq<char> {
    if jpeg { "Failed to encode JPEG: "@ } else { "Failed to encode PNG: "@ }
}

/// A `w` by `h` RGBA8 buffer written as a PNG file, or as a JPEG file when `jpeg` holds, and
/// given as base64 text. The error message starts "Failed to encode PNG: " (or "JPEG").
pub fn image_as_base64(w: u32, h: u32, pixels: Vec<u8>, jpeg: bool) -> (r: Result<String, String>)
    requires
        pixels@.len() == 4 * w * h,
    ensures
        match r {
            Ok(s) => image_encoded(w, h, pixels@, jpeg) matches Some(b) && s@ == base64_encoded(b),
            Err(m) => image_encoded(w, h, pixels@, jpeg) is None && encode_failure(jpeg).is_prefix_of(m@),
        },
{
    proof {
        reveal_strlit("Failed to encode JPEG: ");
        reveal_strlit("Failed to encode PNG: ");
    }
    let ghost px = pixels@;
    match encode_image(w, h, pixels, jpeg) {
        Ok(b) => {
            assert(b@.len() / 3 * 4 + 4 <= usize::MAX);
            Ok(encode_base64(b.as_slice()))
        },
        Err(e) => {
            let mut m = if jpeg { "Failed to encode JPEG: ".to_owned() } else { "Failed to encode PNG: ".to_owned() };
            let ghost prefix = m@;
            m.append(e.as_str());
            assert(prefix.is_prefix_of(m@)) by {
                assert(m@.take(prefix.len() as int) =~= prefix);
            }
            Err(m)
        },
    }
}

/// A `w` by `h` RGBA8 buffer, shrunk to fit within `fit` when one is given (smoothly when
/// `smooth` holds), written as a PNG file (or a JPEG file when `jpeg` holds) and given as
/// base64 text. The error message starts "Failed to encode PNG: " (or "JPEG").
pub fn fitted_image_base64(w: u32, h: u32, pixels: Vec<u8>, fit: Option<(u32, u32)>, jpeg: bool, smooth: bool)
    -> (r: Result<String, String>)
    requires
        pixels@.len() == 4 * w * h,
        fit matches Some((nw, nh)) ==> nw <= w && nh <= h,
    ensures
        ({
            let (fw, fh, fp) = fitted(w, h, pixels@, fit, smooth);
            match r {
                Ok(s) => image_encoded(fw, fh, fp, jpeg) matches Some(b) && s@ == base64_encoded(b),
                Err(m) => image_encoded(fw, fh, fp, jpeg) is None && encode_failure(jpeg).is_prefix_of(m@),
            }
        }),
{
    let (fw, fh, fp) = fit_pixels(w, h, pixels, fit, smooth);
    image_as_base64(fw, fh, fp, jpeg)
}

} // verus!
