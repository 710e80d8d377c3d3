//! Turning an icon drawn as BGRA pixels into a PNG data URL, and the
//! decisions around the shell's icon handles: which size to keep and how
//! large a bitmap to draw.

use vstd::prelude::*;
use vstd::string::*;
use image::ImageEncoder;
use base64::Engine;

verus! {

/// Byte `i` of the pixel buffer with blue and red swapped in every whole
/// 4-byte pixel (bytes after the last whole pixel stay).
pub open spec fn swapped_byte(s: Seq<u8>, i: int) -> u8 {
    if i < (s.len() / 4) * 4 {
        if i % 4 == 0 {
            s[i + 2]
        } else if i % 4 == 2 {
            s[i - 2]
        } else {
            s[i]
        }
    } else {
        s[i]
    }
}

/// The alpha byte of pixel `k`.
pub open spec fn alpha_of(s: Seq<u8>, k: int) -> u8 {
    s[4 * k + 3]
}

/// Whether pixel `k` has a non-zero colour channel.
pub open spec fn rgb_visible(s: Seq<u8>, k: int) -> bool {
    s[4 * k] != 0 || s[4 * k + 1] != 0 || s[4 * k + 2] != 0
}

pub open spec fn any_alpha(s: Seq<u8>) -> bool {
    exists|k: int| 0 <= k < s.len() / 4 && #[trigger] alpha_of(s, k) != 0
}

pub open spec fn any_visible_rgb(s: Seq<u8>) -> bool {
    exists|k: int| 0 <= k < s.len() / 4 && #[trigger] rgb_visible(s, k)
}

/// The pixels handed to the PNG encoder: BGRA turned into RGBA, and, when
/// no pixel has any alpha but some pixel has colour, every pixel made
/// opaque exactly when it has colour.
pub open spec fn icon_pixels_spec(s: Seq<u8>) -> Seq<u8> {
    let fix_alpha = !any_alpha(s) && any_visible_rgb(s);
    Seq::new(
        s.len(),
        |i: int|
            if fix_alpha && i < (s.len() / 4) * 4 && i % 4 == 3 {
                if rgb_visible(s, i / 4) {
                    255u8
                } else {
                    0u8
                }
            } else {
                swapped_byte(s, i)
            },
    )
}

/// Converts the drawn BGRA pixels in place as `icon_pixels_spec` says.
pub fn prepare_icon_pixels(rgba: &mut Vec<u8>)
    ensures
        final(rgba)@ == icon_pixels_spec(old(rgba)@),
        final(rgba)@.len() == old(rgba)@.len(),
        // Every whole pixel has blue and red swapped and green kept,
        // whatever its alpha.
        forall|k: int|
            0 <= k < old(rgba)@.len() / 4 ==> final(rgba)@[4 * k] == old(rgba)@[4 * k + 2]
                && final(rgba)@[4 * k + 1] == old(rgba)@[4 * k + 1] && #[trigger] final(rgba)@[4
                * k + 2] == old(rgba)@[4 * k],
        // Alpha is kept, unless no pixel has any and some pixel has colour:
        // then exactly the pixels with colour become opaque.
        forall|k: int|
            0 <= k < old(rgba)@.len() / 4 ==> #[trigger] final(rgba)@[4 * k + 3] == (if !any_alpha(
                old(rgba)@,
            ) && any_visible_rgb(old(rgba)@) {
                if rgb_visible(old(rgba)@, k) {
                    255u8
                } else {
                    0u8
                }
            } else {
                old(rgba)@[4 * k + 3]
            }),
        // Bytes after the last whole pixel stay.
        forall|i: int|
            (old(rgba)@.len() / 4) * 4 <= i < old(rgba)@.len() ==> #[trigger] final(rgba)@[i]
                == old(rgba)@[i],
{
    let ghost orig = rgba@;
    let len = rgba.len();
    let n = len / 4;
    let mut has_alpha = false;
    let mut has_rgb = false;
    let mut k: usize = 0;
    while k < n
        invariant
            k <= n == len / 4,
            len == rgba@.len() == orig.len(),
            forall|i: int| 0 <= i < 4 * k ==> rgba@[i] == swapped_byte(orig, i),
            forall|i: int| 4 * k <= i < len ==> rgba@[i] == orig[i],
            has_alpha == exists|j: int| 0 <= j < k && #[trigger] alpha_of(orig, j) != 0,
            has_rgb == exists|j: int| 0 <= j < k && #[trigger] rgb_visible(orig, j),
        decreases n - k,
    {
        let base = 4 * k;
        let b = rgba[base];
        let r = rgba[base + 2];
        let a = rgba[base + 3];
        let g = rgba[base + 1];
        assert(alpha_of(orig, k as int) == a);
        assert(rgb_visible(orig, k as int) == (b != 0 || g != 0 || r != 0));
        rgba.set(base, r);
        rgba.set(base + 2, b);
        has_alpha = has_alpha || a != 0;
        has_rgb = has_rgb || b != 0 || g != 0 || r != 0;
        k = k + 1;
    }
    assert(has_alpha == any_alpha(orig));
    assert(has_rgb == any_visible_rgb(orig));
    if !has_alpha && has_rgb {
        let mut k: usize = 0;
        while k < n
            invariant
                k <= n == len / 4,
                len == rgba@.len() == orig.len(),
                !any_alpha(orig) && any_visible_rgb(orig),
                forall|i: int| 0 <= i < len ==> i % 4 != 3 || i >= 4 * n ==> rgba@[i] == swapped_byte(orig, i),
                forall|i: int| 0 <= i < 4 * k && i % 4 == 3 ==> rgba@[i] == icon_pixels_spec(orig)[i],
                forall|i: int| 4 * k <= i < 4 * n && i % 4 == 3 ==> rgba@[i] == swapped_byte(orig, i),
            decreases n - k,
        {
            let base = 4 * k;
            assert(base % 4 == 0 && (base + 1) % 4 == 1 && (base + 2) % 4 == 2);
            assert(base + 3 < 4 * n);
            // The colour bytes hold the swapped pixel: red, green, blue.
            assert(rgba@[base as int] == orig[base + 2] && rgba@[base + 1] == orig[base + 1]
                && rgba@[base + 2] == orig[base as int]) by {
                assert(rgba@[base as int] == swapped_byte(orig, base as int));
                assert(rgba@[base + 1] == swapped_byte(orig, base + 1));
                assert(rgba@[base + 2] == swapped_byte(orig, base + 2));
            }
            let visible = rgba[base] != 0 || rgba[base + 1] != 0 || rgba[base + 2] != 0;
            assert(visible == rgb_visible(orig, k as int));
            let alpha: u8 = if visible {
                255
            } else {
                0
            };
            rgba.set(base + 3, alpha);
            k = k + 1;
        }
    }
    assert(rgba@ =~= icon_pixels_spec(orig));
    proof {
        lemma_icon_pixels(orig);
    }
}

/// Preparing pixels swaps blue and red in every whole pixel and keeps
/// green, whatever the alpha; alpha changes only for an image with no
/// alpha at all but some colour, where exactly the coloured pixels become
/// opaque; and bytes after the last whole pixel stay.
pub proof fn lemma_icon_pixels(s: Seq<u8>)
    ensures
        icon_pixels_spec(s).len() == s.len(),
        forall|k: int|
            0 <= k < s.len() / 4 ==> icon_pixels_spec(s)[4 * k] == s[4 * k + 2]
                && icon_pixels_spec(s)[4 * k + 1] == s[4 * k + 1] && #[trigger] icon_pixels_spec(
                s,
            )[4 * k + 2] == s[4 * k],
        forall|k: int|
            0 <= k < s.len() / 4 ==> #[trigger] icon_pixels_spec(s)[4 * k + 3] == (if !any_alpha(s)
                && any_visible_rgb(s) {
                if rgb_visible(s, k) {
                    255u8
                } else {
                    0u8
                }
            } else {
                s[4 * k + 3]
            }),
        forall|i: int|
            (s.len() / 4) * 4 <= i < s.len() ==> #[trigger] icon_pixels_spec(s)[i] == s[i],
{
    assert forall|k: int| 0 <= k < s.len() / 4 implies icon_pixels_spec(s)[4 * k] == s[4 * k + 2]
        && icon_pixels_spec(s)[4 * k + 1] == s[4 * k + 1] && #[trigger] icon_pixels_spec(s)[4 * k
        + 2] == s[4 * k] by {
        assert((4 * k) % 4 == 0 && (4 * k + 1) % 4 == 1 && (4 * k + 2) % 4 == 2);
        assert(4 * k + 3 < (s.len() / 4) * 4);
    }
    assert forall|k: int| 0 <= k < s.len() / 4 implies #[trigger] icon_pixels_spec(s)[4 * k + 3]
        == (if !any_alpha(s) && any_visible_rgb(s) {
        if rgb_visible(s, k) {
            255u8
        } else {
            0u8
        }
    } else {
        s[4 * k + 3]
    }) by {
        assert((4 * k + 3) % 4 == 3 && (4 * k + 3) / 4 == k);
        assert(4 * k + 3 < (s.len() / 4) * 4);
    }
}

} // verus!

verus! {

#[verifier::external_type_specification]
#[verifier::external_body]
pub struct ExImageError(image::ImageError);

/// Name for the PNG file that `image`'s `PngEncoder` (default compression
/// and filter) writes for 8-bit RGBA pixels of the given size, or `None`
/// when it reports an error.
pub uninterp spec fn png_rgba8_encoding(pixels: Seq<u8>, width: u32, height: u32) -> Option<Seq<u8>>;

/// `PngEncoder::new(..).write_image(pixels, width, height, Rgba8)` into a
/// fresh `Vec`. The encoder panics unless the buffer holds exactly
/// `width * height` pixels; the result is named, and a `Vec` never holds
/// more than `isize::MAX` bytes.
#[verifier::external_body]
fn encode_png_rgba8(pixels: &[u8], width: u32, height: u32) -> (r: Result<Vec<u8>, image::ImageError>)
    requires
        pixels@.len() == width * height * 4,
    ensures
        match r {
            Ok(png) => png_rgba8_encoding(pixels@, width, height) == Some(png@) && png@.len()
                <= isize::MAX,
            Err(_) => png_rgba8_encoding(pixels@, width, height) is None,
        },
{
    let mut png: Vec<u8> = Vec::new();
    let encoder = image::codecs::png::PngEncoder::new(&mut png);
    match encoder.write_image(pixels, width, height, image::ExtendedColorType::Rgba8) {
        Ok(()) => Ok(png),
        Err(e) => Err(e),
    }
}

/// `ImageError`'s `Display` text. Nothing is stated of the text.
#[verifier::external_body]
fn image_error_text(e: &image::ImageError) -> String {
    e.to_string()
}

/// The base64 digit for a 6-bit value: `A-Z`, `a-z`, `0-9`, `+`, `/`.
pub open spec fn base64_digit(v: int) -> char {
    if v < 26 {
        (65 + v) as char
    } else if v < 52 {
        (71 + v) as char
    } else if v < 62 {
        (v - 4) as char
    } else if v == 62 {
        '+'
    } else {
        '/'
    }
}

/// The four digits for three bytes, taken as one 24-bit number, most
/// significant six bits first.
pub open spec fn base64_quad(a: u8, b: u8, c: u8) -> Seq<char> {
    let x = a * 65536 + b * 256 + c;
    seq![
        base64_digit(x / 262144),
        base64_digit((x / 4096) % 64),
        base64_digit((x / 64) % 64),
        base64_digit(x % 64),
    ]
}

/// The standard base64 encoding (RFC 4648, alphabet `A-Z a-z 0-9 + /`) of
/// some bytes: four digits for every three bytes, and a last group of one
/// or two bytes padded with zero bits and written with `==` or `=`.
pub open spec fn base64_standard(data: Seq<u8>) -> Seq<char>
    decreases data.len(),
{
    if data.len() == 0 {
        seq![]
    } else if data.len() == 1 {
        base64_quad(data[0], 0, 0).take(2) + seq!['=', '=']
    } else if data.len() == 2 {
        base64_quad(data[0], data[1], 0).take(3) + seq!['=']
    } else {
        base64_quad(data[0], data[1], data[2]) + base64_standard(data.skip(3))
    }
}

/// `base64::engine::general_purpose::STANDARD.encode(data)`: the padded
/// standard encoding, as `base64_standard` spells it out. It panics only
/// when the encoded length overflows `usize`, which no slice of at most
/// `isize::MAX` bytes reaches.
#[verifier::external_body]
fn base64_encode(data: &[u8]) -> (r: String)
    requires
        data@.len() <= isize::MAX,
    ensures
        r@ == base64_standard(data@),
{
    base64::engine::general_purpose::STANDARD.encode(data)
}

pub open spec fn png_data_url_prefix() -> Seq<char> {
    "data:image/png;base64,"@
}

pub open spec fn png_error_prefix() -> Seq<char> {
    "编码图标 PNG 失败："@
}

pub open spec fn starts_with(s: Seq<char>, prefix: Seq<char>) -> bool {
    prefix.len() <= s.len() && s.take(prefix.len() as int) == prefix
}

/// A `data:` URL holding the PNG file, base64-encoded.
pub fn png_data_url(png: &[u8]) -> (r: String)
    requires
        png@.len() <= isize::MAX,
    ensures
        r@ == png_data_url_prefix() + base64_standard(png@),
{
    let mut url = "data:image/png;base64,".to_owned();
    let encoded = base64_encode(png);
    url.append(encoded.as_str());
    url
}

/// The PNG data URL of an icon drawn as `width` x `height` BGRA pixels:
/// the pixels are prepared as `icon_pixels_spec` says and encoded as PNG;
/// an encoder error gives an error message.
pub fn icon_png_data_url(rgba: Vec<u8>, width: i32, height: i32) -> (r: Result<String, String>)
    requires
        width > 0,
        height > 0,
        rgba@.len() == width * height * 4,
    ensures
        match png_rgba8_encoding(icon_pixels_spec(rgba@), width as u32, height as u32) {
            Some(png) => r matches Ok(url) && url@ == png_data_url_prefix() + base64_standard(png),
            None => r matches Err(m) && starts_with(m@, png_error_prefix()),
        },
{
    let mut pixels = rgba;
    prepare_icon_pixels(&mut pixels);
    match encode_png_rgba8(&pixels, width as u32, height as u32) {
        Ok(png) => Ok(png_data_url(&png)),
        Err(e) => {
            let mut message = "编码图标 PNG 失败：".to_owned();
            let text = image_error_text(&e);
            message.append(text.as_str());
            assert(message@.take(png_error_prefix().len() as int) =~= png_error_prefix());
            Err(message)
        },
    }
}

pub open spec fn clamp_spec(x: int, lo: int, hi: int) -> int {
    if x < lo {
        lo
    } else if x > hi {
        hi
    } else {
        x
    }
}

fn clamp_i32(x: i32, lo: i32, hi: i32) -> (r: i32)
    requires
        lo <= hi,
    ensures
        r == clamp_spec(x as int, lo as int, hi as int),
{
    if x < lo {
        lo
    } else if x > hi {
        hi
    } else {
        x
    }
}

/// The size to draw an icon at, from its bitmap: nothing when reading the
/// bitmap failed (`object_bytes == 0`) or its size is not positive;
/// otherwise the width, and the height (halved when only the mask bitmap,
/// which stacks two images, was available), each clamped to `16..=256`.
pub open spec fn icon_dimensions_spec(
    object_bytes: i32,
    bm_width: i32,
    bm_height: i32,
    used_color_bitmap: bool,
) -> Option<(i32, i32)> {
    if object_bytes == 0 || bm_width <= 0 || bm_height <= 0 {
        None
    } else {
        Some(
            (
                clamp_spec(bm_width as int, 16, 256) as i32,
                clamp_spec(
                    if used_color_bitmap {
                        bm_height as int
                    } else {
                        bm_height as int / 2
                    },
                    16,
                    256,
                ) as i32,
            ),
        )
    }
}

/// The icon's drawing size, read from its bitmap.
pub fn icon_dimensions(object_bytes: i32, bm_width: i32, bm_height: i32, used_color_bitmap: bool) -> (r:
    Option<(i32, i32)>)
    ensures
        r == icon_dimensions_spec(object_bytes, bm_width, bm_height, used_color_bitmap),
{
    if object_bytes == 0 || bm_width <= 0 || bm_height <= 0 {
        return None;
    }
    let height = if used_color_bitmap {
        bm_height
    } else {
        bm_height / 2
    };
    Some((clamp_i32(bm_width, 16, 256), clamp_i32(height, 16, 256)))
}

/// The size an icon is drawn at: its bitmap size, or 32 x 32 when that
/// could not be read.
pub open spec fn drawing_size_spec(dimensions: Option<(i32, i32)>) -> (i32, i32) {
    match dimensions {
        Some(d) => d,
        None => (32i32, 32i32),
    }
}

/// The size an icon is drawn at.
pub fn drawing_size(dimensions: Option<(i32, i32)>) -> (r: (i32, i32))
    ensures
        r == drawing_size_spec(dimensions),
{
    match dimensions {
        Some(d) => d,
        None => (32, 32),
    }
}

/// Whatever its bitmap reports, an icon is drawn between 16 and 256 pixels
/// wide and high, so its pixel buffer always has a size `icon_buffer_len`
/// can compute.
pub proof fn lemma_drawing_size_bounded(
    object_bytes: i32,
    bm_width: i32,
    bm_height: i32,
    used_color_bitmap: bool,
)
    ensures
        ({
            let (w, h) = drawing_size_spec(
                icon_dimensions_spec(object_bytes, bm_width, bm_height, used_color_bitmap),
            );
            16 <= w <= 256 && 16 <= h <= 256
        }),
{
}

/// The number of bytes of a 32-bit `width` x `height` bitmap.
pub fn icon_buffer_len(width: i32, height: i32) -> (n: usize)
    requires
        0 < width <= 256,
        0 < height <= 256,
    ensures
        n == width * height * 4,
{
    assert(width * height <= 65536) by (nonlinear_arith)
        requires
            0 < width <= 256,
            0 < height <= 256,
    ;
    (width as usize) * (height as usize) * 4
}

/// Which of the icons `ExtractIconExW` returned to keep, whether to destroy
/// the other one, and whether the extraction counts as a success.
#[derive(Debug, PartialEq, Eq)]
pub struct ExtractedIconPlan {
    pub keep_large: bool,
    pub destroy_other: bool,
    pub outcome: Result<(), String>,
}

pub open spec fn no_icon_resource_message() -> Seq<char> {
    "图标资源不存在"@
}

pub open spec fn empty_icon_resource_message() -> Seq<char> {
    "图标资源为空"@
}

/// After `ExtractIconExW` asked for one large and one small icon: nothing
/// extracted is an error; otherwise the large icon is kept when valid, else
/// the small one, the other is destroyed when valid, and a kept icon that is
/// not valid is an error.
pub fn plan_extracted_icon(extracted: u32, large_valid: bool, small_valid: bool) -> (p:
    ExtractedIconPlan)
    ensures
        extracted == 0 ==> (!p.destroy_other && (p.outcome matches Err(m) && m@
            == no_icon_resource_message())),
        extracted != 0 ==> {
            &&& p.keep_large == large_valid
            &&& p.destroy_other == (if large_valid {
                small_valid
            } else {
                large_valid
            })
            &&& (large_valid || small_valid) ==> p.outcome is Ok
            &&& !(large_valid || small_valid) ==> (p.outcome matches Err(m) && m@
                == empty_icon_resource_message())
        },
{
    if extracted == 0 {
        return ExtractedIconPlan {
            keep_large: false,
            destroy_other: false,
            outcome: Err("图标资源不存在".to_owned()),
        };
    }
    let kept_valid = if large_valid {
        true
    } else {
        small_valid
    };
    let other_valid = if large_valid {
        small_valid
    } else {
        large_valid
    };
    let outcome = if kept_valid {
        Ok(())
    } else {
        Err("图标资源为空".to_owned())
    };
    ExtractedIconPlan { keep_large: large_valid, destroy_other: other_valid, outcome }
}

pub open spec fn no_shell_icon_message() -> Seq<char> {
    "Shell 未返回文件图标"@
}

/// After `SHGetFileInfoW`: a zero result or an invalid icon handle is an
/// error.
pub fn shell_icon_outcome(result: usize, icon_valid: bool) -> (r: Result<(), String>)
    ensures
        (result != 0 && icon_valid) ==> r is Ok,
        !(result != 0 && icon_valid) ==> (r matches Err(m) && m@ == no_shell_icon_message()),
{
    if result == 0 || !icon_valid {
        Err("Shell 未返回文件图标".to_owned())
    } else {
        Ok(())
    }
}

} // verus!
