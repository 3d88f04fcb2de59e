//! Window icons: choosing the icon handle, reordering GDI pixel data, and
//! turning RGBA pixels into a PNG data URL.

use vstd::prelude::*;
use crate::base64::{base64_encode, base64_spec};

verus! {

/// What the `image` crate produces when an RGBA buffer of the given size is
/// encoded as PNG (`None` when it does not encode).
pub uninterp spec fn png_rgba(width: u32, height: u32, rgba: Seq<u8>) -> Option<Seq<u8>>;

/// View of optional bytes.
pub open spec fn opt_bytes(o: Option<Vec<u8>>) -> Option<Seq<u8>> {
    match o {
        Some(v) => Some(v@),
        None => None,
    }
}

/// Encodes an RGBA buffer as PNG.
///
/// Trusted: calls `image::ImageBuffer::from_raw` and
/// `ImageBuffer::write_to(.., ImageFormat::Png)`. The bytes are a function of
/// the arguments, named `png_rgba`. `from_raw` returns `None` when the buffer
/// is shorter than `4 * width * height` bytes (its `check_image_fits`), so
/// then no PNG is produced.
#[verifier::external_body]
fn encode_png_rgba(width: u32, height: u32, rgba: Vec<u8>) -> (r: Option<Vec<u8>>)
    ensures
        opt_bytes(r) == png_rgba(width, height, rgba@),
        rgba@.len() < 4 * width * height ==> r is None,
{
    let img: image::RgbaImage = image::ImageBuffer::from_raw(width, height, rgba)?;
    let mut buf = std::io::Cursor::new(Vec::new());
    img.write_to(&mut buf, image::ImageFormat::Png).ok()?;
    Some(buf.into_inner())
}

/// Every alpha byte (positions 3, 7, 11, ...) is zero, as in old-style GDI
/// bitmaps that carry no transparency.
pub open spec fn all_alpha_zero(rgba: Seq<u8>) -> bool {
    forall|k: int| 0 <= k < rgba.len() && k % 4 == 3 ==> #[trigger] rgba[k] == 0
}

/// Pixels made fully opaque when they carry no alpha at all.
pub open spec fn opaque_if_no_alpha(rgba: Seq<u8>) -> Seq<u8> {
    if all_alpha_zero(rgba) {
        Seq::new(rgba.len(), |k: int| if k % 4 == 3 { 255u8 } else { rgba[k] })
    } else {
        rgba
    }
}

/// The data URL of an icon: the PNG of its (opacity-fixed) pixels, Base64
/// encoded behind `data:image/png;base64,`. Sizes are taken modulo 2^32.
pub open spec fn icon_data_url_spec(width: usize, height: usize, rgba: Seq<u8>) -> Option<Seq<char>> {
    match png_rgba(width as u32, height as u32, opaque_if_no_alpha(rgba)) {
        Some(png) => Some("data:image/png;base64,"@ + base64_spec(png)),
        None => None,
    }
}

/// View of an optional string.
pub open spec fn opt_text(o: Option<String>) -> Option<Seq<char>> {
    match o {
        Some(s) => Some(s@),
        None => None,
    }
}

/// Makes the alpha channel opaque when every alpha byte is zero.
pub fn fix_missing_alpha(rgba: &mut Vec<u8>)
    ensures
        final(rgba)@ == opaque_if_no_alpha(old(rgba)@),
{
    let len = rgba.len();
    let mut k: usize = 0;
    let mut all_zero = true;
    while k < len
        invariant
            k <= len,
            len == rgba@.len(),
            all_zero == forall|m: int| 0 <= m < k && m % 4 == 3 ==> #[trigger] rgba@[m] == 0,
        decreases len - k,
    {
        if k % 4 == 3 && rgba[k] != 0 {
            all_zero = false;
        }
        k += 1;
    }
    if !all_zero {
        return;
    }
    let ghost orig = rgba@;
    let mut k: usize = 0;
    while k < len
        invariant
            k <= len,
            len == rgba@.len(),
            orig.len() == len,
            all_alpha_zero(orig),
            forall|m: int| 0 <= m < k ==> #[trigger] rgba@[m] == (if m % 4 == 3 { 255u8 } else { orig[m] }),
            forall|m: int| k <= m < len ==> #[trigger] rgba@[m] == orig[m],
        decreases len - k,
    {
        if k % 4 == 3 {
            rgba.set(k, 255);
        }
        k += 1;
    }
    assert(rgba@ =~= opaque_if_no_alpha(orig));
}

/// Converts RGBA pixels into a `data:image/png;base64,...` string; old-style
/// bitmaps whose alpha is all zero are treated as fully opaque. `None` when
/// the pixels do not encode (e.g. the buffer is too small for the size).
pub fn icon_b64_from_rgba(width: usize, height: usize, rgba: Vec<u8>) -> (r: Option<String>)
    ensures
        opt_text(r) == icon_data_url_spec(width, height, rgba@),
        rgba@.len() < 4 * (width as u32) * (height as u32) ==> r is None,
{
    let mut rgba = rgba;
    fix_missing_alpha(&mut rgba);
    #[verifier::truncate]
    let w = width as u32;
    #[verifier::truncate]
    let h = height as u32;
    let png = match encode_png_rgba(w, h, rgba) {
        Some(p) => p,
        None => return None,
    };
    let mut out = String::from_str("data:image/png;base64,");
    let b64 = base64_encode(png.as_slice());
    out.append(b64.as_str());
    Some(out)
}

/// GDI pixels (B, G, R, A) reordered to (R, G, B, A).
pub open spec fn swap_red_blue(px: Seq<u8>) -> Seq<u8> {
    Seq::new(px.len(), |k: int|
        if k % 4 == 0 { px[k + 2] } else if k % 4 == 2 { px[k - 2] } else { px[k] })
}

/// Reorders 32-bit GDI pixels from BGRA to RGBA in place. The buffer holds
/// whole pixels (a partial last pixel would be indexed past its end).
pub fn bgra_to_rgba(pixels: &mut Vec<u8>)
    requires
        old(pixels)@.len() % 4 == 0,
    ensures
        final(pixels)@ == swap_red_blue(old(pixels)@),
{
    let ghost orig = pixels@;
    let len = pixels.len();
    let mut i: usize = 0;
    while i < len
        invariant
            len == pixels@.len(),
            len == orig.len(),
            len % 4 == 0,
            i % 4 == 0,
            i <= len,
            forall|m: int| 0 <= m < i ==> #[trigger] pixels@[m] == swap_red_blue(orig)[m],
            forall|m: int| i <= m < len ==> #[trigger] pixels@[m] == orig[m],
        decreases len - i,
    {
        let b = pixels[i];
        let r = pixels[i + 2];
        pixels.set(i, r);
        pixels.set(i + 2, b);
        i += 4;
    }
    assert(pixels@ =~= swap_red_blue(orig));
}

/// Reordering twice gives back the input pixels.
pub proof fn lemma_swap_red_blue_involution(px: Seq<u8>)
    requires
        px.len() % 4 == 0,
    ensures
        swap_red_blue(swap_red_blue(px)) == px,
{
    assert(swap_red_blue(swap_red_blue(px)) =~= px);
}

/// The opacity fix only ever changes alpha bytes, and leaves pixels that
/// carry some alpha untouched.
pub proof fn lemma_opacity_fix_keeps_colors(rgba: Seq<u8>)
    ensures
        opaque_if_no_alpha(rgba).len() == rgba.len(),
        forall|k: int| 0 <= k < rgba.len() && k % 4 != 3 ==> #[trigger] opaque_if_no_alpha(rgba)[k] == rgba[k],
        !all_alpha_zero(rgba) ==> opaque_if_no_alpha(rgba) == rgba,
{
}

/// The first non-zero icon handle among the candidates, in order.
pub open spec fn first_nonzero(c: Seq<isize>) -> Option<isize>
    decreases c.len(),
{
    if c.len() == 0 {
        None
    } else if c[0] != 0 {
        Some(c[0])
    } else {
        first_nonzero(c.drop_first())
    }
}

/// Chooses the icon handle: the first non-zero one of the window's big icon,
/// its DPI-aware small icon, its class icon and its class small icon.
pub fn pick_icon_handle(candidates: [isize; 4]) -> (r: Option<isize>)
    ensures
        r == first_nonzero(candidates@),
{
    proof {
        let c = candidates@;
        reveal_with_fuel(first_nonzero, 5);
        assert(c.drop_first().drop_first().drop_first().drop_first().len() == 0);
    }
    if candidates[0] != 0 {
        Some(candidates[0])
    } else if candidates[1] != 0 {
        Some(candidates[1])
    } else if candidates[2] != 0 {
        Some(candidates[2])
    } else if candidates[3] != 0 {
        Some(candidates[3])
    } else {
        None
    }
}

/// A bitmap without any alpha becomes fully opaque: when every alpha byte is
/// zero, every alpha byte of the result is 255, whatever its pixel's colour;
/// the other bytes and the length are kept.
pub proof fn lemma_no_alpha_becomes_opaque(rgba: Seq<u8>)
    requires
        forall|k: int| 0 <= k < rgba.len() && k % 4 == 3 ==> #[trigger] rgba[k] == 0,
    ensures
        opaque_if_no_alpha(rgba).len() == rgba.len(),
        forall|k: int| 0 <= k < rgba.len() && k % 4 == 3 ==> #[trigger] opaque_if_no_alpha(rgba)[k] == 255,
        forall|k: int| 0 <= k < rgba.len() && k % 4 != 3 ==> #[trigger] opaque_if_no_alpha(rgba)[k] == rgba[k],
{
}

/// A bitmap with some non-zero alpha byte is left exactly as it is.
pub proof fn lemma_alpha_kept_when_present(rgba: Seq<u8>, k: int)
    requires
        0 <= k < rgba.len(),
        k % 4 == 3,
        rgba[k] != 0,
    ensures
        opaque_if_no_alpha(rgba) == rgba,
{
}

/// The chosen icon handle is the first non-zero candidate: there is none
/// exactly when all candidates are zero, and otherwise it is a non-zero
/// candidate preceded only by zeros.
pub proof fn lemma_first_nonzero_choice(c: Seq<isize>)
    ensures
        first_nonzero(c) is None <==> forall|i: int| 0 <= i < c.len() ==> #[trigger] c[i] == 0,
        first_nonzero(c) matches Some(h) ==> h != 0 && exists|i: int| 0 <= i < c.len() && #[trigger] c[i] == h
            && forall|j: int| 0 <= j < i ==> #[trigger] c[j] == 0,
    decreases c.len(),
{
    if c.len() > 0 {
        lemma_first_nonzero_choice(c.drop_first());
        if c[0] == 0 {
            let d = c.drop_first();
            if forall|i: int| 0 <= i < d.len() ==> #[trigger] d[i] == 0 {
                assert forall|i: int| 0 <= i < c.len() implies #[trigger] c[i] == 0 by {
                    if i > 0 { assert(c[i] == d[i - 1]); }
                }
            } else {
                let i = choose|i: int| 0 <= i < d.len() && #[trigger] d[i] != 0;
                assert(c[i + 1] == d[i]);
            }
            if let Some(h) = first_nonzero(c) {
                let i = choose|i: int| 0 <= i < d.len() && #[trigger] d[i] == h && forall|j: int| 0 <= j < i ==> #[trigger] d[j] == 0;
                assert(c[i + 1] == h);
                assert forall|j: int| 0 <= j < i + 1 implies #[trigger] c[j] == 0 by {
                    if j > 0 { assert(c[j] == d[j - 1]); }
                }
            }
        } else {
            assert(c[0] != 0);
        }
    }
}

} // verus!
