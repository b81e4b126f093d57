//! Screen frames: the device's 32-bit BGRA pixels turned into the stored
//! screenshot, a JPEG at half the screen's size.

use vstd::prelude::*;

verus! {

/// The RGB bytes of a BGRA buffer: each whole 4-byte pixel gives its red,
/// green and blue bytes (positions 2, 1, 0 of the pixel) and drops alpha; a
/// trailing partial pixel is ignored.
pub open spec fn rgb_of_bgra(p: Seq<u8>) -> Seq<u8> {
    Seq::new(((p.len() / 4) * 3) as nat, |i: int| p[(i / 3) * 4 + (2 - i % 3)])
}

proof fn lemma_index_split(k: int, j: int)
    requires
        0 <= k,
        0 <= j < 3,
    ensures
        (3 * k + j) / 3 == k,
        (3 * k + j) % 3 == j,
{
    assert((3 * k + j) / 3 == k && (3 * k + j) % 3 == j) by (nonlinear_arith)
        requires
            0 <= k,
            0 <= j < 3,
    ;
}

/// Convert BGRA pixels to packed RGB.
pub fn bgra_to_rgb(pixels: &[u8]) -> (r: Vec<u8>)
    ensures
        r@ == rgb_of_bgra(pixels@),
{
    let n: usize = pixels.len() / 4;
    let mut out: Vec<u8> = Vec::new();
    let mut k: usize = 0;
    while k < n
        invariant
            n == pixels@.len() / 4,
            k <= n,
            out@.len() == 3 * k,
            forall|i: int| 0 <= i < 3 * k ==> out@[i] == #[trigger] rgb_of_bgra(pixels@)[i],
        decreases n - k,
    {
        assert(4 * k + 3 < pixels.len()) by (nonlinear_arith)
            requires
                k < n,
                n == pixels@.len() / 4,
        ;
        let base: usize = 4 * k;
        out.push(pixels[base + 2]);
        out.push(pixels[base + 1]);
        out.push(pixels[base]);
        proof {
            assert(3 * (k + 1) <= (pixels@.len() / 4) * 3) by (nonlinear_arith)
                requires
                    k < n,
                    n == pixels@.len() / 4,
            ;
            lemma_index_split(k as int, 0);
            lemma_index_split(k as int, 1);
            lemma_index_split(k as int, 2);
            assert forall|i: int| 0 <= i < 3 * (k + 1) implies out@[i] == #[trigger] rgb_of_bgra(pixels@)[i] by {
                if i >= 3 * k {
                    lemma_index_split(k as int, i - 3 * k);
                }
            }
        }
        k += 1;
    }
    proof {
        assert(out@ =~= rgb_of_bgra(pixels@));
    }
    out
}

/// What the image crate produces for packed RGB pixels of a
/// `width` x `height` frame scaled to `new_width` x `new_height` with the
/// triangle filter and encoded as JPEG, or `None` when the pixels do not fill
/// the frame or the encoder refuses the image.
pub uninterp spec fn resized_jpeg(rgb: Seq<u8>, width: u32, height: u32, new_width: u32, new_height: u32) -> Option<Seq<u8>>;

/// Builds the frame with image's `RgbImage::from_raw`, scales it with
/// `imageops::resize` (`FilterType::Triangle`) and encodes it with
/// `DynamicImage::write_to` (`ImageFormat::Jpeg`); the result is named
/// `resized_jpeg` of the arguments. The intermediate image buffers carry
/// nothing the library reads, so the three calls share one item.
#[verifier::external_body]
fn encode_resized_jpeg(rgb: Vec<u8>, width: u32, height: u32, new_width: u32, new_height: u32) -> (r: Option<Vec<u8>>)
    ensures
        match r {
            Some(v) => resized_jpeg(rgb@, width, height, new_width, new_height) == Some(v@),
            None => resized_jpeg(rgb@, width, height, new_width, new_height) is None,
        },
{
    let img = image::RgbImage::from_raw(width, height, rgb)?;
    let resized = image::imageops::resize(&img, new_width, new_height, image::imageops::FilterType::Triangle);
    let dynamic: image::DynamicImage = resized.into();
    let mut out = std::io::Cursor::new(Vec::new());
    dynamic.write_to(&mut out, image::ImageFormat::Jpeg).ok()?;
    Some(out.into_inner())
}

/// A captured BGRA frame as the stored screenshot: RGB, at half the width
/// and height (rounded down), JPEG-encoded; `None` when the pixels do not
/// fill the frame or encoding fails.
pub fn encode_bgra_frame(bgra: &[u8], width: u32, height: u32) -> (r: Option<Vec<u8>>)
    ensures
        match r {
            Some(v) => resized_jpeg(rgb_of_bgra(bgra@), width, height, width / 2, height / 2) == Some(v@),
            None => resized_jpeg(rgb_of_bgra(bgra@), width, height, width / 2, height / 2) is None,
        },
{
    let rgb = bgra_to_rgb(bgra);
    encode_resized_jpeg(rgb, width, height, width / 2, height / 2)
}

} // verus!
