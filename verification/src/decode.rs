//! Frame decoder: converts a tagged raw frame into the canonical RGBA image.
//!
//! Only the BGRA encoding is fully supported: each (B, G, R, A) quadruple is
//! re-emitted as (R, G, B, A) at the same pixel position — a pure, per-pixel,
//! order-preserving channel permutation with no colour-space conversion and
//! no resampling.  Any other tag is refused, and declared dimensions that do
//! not match the buffer length are refused rather than read out of bounds.

use vstd::prelude::*;
use crate::frame::{Image, PixelEncoding, RawFrame};

verus! {

/// A structured decode failure; the raw frame is consumed either way.
#[derive(Clone, Copy, Debug, PartialEq, Eq, Structural)]
pub enum DecodeError {
    /// The frame's encoding tag is one the decoder does not support.
    UnsupportedEncoding { tag: PixelEncoding },
    /// The declared width * height * 4 does not equal the buffer length.
    DimensionMismatch,
}

/// The BGRA-to-RGBA channel permutation on a whole buffer: within every
/// aligned four-byte group the first and third bytes trade places and the
/// other two stay, so (B, G, R, A) becomes (R, G, B, A).
pub open spec fn swizzle_bgra_to_rgba(src: Seq<u8>) -> Seq<u8> {
    Seq::new(
        src.len(),
        |i: int|
            if i % 4 == 0 {
                src[i + 2]
            } else if i % 4 == 2 {
                src[i - 2]
            } else {
                src[i]
            },
    )
}

/// Exactly what [`decode`] returns for a given frame: for a BGRA frame whose
/// buffer length equals width * height * 4, the swizzled image with the
/// frame's dimensions; for a BGRA frame of any other buffer length, a
/// dimension mismatch; for every other tag, an unsupported-encoding failure
/// naming that tag — never a silent reinterpretation.
pub open spec fn decode_post(frame: RawFrame, r: Result<Image, DecodeError>) -> bool {
    match frame {
        RawFrame::Bgra { width, height, data } => {
            if data.len() == 4 * (width as int) * (height as int) {
                r matches Ok(img) && img.width == width && img.height == height && img.data@
                    == swizzle_bgra_to_rgba(data@)
            } else {
                r == Err::<Image, DecodeError>(DecodeError::DimensionMismatch)
            }
        },
        _ => r == Err::<Image, DecodeError>(
            DecodeError::UnsupportedEncoding { tag: frame.encoding_spec() },
        ),
    }
}

/// Decode a raw frame into the canonical RGBA image.
///
/// Pure and deterministic: the result is a function of the frame alone, and
/// on success the image is well-formed and carries the frame's dimensions.
pub fn decode(frame: RawFrame) -> (r: Result<Image, DecodeError>)
    ensures
        decode_post(frame, r),
        r matches Ok(img) ==> img.wf(),
{
    match frame {
        RawFrame::Bgra { width, height, data } => decode_bgra(width, height, data),
        other => Err(DecodeError::UnsupportedEncoding { tag: other.encoding() }),
    }
}

/// Decode the BGRA case: check the declared dimensions against the buffer
/// length, then emit the channel permutation pixel by pixel.
fn decode_bgra(width: u32, height: u32, data: Vec<u8>) -> (r: Result<Image, DecodeError>)
    ensures
        decode_post(RawFrame::Bgra { width, height, data }, r),
        r matches Ok(img) ==> img.wf(),
{
    proof {
        assert((width as int) * (height as int) <= 0xffff_ffff * 0xffff_ffff)
            by (nonlinear_arith)
            requires
                width <= 0xffff_ffffu32,
                height <= 0xffff_ffffu32,
        ;
        assert(4 * ((width as int) * (height as int)) == 4 * (width as int) * (height as int))
            by (nonlinear_arith);
    }
    let px: u64 = (width as u64) * (height as u64);
    let need: u128 = 4u128 * (px as u128);
    if (data.len() as u128) != need {
        return Err(DecodeError::DimensionMismatch);
    }
    let total: usize = data.len();
    let pixels: usize = total / 4;
    let mut out: Vec<u8> = Vec::new();
    let mut p: usize = 0;
    while p < pixels
        invariant
            total == data@.len(),
            total == 4 * (width as int) * (height as int),
            4 * pixels == total,
            p <= pixels,
            out@.len() == 4 * p,
            forall|j: int| 0 <= j < out@.len() ==> out@[j] == swizzle_bgra_to_rgba(data@)[j],
        decreases pixels - p,
    {
        let i: usize = p * 4;
        let b = data[i];
        let g = data[i + 1];
        let red = data[i + 2];
        let a = data[i + 3];
        out.push(red);
        out.push(g);
        out.push(b);
        out.push(a);
        p = p + 1;
    }
    proof {
        assert(out@ =~= swizzle_bgra_to_rgba(data@));
    }
    Ok(Image { width, height, data: out })
}

/// Decoder channel permutation, stated per pixel: an image decoded from a
/// BGRA buffer of size width * height * 4 holds, at every (x, y) in
/// [0, width) x [0, height), the (R, G, B, A) bytes of the source quadruple
/// (B, G, R, A) at offset (y * width + x) * 4.
pub proof fn lemma_decode_pixel(img: Image, src: Seq<u8>, x: int, y: int)
    requires
        img.data@ == swizzle_bgra_to_rgba(src),
        src.len() == 4 * (img.width as int) * (img.height as int),
        0 <= x < img.width as int,
        0 <= y < img.height as int,
    ensures
        ({
            let i = 4 * (y * (img.width as int) + x);
            img.pixel(x, y) == (src[i + 2], src[i + 1], src[i], src[i + 3])
        }),
{
    let w = img.width as int;
    let h = img.height as int;
    assert(0 <= 4 * (y * w + x) && 4 * (y * w + x) + 3 < 4 * w * h) by (nonlinear_arith)
        requires
            0 <= x < w,
            0 <= y < h,
    ;
}

} // verus!
