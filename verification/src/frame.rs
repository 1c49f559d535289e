//! Raw platform frames and the canonical decoded image.
//!
//! A [`RawFrame`] is an undecoded frame exactly as the capture resource
//! delivered it: a closed set of pixel encodings, each variant carrying the
//! declared width and height and an encoding-specific byte buffer.  An
//! [`Image`] is the canonical decoded form every decoder converges to:
//! packed RGBA8, row-major, no padding.

use vstd::prelude::*;

verus! {

/// The pixel encodings a raw frame may carry.  Only `Bgra` is fully
/// supported by the decoder; the others are recognised tags that the
/// decoder refuses rather than silently reinterpreting their bytes.
#[derive(Clone, Copy, Debug, PartialEq, Eq, Structural)]
pub enum PixelEncoding {
    /// Four bytes per pixel, (B, G, R, A) byte order.
    Bgra,
    /// Four bytes per pixel, (R, G, B, A) byte order.
    Rgba,
    /// Three bytes per pixel, (R, G, B) byte order.
    Rgb,
    /// Four bytes per pixel, (R, G, B) and a padding byte.
    Rgbx,
    /// Four bytes per pixel, a padding byte then (B, G, R).
    Xbgr,
    /// Four bytes per pixel, (B, G, R) and a padding byte.
    Bgrx,
    /// Four bytes per pixel, (B, G, R) and a zero byte.
    Bgr0,
    /// Planar YUV: a luminance plane followed by chrominance data.
    YuvPlanar,
    /// Semi-planar YUV: a luminance plane and an interleaved chroma plane.
    YuvSemiPlanar,
}

/// An undecoded frame as delivered by the capture resource, tagged by pixel
/// encoding.  Each variant carries its declared width and height and a byte
/// buffer whose layout is specific to the encoding; the declared dimensions
/// are not trusted and are checked against the buffer length on decode.
#[derive(Clone, Debug, PartialEq, Eq)]
pub enum RawFrame {
    /// A frame whose buffer holds (B, G, R, A) quadruples, row-major.
    Bgra { width: u32, height: u32, data: Vec<u8> },
    /// A frame whose buffer holds (R, G, B, A) quadruples, row-major.
    Rgba { width: u32, height: u32, data: Vec<u8> },
    /// A frame whose buffer holds (R, G, B) triples, row-major.
    Rgb { width: u32, height: u32, data: Vec<u8> },
    /// A frame whose buffer holds (R, G, B, padding) quadruples.
    Rgbx { width: u32, height: u32, data: Vec<u8> },
    /// A frame whose buffer holds (padding, B, G, R) quadruples.
    Xbgr { width: u32, height: u32, data: Vec<u8> },
    /// A frame whose buffer holds (B, G, R, padding) quadruples.
    Bgrx { width: u32, height: u32, data: Vec<u8> },
    /// A frame whose buffer holds (B, G, R, zero) quadruples.
    Bgr0 { width: u32, height: u32, data: Vec<u8> },
    /// A planar YUV frame.
    YuvPlanar { width: u32, height: u32, data: Vec<u8> },
    /// A semi-planar YUV frame.
    YuvSemiPlanar { width: u32, height: u32, data: Vec<u8> },
}

impl RawFrame {
    /// The encoding tag of this frame.
    pub open spec fn encoding_spec(&self) -> PixelEncoding {
        match *self {
            RawFrame::Bgra { .. } => PixelEncoding::Bgra,
            RawFrame::Rgba { .. } => PixelEncoding::Rgba,
            RawFrame::Rgb { .. } => PixelEncoding::Rgb,
            RawFrame::Rgbx { .. } => PixelEncoding::Rgbx,
            RawFrame::Xbgr { .. } => PixelEncoding::Xbgr,
            RawFrame::Bgrx { .. } => PixelEncoding::Bgrx,
            RawFrame::Bgr0 { .. } => PixelEncoding::Bgr0,
            RawFrame::YuvPlanar { .. } => PixelEncoding::YuvPlanar,
            RawFrame::YuvSemiPlanar { .. } => PixelEncoding::YuvSemiPlanar,
        }
    }

    /// The encoding tag of this frame.
    pub fn encoding(&self) -> (e: PixelEncoding)
        ensures
            e == self.encoding_spec(),
    {
        match *self {
            RawFrame::Bgra { .. } => PixelEncoding::Bgra,
            RawFrame::Rgba { .. } => PixelEncoding::Rgba,
            RawFrame::Rgb { .. } => PixelEncoding::Rgb,
            RawFrame::Rgbx { .. } => PixelEncoding::Rgbx,
            RawFrame::Xbgr { .. } => PixelEncoding::Xbgr,
            RawFrame::Bgrx { .. } => PixelEncoding::Bgrx,
            RawFrame::Bgr0 { .. } => PixelEncoding::Bgr0,
            RawFrame::YuvPlanar { .. } => PixelEncoding::YuvPlanar,
            RawFrame::YuvSemiPlanar { .. } => PixelEncoding::YuvSemiPlanar,
        }
    }
}

/// The canonical decoded image: `width * height` pixels of packed RGBA8,
/// row-major with no padding, so the buffer length is exactly
/// `width * height * 4`.
#[derive(Clone, Debug, PartialEq, Eq)]
pub struct Image {
    pub width: u32,
    pub height: u32,
    pub data: Vec<u8>,
}

impl Image {
    /// Well-formedness: the buffer holds exactly four bytes per declared
    /// pixel.  The decoder never emits a partially filled buffer.
    pub open spec fn wf(&self) -> bool {
        self.data@.len() == 4 * (self.width as int) * (self.height as int)
    }

    /// The (R, G, B, A) bytes of the pixel at column `x`, row `y`, as the
    /// four consecutive buffer bytes at offset `(y * width + x) * 4`.
    pub open spec fn pixel(&self, x: int, y: int) -> (u8, u8, u8, u8) {
        let i = 4 * (y * (self.width as int) + x);
        (self.data@[i], self.data@[i + 1], self.data@[i + 2], self.data@[i + 3])
    }

    /// Read the (R, G, B, A) bytes of the pixel at column `x`, row `y`.
    pub fn pixel_at(&self, x: u32, y: u32) -> (p: (u8, u8, u8, u8))
        requires
            self.wf(),
            x < self.width,
            y < self.height,
        ensures
            p == self.pixel(x as int, y as int),
    {
        proof {
            assert(0 <= 4 * ((y as int) * (self.width as int) + (x as int)) && 4 * ((y as int)
                * (self.width as int) + (x as int)) + 3 < 4 * (self.width as int) * (self.height
                as int)) by (nonlinear_arith)
                requires
                    0 <= (x as int) < (self.width as int),
                    0 <= (y as int) < (self.height as int),
            ;
        }
        let _total: usize = self.data.len();
        let i: usize = 4 * ((y as usize) * (self.width as usize) + (x as usize));
        (self.data[i], self.data[i + 1], self.data[i + 2], self.data[i + 3])
    }
}

} // verus!
