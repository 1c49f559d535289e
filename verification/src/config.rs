//! Capture configuration: the options the capture resource is built with.
//!
//! A [`CaptureConfig`] is immutable once the capture resource has been built
//! from it; the resource owns it for the rest of the process.

use vstd::prelude::*;
use crate::frame::PixelEncoding;

verus! {

/// Desired output resolution: either a well-known tag or explicit dimensions.
#[derive(Clone, Copy, Debug, PartialEq, Eq, Structural)]
pub enum OutputResolution {
    /// Whatever the captured display natively provides.
    Native,
    /// 1280 x 720.
    Hd720,
    /// 1920 x 1080.
    Hd1080,
    /// 2560 x 1440.
    Qhd1440,
    /// 3840 x 2160.
    Uhd2160,
    /// Explicit output dimensions in pixels.
    Explicit { width: u32, height: u32 },
}

/// A crop rectangle: origin and size, in pixels of the captured display.
#[derive(Clone, Copy, Debug, PartialEq, Eq, Structural)]
pub struct CropArea {
    pub x: u32,
    pub y: u32,
    pub width: u32,
    pub height: u32,
}

/// Options the capture resource is configured with, fixed at build time.
#[derive(Clone, Debug, PartialEq)]
pub struct CaptureConfig {
    /// Frames per second the resource produces; 1 for still capture.
    pub fps: u32,
    /// Identifier of the display to capture; absent means the primary display.
    pub target: Option<u64>,
    /// Whether the cursor is drawn into captured frames.
    pub show_cursor: bool,
    /// Whether the platform's capture highlight is drawn.
    pub show_highlight: bool,
    /// Identifiers of windows or displays excluded from capture, if any.
    pub excluded_targets: Option<Vec<u64>>,
    /// The pixel encoding frames are requested in.
    pub output_encoding: PixelEncoding,
    /// The resolution frames are requested in.
    pub output_resolution: OutputResolution,
    /// Optional crop rectangle applied to each frame.
    pub crop_area: Option<CropArea>,
    /// Optional platform-specific capture backend selector.
    pub backend: Option<String>,
}

impl Default for CaptureConfig {
    /// The still-capture configuration: one frame per second from the primary
    /// display, no cursor or highlight, nothing excluded, BGRA frames at
    /// 1920 x 1080, no crop, the platform's default backend.
    fn default() -> (c: Self)
        ensures
            c.fps == 1,
            c.target is None,
            !c.show_cursor,
            !c.show_highlight,
            c.excluded_targets is None,
            c.output_encoding == PixelEncoding::Bgra,
            c.output_resolution == OutputResolution::Hd1080,
            c.crop_area is None,
            c.backend is None,
    {
        CaptureConfig {
            fps: 1,
            target: None,
            show_cursor: false,
            show_highlight: false,
            excluded_targets: None,
            output_encoding: PixelEncoding::Bgra,
            output_resolution: OutputResolution::Hd1080,
            crop_area: None,
            backend: None,
        }
    }
}

} // verus!
