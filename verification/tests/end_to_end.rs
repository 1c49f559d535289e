//! End-to-end: a mocked capture resource yields a fixed 2x2 BGRA frame; the
//! session outcome is decoded and the canonical image is serialised to a
//! lossless still-image container and read back.

use std::io::Cursor;

use screensnap::frame::RawFrame;
use screensnap::session::{capture_once, CaptureOutcome, CaptureSession};

#[test]
fn fixed_frame_round_trips_through_a_png_file() {
    // [B0 G0 R0 A0, B1 G1 R1 A1, B2 G2 R2 A2, B3 G3 R3 A3]
    let raw: Vec<u8> = vec![
        100, 101, 102, 255, //
        110, 111, 112, 255, //
        120, 121, 122, 255, //
        130, 131, 132, 255,
    ];
    // The mocked resource: drive the bracket, then hand over the fixed frame.
    let mut session = CaptureSession::new();
    while !session.finished() {
        session.advance(true);
    }
    let frame = RawFrame::Bgra { width: 2, height: 2, data: raw };
    let image = match capture_once(Ok(frame)) {
        CaptureOutcome::Captured(image) => image,
        other => panic!("capture must succeed, got {:?}", other),
    };

    // The image sink: encode the canonical RGBA8 buffer as PNG.
    let buffer = image::RgbaImage::from_raw(image.width, image.height, image.data)
        .expect("canonical buffer has width * height * 4 bytes");
    let mut file_bytes: Vec<u8> = Vec::new();
    buffer
        .write_to(&mut Cursor::new(&mut file_bytes), image::ImageFormat::Png)
        .expect("encoding to memory cannot fail on a well-formed buffer");

    // Decode the file again and check every pixel is (R, G, B, A).
    let reloaded = image::load_from_memory(&file_bytes).unwrap().to_rgba8();
    assert_eq!(reloaded.width(), 2);
    assert_eq!(reloaded.height(), 2);
    let expected: [[u8; 4]; 4] = [
        [102, 101, 100, 255],
        [112, 111, 110, 255],
        [122, 121, 120, 255],
        [132, 131, 130, 255],
    ];
    let mut i = 0;
    for y in 0..2 {
        for x in 0..2 {
            assert_eq!(reloaded.get_pixel(x, y).0, expected[i], "pixel ({}, {})", x, y);
            i += 1;
        }
    }
}
