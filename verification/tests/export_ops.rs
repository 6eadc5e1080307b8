//! Tests for image export: formats, windows, subsampling and saturation.

use lightspot::canvas::Canvas;
use lightspot::encode::{EncoderError, ImageFormat, Window};
use lightspot::fixed::FX_ONE;
use lightspot::geometry::SpotShape;

const ONE: i64 = FX_ONE;

const ALL_FORMATS: [ImageFormat; 5] = [
    ImageFormat::RawGamma8Bpp,
    ImageFormat::RawLinear10BppLE,
    ImageFormat::RawLinear12BppLE,
    ImageFormat::PngGamma8Bpp,
    ImageFormat::PngLinear16Bpp,
];

fn decode_png(bytes: &[u8]) -> (u32, u32, png::BitDepth, Vec<u8>) {
    let decoder = png::Decoder::new(std::io::Cursor::new(bytes));
    let mut reader = decoder.read_info().unwrap();
    let mut buf = vec![0u8; reader.output_buffer_size().unwrap()];
    let info = reader.next_frame(&mut buf).unwrap();
    assert_eq!(info.color_type, png::ColorType::Grayscale);
    buf.truncate(info.buffer_size());
    (info.width, info.height, info.bit_depth, buf)
}

fn test_pattern() -> Canvas {
    let mut c = Canvas::new(64, 64);
    c.set_background(1000);
    let shape = SpotShape::default().scale(4 * ONE);
    let shape2 = shape.stretch(3 * ONE / 2, ONE / 2).rotate(45 * ONE);
    c.add_spot((20 * ONE + ONE / 2, 30 * ONE), shape, 9 * ONE / 10);
    c.add_spot((25 * ONE, 28 * ONE + ONE / 4), shape2, ONE / 2);
    c.clear();
    c.draw();
    c
}

#[test]
fn full_window_export_equals_plain_export() {
    let c = test_pattern();
    let full = Window::new(64, 64);
    for fmt in ALL_FORMATS {
        let plain = c.export_image(fmt).unwrap();
        let windowed = c.export_window_image(full, fmt).unwrap();
        assert_eq!(plain, windowed, "format {fmt:?}");
    }
}

#[test]
fn broken_window_error() {
    let c = Canvas::new(100, 100);
    let wnd = Window::new(20, 20).at(90, 90);
    for fmt in ALL_FORMATS {
        assert_eq!(
            c.export_window_image(wnd, fmt),
            Err(EncoderError::BrokenWindow),
            "format {fmt:?}"
        );
    }
}

#[test]
fn window_export_selects_region() {
    let c = test_pattern();
    let wnd = Window::new(8, 4).at(17, 28);
    let img = c.export_window_image(wnd, ImageFormat::RawGamma8Bpp).unwrap();
    assert_eq!(img.len(), 8 * 4);
    let plain = c.export_image(ImageFormat::RawGamma8Bpp).unwrap();
    for row in 0..4 {
        for col in 0..8 {
            assert_eq!(img[row * 8 + col], plain[(28 + row) * 64 + 17 + col]);
        }
    }
}

#[test]
fn subsampled_sample_counts() {
    let mut c = Canvas::new(256, 256);
    c.set_background(1000);
    c.clear();

    let raw8 = c.export_subsampled_image((2, 2), ImageFormat::RawGamma8Bpp).unwrap();
    assert_eq!(raw8.len(), 128 * 128);

    let raw10 = c.export_subsampled_image((2, 2), ImageFormat::RawLinear10BppLE).unwrap();
    assert_eq!(raw10.len(), 2 * 128 * 128);

    let raw12 = c.export_subsampled_image((2, 2), ImageFormat::RawLinear12BppLE).unwrap();
    assert_eq!(raw12.len(), 2 * 128 * 128);

    let png8 = c.export_subsampled_image((2, 2), ImageFormat::PngGamma8Bpp).unwrap();
    let (w8, h8, d8, s8) = decode_png(&png8);
    assert_eq!((w8, h8), (128, 128));
    assert_eq!(d8, png::BitDepth::Eight);
    assert_eq!(s8.len(), 128 * 128);

    let png16 = c.export_subsampled_image((2, 2), ImageFormat::PngLinear16Bpp).unwrap();
    let (w16, h16, d16, s16) = decode_png(&png16);
    assert_eq!((w16, h16), (128, 128));
    assert_eq!(d16, png::BitDepth::Sixteen);
    assert_eq!(s16.len(), 2 * 128 * 128);
}

#[test]
fn subsampling_rate_errors() {
    let c = Canvas::new(256, 256);
    for fmt in ALL_FORMATS {
        assert_eq!(
            c.export_subsampled_image((0, 1), fmt),
            Err(EncoderError::InvalidSubsamplingRate),
            "format {fmt:?}"
        );
    }
    assert_eq!(
        c.export_subsampled_image((1, 0), ImageFormat::RawGamma8Bpp),
        Err(EncoderError::InvalidSubsamplingRate)
    );
    // factors must divide the canvas dimensions evenly
    assert_eq!(
        c.export_subsampled_image((3, 2), ImageFormat::RawGamma8Bpp),
        Err(EncoderError::InvalidSubsamplingRate)
    );
    // factors producing a degenerate reduced image fail
    let tiny = Canvas::new(2, 2);
    assert_eq!(
        tiny.export_subsampled_image((4, 4), ImageFormat::RawGamma8Bpp),
        Err(EncoderError::InvalidSubsamplingRate)
    );
}

#[test]
fn subsampling_decimates_top_left() {
    let mut c = Canvas::new(8, 8);
    // a single lit pixel at an even coordinate survives (2, 2) decimation
    c.add_spot((4 * ONE, 6 * ONE), SpotShape::default(), ONE);
    c.clear();
    c.draw();
    let sub = c.export_subsampled_image((2, 2), ImageFormat::RawGamma8Bpp).unwrap();
    assert_eq!(sub.len(), 16);
    assert_eq!(sub[3 * 4 + 2], 255);
    assert_eq!(sub.iter().filter(|&&b| b != 0).count(), 1);
}

#[test]
fn cleared_canvas_reproduces_background() {
    let mut c = Canvas::new(16, 16);
    c.set_background(1000);
    c.clear();
    c.draw();

    let raw8 = c.export_image(ImageFormat::RawGamma8Bpp).unwrap();
    assert_eq!(raw8.len(), 256);
    assert!(raw8.iter().all(|&b| b == 31));

    let raw10 = c.export_image(ImageFormat::RawLinear10BppLE).unwrap();
    assert_eq!(raw10.len(), 512);
    for pair in raw10.chunks(2) {
        assert_eq!(pair, [16, 0]);
    }

    let raw12 = c.export_image(ImageFormat::RawLinear12BppLE).unwrap();
    for pair in raw12.chunks(2) {
        assert_eq!(pair, [62, 0]);
    }

    let png8 = c.export_image(ImageFormat::PngGamma8Bpp).unwrap();
    let (_, _, _, s8) = decode_png(&png8);
    assert!(s8.iter().all(|&b| b == 31));

    // the 16-bit linear export reproduces the background value exactly
    let png16 = c.export_image(ImageFormat::PngLinear16Bpp).unwrap();
    let (_, _, _, s16) = decode_png(&png16);
    for pair in s16.chunks(2) {
        let sample = u16::from_be_bytes([pair[0], pair[1]]);
        assert_eq!(sample, 1000);
    }
}

#[test]
fn saturated_spot_peaks_at_format_maximum() {
    let mut c = Canvas::new(64, 64);
    // canvas-center spot with intensity 1.1: the peak saturates to the
    // format's maximum sample value in every encoding
    let spot = c.add_spot((32 * ONE, 32 * ONE), SpotShape::default(), 1153434);
    assert_eq!(spot, 0);
    c.clear();
    c.draw();
    let peak = 32 * 64 + 32;

    let raw8 = c.export_image(ImageFormat::RawGamma8Bpp).unwrap();
    assert_eq!(raw8[peak], 255);

    let raw10 = c.export_image(ImageFormat::RawLinear10BppLE).unwrap();
    assert_eq!([raw10[2 * peak], raw10[2 * peak + 1]], [255, 3]);

    let raw12 = c.export_image(ImageFormat::RawLinear12BppLE).unwrap();
    assert_eq!([raw12[2 * peak], raw12[2 * peak + 1]], [255, 15]);

    let png8 = c.export_image(ImageFormat::PngGamma8Bpp).unwrap();
    let (_, _, _, s8) = decode_png(&png8);
    assert_eq!(s8[peak], 255);

    let png16 = c.export_image(ImageFormat::PngLinear16Bpp).unwrap();
    let (_, _, _, s16) = decode_png(&png16);
    assert_eq!(u16::from_be_bytes([s16[2 * peak], s16[2 * peak + 1]]), 65535);
}

#[test]
fn exact_full_intensity_also_saturates() {
    let mut c = Canvas::new(16, 16);
    c.add_spot((8 * ONE, 8 * ONE), SpotShape::default(), ONE);
    c.clear();
    c.draw();
    let raw8 = c.export_image(ImageFormat::RawGamma8Bpp).unwrap();
    assert_eq!(raw8[8 * 16 + 8], 255);
    let raw10 = c.export_image(ImageFormat::RawLinear10BppLE).unwrap();
    assert_eq!([raw10[2 * (8 * 16 + 8)], raw10[2 * (8 * 16 + 8) + 1]], [255, 3]);
}

#[test]
fn empty_canvas_exports() {
    let c = Canvas::new(0, 0);
    assert_eq!(c.export_image(ImageFormat::RawGamma8Bpp), Ok(Vec::new()));
    assert_eq!(c.export_image(ImageFormat::RawLinear10BppLE), Ok(Vec::new()));
    // the PNG container cannot hold an empty image
    assert_eq!(
        c.export_image(ImageFormat::PngGamma8Bpp),
        Err(EncoderError::NotImplemented)
    );
    assert_eq!(
        c.export_image(ImageFormat::PngLinear16Bpp),
        Err(EncoderError::NotImplemented)
    );
}

#[test]
fn png_wrapper_wraps_samples() {
    let c = test_pattern();
    let png16 = c.export_image(ImageFormat::PngLinear16Bpp).unwrap();
    // a real PNG container: signature present, bytes differ from the samples
    assert_eq!(&png16[..8], &[137, 80, 78, 71, 13, 10, 26, 10]);
    let (w, h, depth, samples) = decode_png(&png16);
    assert_eq!((w, h), (64, 64));
    assert_eq!(depth, png::BitDepth::Sixteen);
    assert_eq!(samples.len(), 2 * 64 * 64);
    // the background cells decode to the exact background pixel value
    let sample0 = u16::from_be_bytes([samples[0], samples[1]]);
    assert_eq!(sample0, 1000);
}

#[test]
fn empty_window_exports() {
    let c = Canvas::new(100, 100);
    let wnd = Window::new(0, 0).at(100, 100);
    // a zero-sized window at the far corner still lies inside the canvas
    assert_eq!(c.export_window_image(wnd, ImageFormat::RawGamma8Bpp), Ok(Vec::new()));
    assert_eq!(
        c.export_window_image(wnd, ImageFormat::PngLinear16Bpp),
        Err(EncoderError::NotImplemented)
    );
}
