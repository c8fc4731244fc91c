use framy::codec::read_orientation;
use framy::color::Color;
use framy::config::{Config, OutputFormat};
use framy::error::FrameError;
use framy::pipeline::process_image;

fn png_bytes(width: u32, height: u32, fill: [u8; 3]) -> Vec<u8> {
    let img = image::RgbImage::from_pixel(width, height, image::Rgb(fill));
    let mut cur = std::io::Cursor::new(Vec::new());
    img.write_to(&mut cur, image::ImageFormat::Png).unwrap();
    cur.into_inner()
}

fn config(padding: u32, size: u32, format: OutputFormat, color: Color) -> Config {
    Config { padding, size, outdir: String::from("./"), format, color }
}

#[test]
fn pipeline_landscape_scenario() {
    // 400 x 300 input, padding 32, size 1920, white border: the image is
    // resized to 1856 x 1392 and sits at offsets (32, 264); every pixel
    // outside [32, 1888) x [264, 1656) is pure white.
    let bytes = png_bytes(400, 300, [10, 20, 30]);
    let cfg = config(32, 1920, OutputFormat::Png, Color { r: 255, g: 255, b: 255 });
    let out = process_image(&bytes, &cfg).unwrap();
    let decoded = image::load_from_memory(&out).unwrap().to_rgb8();
    assert_eq!(decoded.dimensions(), (1920, 1920));
    let white = image::Rgb([255u8, 255, 255]);
    for &(x, y) in
        &[(0, 0), (31, 960), (1888, 960), (1919, 1919), (960, 263), (960, 1656), (31, 263)]
    {
        assert_eq!(*decoded.get_pixel(x, y), white, "border pixel at {} {}", x, y);
    }
    // inside the placed image the source shows through, not the border
    for &(x, y) in &[(32, 264), (960, 960), (1887, 1655)] {
        assert_ne!(*decoded.get_pixel(x, y), white, "image pixel at {} {}", x, y);
    }
}

#[test]
fn pipeline_is_deterministic() {
    let bytes = png_bytes(40, 30, [200, 150, 100]);
    let cfg = config(4, 64, OutputFormat::Png, Color { r: 0, g: 0, b: 0 });
    let first = process_image(&bytes, &cfg).unwrap();
    let second = process_image(&bytes, &cfg).unwrap();
    assert_eq!(first, second);
}

#[test]
fn pipeline_rejects_size_not_above_twice_padding() {
    let bytes = png_bytes(8, 8, [1, 2, 3]);
    let cfg = config(32, 64, OutputFormat::Png, Color { r: 255, g: 255, b: 255 });
    assert_eq!(process_image(&bytes, &cfg), Err(FrameError::InvalidConfiguration));
    let cfg = config(40, 64, OutputFormat::Png, Color { r: 255, g: 255, b: 255 });
    assert_eq!(process_image(&bytes, &cfg), Err(FrameError::InvalidConfiguration));
}

#[test]
fn pipeline_accepts_minimal_room() {
    // size 65 with padding 32 leaves a one-pixel edge and must succeed
    let bytes = png_bytes(8, 8, [1, 2, 3]);
    let cfg = config(32, 65, OutputFormat::Png, Color { r: 9, g: 9, b: 9 });
    let out = process_image(&bytes, &cfg).unwrap();
    let decoded = image::load_from_memory(&out).unwrap().to_rgb8();
    assert_eq!(decoded.dimensions(), (65, 65));
}

#[test]
fn pipeline_rejects_unreadable_bytes() {
    let cfg = config(2, 16, OutputFormat::Png, Color { r: 0, g: 0, b: 0 });
    assert_eq!(process_image(&[], &cfg), Err(FrameError::DecodeError));
    assert_eq!(process_image(b"not an image at all", &cfg), Err(FrameError::DecodeError));
    // a truncated file is corrupt
    let mut bytes = png_bytes(16, 16, [5, 5, 5]);
    bytes.truncate(bytes.len() / 2);
    assert_eq!(process_image(&bytes, &cfg), Err(FrameError::DecodeError));
}

#[test]
fn pipeline_encodes_every_format() {
    let bytes = png_bytes(6, 4, [120, 90, 60]);
    for format in [
        OutputFormat::Png,
        OutputFormat::Jpg,
        OutputFormat::Jpeg,
        OutputFormat::Gif,
        OutputFormat::Webp,
        OutputFormat::Tiff,
    ] {
        let cfg = config(2, 16, format, Color { r: 255, g: 255, b: 255 });
        let out = process_image(&bytes, &cfg).unwrap();
        let decoded = image::load_from_memory(&out).unwrap();
        assert_eq!(image::GenericImageView::dimensions(&decoded), (16, 16));
    }
}

/// A minimal TIFF container holding one orientation field.
fn tiff_with_orientation(tag_value: u16) -> Vec<u8> {
    let mut b: Vec<u8> = Vec::new();
    b.extend_from_slice(b"II*\x00");
    b.extend_from_slice(&8u32.to_le_bytes()); // offset of the first IFD
    b.extend_from_slice(&1u16.to_le_bytes()); // one entry
    b.extend_from_slice(&0x0112u16.to_le_bytes()); // orientation tag
    b.extend_from_slice(&3u16.to_le_bytes()); // type SHORT
    b.extend_from_slice(&1u32.to_le_bytes()); // one value
    b.extend_from_slice(&tag_value.to_le_bytes());
    b.extend_from_slice(&[0, 0]); // value padding
    b.extend_from_slice(&0u32.to_le_bytes()); // no next IFD
    b
}

#[test]
fn orientation_read_from_metadata() {
    assert_eq!(read_orientation(&tiff_with_orientation(6)), 6);
    assert_eq!(read_orientation(&tiff_with_orientation(8)), 8);
    assert_eq!(read_orientation(&tiff_with_orientation(1)), 1);
}

#[test]
fn orientation_absence_degrades_to_upright() {
    // bytes with no metadata container at all
    assert_eq!(read_orientation(b""), 1);
    assert_eq!(read_orientation(b"plain text"), 1);
    // a real image without any EXIF data
    let bytes = png_bytes(4, 4, [1, 2, 3]);
    assert_eq!(read_orientation(&bytes), 1);
}
