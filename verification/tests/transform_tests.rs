use framy::buffer::PixelBuffer;
use framy::color::Color;
use framy::compose::compose;
use framy::resize::resized_dims;

fn c(v: u8) -> Color {
    Color { r: v, g: v, b: v }
}

fn grid(width: u32, height: u32, values: Vec<u8>) -> PixelBuffer {
    let data: Vec<Color> = values.into_iter().map(c).collect();
    assert_eq!(data.len(), (width * height) as usize);
    PixelBuffer { width, height, data }
}

#[test]
fn rotate90_square() {
    let src = grid(2, 2, vec![1, 2, 3, 4]);
    let r = src.rotate90();
    assert_eq!((r.width, r.height), (2, 2));
    assert_eq!(r.data, vec![c(3), c(1), c(4), c(2)]);
}

#[test]
fn rotate180_square() {
    let src = grid(2, 2, vec![1, 2, 3, 4]);
    let r = src.rotate180();
    assert_eq!((r.width, r.height), (2, 2));
    assert_eq!(r.data, vec![c(4), c(3), c(2), c(1)]);
}

#[test]
fn rotate270_square() {
    let src = grid(2, 2, vec![1, 2, 3, 4]);
    let r = src.rotate270();
    assert_eq!((r.width, r.height), (2, 2));
    assert_eq!(r.data, vec![c(2), c(4), c(1), c(3)]);
}

#[test]
fn rotate90_swaps_dimensions() {
    let src = grid(3, 2, vec![1, 2, 3, 4, 5, 6]);
    let r = src.rotate90();
    assert_eq!((r.width, r.height), (2, 3));
    // first output row reads the first source column bottom-up
    assert_eq!(r.pixel(0, 0), c(4));
    assert_eq!(r.pixel(1, 0), c(1));
    assert_eq!(r.pixel(0, 2), c(6));
    assert_eq!(r.pixel(1, 2), c(3));
}

#[test]
fn rotation_round_trip_restores_buffer() {
    let src = grid(3, 2, vec![1, 2, 3, 4, 5, 6]);
    let back = src.rotate90().rotate270();
    assert_eq!(back, src);
}

#[test]
fn normalize_tag_eight_swaps_dimensions() {
    // A 1000 x 2000 source with orientation tag 8 normalizes to 2000 x 1000.
    let data = vec![c(7); 2_000_000];
    let src = PixelBuffer { width: 1000, height: 2000, data };
    let r = src.normalize(8);
    assert_eq!((r.width, r.height), (2000, 1000));
}

#[test]
fn normalize_other_tags_identity() {
    let src = grid(2, 2, vec![1, 2, 3, 4]);
    for tag in [0u32, 1, 2, 4, 5, 7, 9, 100] {
        let r = src.clone().normalize(tag);
        assert_eq!(r, src);
    }
    let turned = src.clone().normalize(6);
    assert_eq!(turned, src.rotate90());
}

#[test]
fn resized_dims_landscape_scenario() {
    // 400 x 300 at target 1856: width leads, height scales to 1392.
    assert_eq!(resized_dims(400, 300, 1856), (1856, 1392));
}

#[test]
fn resized_dims_portrait_and_square() {
    assert_eq!(resized_dims(300, 400, 100), (75, 100));
    assert_eq!(resized_dims(128, 128, 50), (50, 50));
}

#[test]
fn resized_dims_rounds_and_clamps() {
    // 3 x 2 at 100: 2 * 100 / 3 = 66.67 rounds to 67.
    assert_eq!(resized_dims(3, 2, 100), (100, 67));
    // an extreme sliver still keeps a one-pixel short edge
    assert_eq!(resized_dims(1000, 1, 10), (10, 1));
}

#[test]
fn compose_places_landscape_image() {
    let src = grid(2, 1, vec![9, 8]);
    let border = Color { r: 200, g: 100, b: 50 };
    let canvas = compose(&src, 1, 4, border);
    assert_eq!((canvas.width, canvas.height), (4, 4));
    // landscape: x offset is the padding, y offset centers: (4 - 1) / 2 = 1
    for y in 0..4u32 {
        for x in 0..4u32 {
            let expected = if y == 1 && x == 1 {
                c(9)
            } else if y == 1 && x == 2 {
                c(8)
            } else {
                border
            };
            assert_eq!(canvas.pixel(x, y), expected, "pixel at {} {}", x, y);
        }
    }
}

#[test]
fn compose_places_portrait_image() {
    let src = grid(1, 2, vec![9, 8]);
    let border = c(0);
    let canvas = compose(&src, 1, 4, border);
    // portrait: y offset is the padding, x offset centers: (4 - 1) / 2 = 1
    assert_eq!(canvas.pixel(1, 1), c(9));
    assert_eq!(canvas.pixel(1, 2), c(8));
    assert_eq!(canvas.pixel(0, 0), border);
    assert_eq!(canvas.pixel(3, 3), border);
    assert_eq!(canvas.pixel(2, 1), border);
}
