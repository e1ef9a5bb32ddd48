use ray_tracer::image::Image;
use ray_tracer::ppm::{encode_ppm, push_decimal, push_header, push_pixel, Pixel};

fn text(bytes: &[u8]) -> String {
    String::from_utf8(bytes.to_vec()).unwrap()
}

#[test]
fn decimal_digits() {
    for (n, s) in [(0usize, "0"), (7, "7"), (10, "10"), (255, "255"), (1200, "1200"), (usize::MAX, "18446744073709551615")] {
        let mut out = Vec::new();
        push_decimal(&mut out, n);
        assert_eq!(text(&out), s);
    }
}

#[test]
fn decimal_appends_after_existing_bytes() {
    let mut out = b"x=".to_vec();
    push_decimal(&mut out, 42);
    assert_eq!(text(&out), "x=42");
}

#[test]
fn header_names_size_and_range() {
    let mut out = Vec::new();
    push_header(&mut out, 1200, 675);
    assert_eq!(text(&out), "P3\n1200 675 255\n");
}

#[test]
fn pixel_line_has_three_channels() {
    let mut out = Vec::new();
    push_pixel(&mut out, Pixel { r: 0, g: 128, b: 255 });
    assert_eq!(text(&out), "0 128 255\n");
}

#[test]
fn encode_small_image() {
    let pixels = vec![Pixel { r: 255, g: 0, b: 0 }, Pixel { r: 1, g: 22, b: 203 }];
    let out = encode_ppm(2, 1, &pixels).unwrap();
    assert_eq!(text(&out), "P3\n2 1 255\n255 0 0\n1 22 203\n");
}

#[test]
fn encode_rejects_wrong_pixel_count() {
    let pixels = vec![Pixel { r: 1, g: 2, b: 3 }; 3];
    assert!(encode_ppm(2, 2, &pixels).is_none());
    assert!(encode_ppm(usize::MAX, 2, &pixels).is_none());
    assert!(encode_ppm(3, 1, &pixels).is_some());
}

#[test]
fn encode_empty_image() {
    let out = encode_ppm(0, 5, &Vec::new()).unwrap();
    assert_eq!(text(&out), "P3\n0 5 255\n");
}

#[test]
fn image_fills_rows_top_to_bottom_left_to_right() {
    let mut img = Image::new(3, 2).unwrap();
    let mut seen = Vec::new();
    let mut k: u8 = 0;
    while let Some((row, col)) = img.next_position() {
        seen.push((row, col));
        img.push(Pixel { r: k, g: 0, b: 0 });
        k += 1;
    }
    assert_eq!(seen, vec![(0, 0), (0, 1), (0, 2), (1, 0), (1, 1), (1, 2)]);
    assert!(img.is_complete());
    assert_eq!(img.pixel(1, 0), Some(Pixel { r: 3, g: 0, b: 0 }));
    assert_eq!(img.pixel(0, 2), Some(Pixel { r: 2, g: 0, b: 0 }));
    assert_eq!(img.pixel(2, 0), None);
    assert_eq!(img.pixel(0, 3), None);
}

#[test]
fn image_pixel_not_filled_yet() {
    let mut img = Image::new(2, 2).unwrap();
    img.push(Pixel { r: 9, g: 9, b: 9 });
    assert_eq!(img.pixel(0, 0), Some(Pixel { r: 9, g: 9, b: 9 }));
    assert_eq!(img.pixel(0, 1), None);
    assert!(!img.is_complete());
    assert!(img.to_ppm().is_none());
}

#[test]
fn image_encodes_once_complete() {
    let mut img = Image::new(1, 2).unwrap();
    img.push(Pixel { r: 10, g: 20, b: 30 });
    img.push(Pixel { r: 40, g: 50, b: 60 });
    assert_eq!((img.width(), img.height()), (1, 2));
    assert_eq!(text(&img.to_ppm().unwrap()), "P3\n1 2 255\n10 20 30\n40 50 60\n");
}

#[test]
fn image_size_must_fit() {
    assert!(Image::new(usize::MAX, 2).is_none());
    let empty = Image::new(0, 7).unwrap();
    assert!(empty.is_complete());
    assert_eq!(empty.next_position(), None);
}
