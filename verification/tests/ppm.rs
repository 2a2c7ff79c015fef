use tracer::ppm::{encode_header, encode_image, format_decimal};

#[test]
fn decimal_single_digits() {
    assert_eq!(format_decimal(0), b"0".to_vec());
    assert_eq!(format_decimal(7), b"7".to_vec());
    assert_eq!(format_decimal(9), b"9".to_vec());
}

#[test]
fn decimal_multiple_digits() {
    assert_eq!(format_decimal(10), b"10".to_vec());
    assert_eq!(format_decimal(255), b"255".to_vec());
    assert_eq!(format_decimal(4096), b"4096".to_vec());
    assert_eq!(format_decimal(1080), b"1080".to_vec());
}

#[test]
fn decimal_largest() {
    assert_eq!(format_decimal(u32::MAX), b"4294967295".to_vec());
}

#[test]
fn header_bytes() {
    assert_eq!(encode_header(600, 400), b"P6\n600 400\n255\n".to_vec());
    assert_eq!(encode_header(1, 1), b"P6\n1 1\n255\n".to_vec());
}

#[test]
fn image_single_pixel() {
    let pixels = vec![10u8, 20u8, 30u8];
    let image = encode_image(1, 1, &pixels);
    assert_eq!(image, b"P6\n1 1\n255\n\x0a\x14\x1e".to_vec());
}

#[test]
fn image_is_header_then_payload() {
    let pixels: Vec<u8> = (0..2 * 3 * 3).map(|b| b as u8).collect();
    let image = encode_image(2, 3, &pixels);
    let header = encode_header(2, 3);
    assert_eq!(&image[..header.len()], &header[..]);
    assert_eq!(&image[header.len()..], &pixels[..]);
}
