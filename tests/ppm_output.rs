use raytrace::ppm::{header, pixel_line, pixel_position};

// Magic letter, format number 3 (plain text), size line, largest channel value.
fn plain_header(size: &str) -> Vec<u8> {
    format!("{}{}\n{}\n255\n", 'P', 3, size).into_bytes()
}

#[test]
fn header_of_image() {
    assert_eq!(header(400, 225), plain_header("400 225"));
    assert_eq!(header(1, 0), plain_header("1 0"));
    assert_eq!(header(65535, 10), plain_header("65535 10"));
}

#[test]
fn pixel_lines() {
    assert_eq!(pixel_line(255, 0, 7), b"255 0 7\n".to_vec());
    assert_eq!(pixel_line(10, 99, 100), b"10 99 100\n".to_vec());
    assert_eq!(pixel_line(0, 0, 0), b"0 0 0\n".to_vec());
}

#[test]
fn pixels_stream_from_top_row_down() {
    assert_eq!(pixel_position(0, 3, 2), (0, 1));
    assert_eq!(pixel_position(2, 3, 2), (2, 1));
    assert_eq!(pixel_position(3, 3, 2), (0, 0));
    assert_eq!(pixel_position(5, 3, 2), (2, 0));
    assert_eq!(pixel_position(0, 400, 225), (0, 224));
    assert_eq!(pixel_position(400 * 225 - 1, 400, 225), (399, 0));
}
