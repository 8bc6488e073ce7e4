use image_kit::metadata::{
    orientation_code, parse_exif_data, read_orientation, DEFAULT_ORIENTATION,
};

/// A big-endian TIFF structure with one IFD that holds one entry.
fn tiff_with_entry(tag: u16, kind: u16, count: u32, value: [u8; 4]) -> Vec<u8> {
    let mut tiff = vec![0x4d, 0x4d, 0x00, 0x2a, 0x00, 0x00, 0x00, 0x08];
    tiff.extend_from_slice(&[0x00, 0x01]);
    tiff.extend_from_slice(&tag.to_be_bytes());
    tiff.extend_from_slice(&kind.to_be_bytes());
    tiff.extend_from_slice(&count.to_be_bytes());
    tiff.extend_from_slice(&value);
    tiff.extend_from_slice(&[0x00, 0x00, 0x00, 0x00]);
    tiff
}

fn tiff_with_short_orientation(code: u16) -> Vec<u8> {
    let b = code.to_be_bytes();
    tiff_with_entry(0x0112, 3, 1, [b[0], b[1], 0, 0])
}

/// A JPEG file that holds nothing but an EXIF segment.
fn jpeg_with_exif(tiff: &[u8]) -> Vec<u8> {
    let mut jpeg = vec![0xff, 0xd8, 0xff, 0xe1];
    jpeg.extend_from_slice(&((tiff.len() + 8) as u16).to_be_bytes());
    jpeg.extend_from_slice(b"Exif\0\0");
    jpeg.extend_from_slice(tiff);
    jpeg.extend_from_slice(&[0xff, 0xd9]);
    jpeg
}

fn png_without_exif() -> Vec<u8> {
    let img = image::DynamicImage::ImageRgb8(image::RgbImage::from_pixel(
        2,
        2,
        image::Rgb([1, 2, 3]),
    ));
    let mut bytes = Vec::new();
    img.write_to(&mut std::io::Cursor::new(&mut bytes), image::ImageFormat::Png).unwrap();
    bytes
}

fn pair(name: &str, value: &str) -> [String; 2] {
    [name.to_string(), value.to_string()]
}

#[test]
fn default_orientation_is_one() {
    assert_eq!(DEFAULT_ORIENTATION, 1);
}

#[test]
fn orientation_code_of_a_value() {
    assert_eq!(orientation_code(None), 1);
    for v in 0..=9u32 {
        assert_eq!(orientation_code(Some(v)), v as u16);
    }
    assert_eq!(orientation_code(Some(65535)), 65535);
}

#[test]
fn orientation_code_is_cut_to_sixteen_bits() {
    assert_eq!(orientation_code(Some(65536)), 0);
    assert_eq!(orientation_code(Some(65536 + 6)), 6);
    assert_eq!(orientation_code(Some(u32::MAX)), 65535);
}

#[test]
fn orientation_without_exif_segment_is_one() {
    assert_eq!(read_orientation(&png_without_exif()), 1);
    assert_eq!(read_orientation(&[0xff, 0xd8, 0xff, 0xd9]), 1);
    assert_eq!(read_orientation(b"not an image"), 1);
    assert_eq!(read_orientation(&[]), 1);
}

#[test]
fn orientation_with_corrupted_exif_segment_is_one() {
    assert_eq!(read_orientation(&jpeg_with_exif(b"garbage, not a TIFF structure")), 1);
    let mut truncated = tiff_with_short_orientation(6);
    truncated.truncate(14);
    assert_eq!(read_orientation(&jpeg_with_exif(&truncated)), 1);
    assert_eq!(read_orientation(&truncated), 1);
}

#[test]
fn orientation_without_orientation_tag_is_one() {
    let tiff = tiff_with_entry(0x0100, 3, 1, [0, 17, 0, 0]);
    assert_eq!(read_orientation(&tiff), 1);
    assert_eq!(read_orientation(&jpeg_with_exif(&tiff)), 1);
}

#[test]
fn orientation_that_is_no_unsigned_integer_is_one() {
    let ascii = tiff_with_entry(0x0112, 2, 2, [b'6', 0, 0, 0]);
    assert_eq!(read_orientation(&ascii), 1);
    let signed = tiff_with_entry(0x0112, 8, 1, [0, 6, 0, 0]);
    assert_eq!(read_orientation(&signed), 1);
    let no_values = tiff_with_entry(0x0112, 3, 0, [0, 0, 0, 0]);
    assert_eq!(read_orientation(&no_values), 1);
}

#[test]
fn orientation_is_read_from_tiff_and_jpeg() {
    for code in 1..=8u16 {
        let tiff = tiff_with_short_orientation(code);
        assert_eq!(read_orientation(&tiff), code);
        assert_eq!(read_orientation(&jpeg_with_exif(&tiff)), code);
    }
}

#[test]
fn orientation_outside_the_defined_codes_is_passed_on() {
    assert_eq!(read_orientation(&tiff_with_short_orientation(0)), 0);
    assert_eq!(read_orientation(&tiff_with_short_orientation(9)), 9);
    assert_eq!(read_orientation(&tiff_with_short_orientation(65535)), 65535);
}

#[test]
fn orientation_of_byte_and_long_values() {
    let byte = tiff_with_entry(0x0112, 1, 1, [3, 0, 0, 0]);
    assert_eq!(read_orientation(&byte), 3);
    let long = tiff_with_entry(0x0112, 4, 1, [0, 0, 0, 8]);
    assert_eq!(read_orientation(&long), 8);
    let wide = tiff_with_entry(0x0112, 4, 1, [0, 1, 0, 6]);
    assert_eq!(read_orientation(&wide), 6);
}

#[test]
fn orientation_takes_the_first_of_several_values() {
    let two = tiff_with_entry(0x0112, 3, 2, [0, 5, 0, 7]);
    assert_eq!(read_orientation(&two), 5);
}

#[test]
fn tags_of_exif_free_bytes_report_the_failure() {
    let tags = parse_exif_data(b"not an image");
    assert_eq!(tags.len(), 1);
    assert_eq!(tags[0][0], "Failed to read EXIF data");
    assert_eq!(tags, vec![pair("Failed to read EXIF data", "Unknown image format")]);
}

#[test]
fn tags_of_a_png_without_exif_report_the_failure() {
    let tags = parse_exif_data(&png_without_exif());
    assert_eq!(tags, vec![pair("Failed to read EXIF data", "No Exif data found in PNG")]);
    let tags = parse_exif_data(&[0xff, 0xd8, 0xff, 0xd9]);
    assert_eq!(tags, vec![pair("Failed to read EXIF data", "No Exif data found in JPEG")]);
}

#[test]
fn tags_of_a_corrupted_segment_report_the_failure() {
    let tags = parse_exif_data(&jpeg_with_exif(b"garbage, not a TIFF structure"));
    assert_eq!(tags.len(), 1);
    assert_eq!(tags[0][0], "Failed to read EXIF data");
    assert!(!tags[0][1].is_empty());
}

#[test]
fn tags_are_name_and_display_value() {
    let tags = parse_exif_data(&tiff_with_short_orientation(6));
    assert_eq!(tags, vec![pair("Orientation", "row 0 at right and column 0 at top")]);
    let tags = parse_exif_data(&jpeg_with_exif(&tiff_with_short_orientation(1)));
    assert_eq!(tags, vec![pair("Orientation", "row 0 at top and column 0 at left")]);
}

#[test]
fn tag_values_carry_their_unit() {
    let tags = parse_exif_data(&tiff_with_entry(0x0100, 3, 1, [0, 17, 0, 0]));
    assert_eq!(tags, vec![pair("ImageWidth", "17 pixels")]);
}

#[test]
fn tags_come_in_the_order_of_the_fields() {
    let mut tiff = vec![0x4d, 0x4d, 0x00, 0x2a, 0x00, 0x00, 0x00, 0x08, 0x00, 0x03];
    tiff.extend_from_slice(&[0x01, 0x00, 0x00, 0x03, 0, 0, 0, 1, 0, 17, 0, 0]);
    tiff.extend_from_slice(&[0x01, 0x01, 0x00, 0x03, 0, 0, 0, 1, 0, 9, 0, 0]);
    tiff.extend_from_slice(&[0x01, 0x12, 0x00, 0x03, 0, 0, 0, 1, 0, 3, 0, 0]);
    tiff.extend_from_slice(&[0, 0, 0, 0]);
    let tags = parse_exif_data(&tiff);
    assert_eq!(
        tags,
        vec![
            pair("ImageWidth", "17 pixels"),
            pair("ImageLength", "9 pixels"),
            pair("Orientation", "row 0 at bottom and column 0 at right"),
        ]
    );
    assert_eq!(read_orientation(&tiff), 3);
}
