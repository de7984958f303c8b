use rtga::TgaColor;
use rtga::TgaError;
use rtga::TgaImage;
use rtga::TgaImageType;
use rtga::HEADER_SIZE;

#[test]
fn write_blank() -> Result<(), TgaError> {
    // Create blank image
    let image = TgaImage::new(TgaImageType::TrueColorImage, 1920, 1080, 24)?;

    // Serialize image
    let _ = image.encode_file();

    // Create blank image
    let mut image = TgaImage::new(TgaImageType::TrueColorImage, 25, 25, 24)?;

    // Set first pixel to red
    image.set_pixel(0, 0, TgaColor::RGB24([0, 0, 255]))?;

    // Serialize image
    let _ = image.encode_file();

    Ok(())
}

#[test]
fn new_truecolor_is_zero_filled() {
    let img = TgaImage::new(TgaImageType::TrueColorImage, 100, 50, 24).unwrap();
    assert_eq!(img.header.width, 100);
    assert_eq!(img.header.height, 50);
    assert_eq!(img.header.image_bit_depth, 24);
    assert_eq!(img.header.id_size, 0);
    assert!(!img.header.has_color_map);
    let bytes = img.encode_file();
    assert_eq!(bytes.len(), HEADER_SIZE + 100 * 50 * 3);
    assert!(bytes[HEADER_SIZE..].iter().all(|b| *b == 0));
}

#[test]
fn new_black_and_white_rejects_24_bits() {
    let r = TgaImage::new(TgaImageType::BlackAndWhiteImage, 100, 50, 24);
    assert!(matches!(r, Err(TgaError::InvalidPixelDepth)));
}

#[test]
fn new_rejects_depths_off_the_matrix() {
    assert!(matches!(
        TgaImage::new(TgaImageType::TrueColorImage, 10, 10, 8),
        Err(TgaError::InvalidPixelDepth)
    ));
    assert!(matches!(
        TgaImage::new(TgaImageType::NoImage, 10, 10, 8),
        Err(TgaError::InvalidPixelDepth)
    ));
    assert!(TgaImage::new(TgaImageType::NoImage, 10, 10, 0).is_ok());
    assert!(TgaImage::new(TgaImageType::BlackAndWhiteImage, 10, 10, 8).is_ok());
    assert!(TgaImage::new(TgaImageType::RleTrueColorImage, 10, 10, 32).is_ok());
}

#[test]
fn set_pixel_writes_exactly_one_pixel() {
    let mut img = TgaImage::new(TgaImageType::TrueColorImage, 25, 25, 24).unwrap();
    let r = img.set_pixel(0, 0, TgaColor::RGB24([0, 0, 255]));
    assert_eq!(r, Ok(()));
    let bytes = img.encode_file();
    assert_eq!(&bytes[HEADER_SIZE..HEADER_SIZE + 3], &[0, 0, 255]);
    assert!(bytes[HEADER_SIZE + 3..].iter().all(|b| *b == 0));
}

#[test]
fn set_pixel_row_major_offset() {
    let mut img = TgaImage::new(TgaImageType::TrueColorImage, 4, 3, 24).unwrap();
    img.set_pixel(2, 1, TgaColor::RGB24([7, 8, 9])).unwrap();
    let bytes = img.encode_file();
    let start = HEADER_SIZE + (2 + 1 * 4) * 3;
    assert!(bytes[HEADER_SIZE..start].iter().all(|b| *b == 0));
    assert_eq!(&bytes[start..start + 3], &[7, 8, 9]);
    assert!(bytes[start + 3..].iter().all(|b| *b == 0));
}

#[test]
fn set_pixel_out_of_bounds_leaves_buffer_unmodified() {
    let mut img = TgaImage::new(TgaImageType::TrueColorImage, 25, 25, 24).unwrap();
    img.set_pixel(3, 3, TgaColor::RGB24([1, 2, 3])).unwrap();
    let before = img.encode_file();
    assert_eq!(img.set_pixel(25, 25, TgaColor::RGB24([1, 2, 3])), Err(TgaError::InvalidCoordinate));
    assert_eq!(img.set_pixel(25, 0, TgaColor::RGB24([1, 2, 3])), Err(TgaError::InvalidCoordinate));
    assert_eq!(img.set_pixel(0, 25, TgaColor::RGB24([1, 2, 3])), Err(TgaError::InvalidCoordinate));
    assert_eq!(img.encode_file(), before);
}

#[test]
fn set_pixel_greyscale_on_truecolor_is_invalid_color() {
    let mut img = TgaImage::new(TgaImageType::TrueColorImage, 25, 25, 24).unwrap();
    let before = img.encode_file();
    assert_eq!(img.set_pixel(0, 0, TgaColor::Greyscale([5])), Err(TgaError::InvalidColor));
    assert_eq!(img.encode_file(), before);
}

#[test]
fn set_pixel_depth_must_match_image_depth() {
    let mut img = TgaImage::new(TgaImageType::TrueColorImage, 25, 25, 24).unwrap();
    let before = img.encode_file();
    // RGB16 is a valid shape and depth for TrueColor, but not this image's depth
    assert_eq!(img.set_pixel(0, 0, TgaColor::RGB16([1, 2])), Err(TgaError::InvalidPixelDepth));
    assert_eq!(img.encode_file(), before);
}

#[test]
fn set_pixel_greyscale_image() {
    let mut img = TgaImage::new(TgaImageType::BlackAndWhiteImage, 3, 2, 8).unwrap();
    img.set_pixel(2, 1, TgaColor::Greyscale([77])).unwrap();
    let bytes = img.encode_file();
    assert_eq!(&bytes[HEADER_SIZE..], &[0, 0, 0, 0, 0, 77]);
}

#[test]
fn encode_then_decode_round_trips() {
    let mut img = TgaImage::new(TgaImageType::TrueColorImage, 25, 25, 24).unwrap();
    img.set_pixel(0, 0, TgaColor::RGB24([0, 0, 255])).unwrap();
    img.set_pixel(24, 24, TgaColor::RGB24([10, 20, 30])).unwrap();
    let bytes = img.encode_file();
    let back = TgaImage::decode_file(&bytes).unwrap();
    assert_eq!(back.header, img.header);
    // identical regions serialize to identical bytes
    assert_eq!(back.encode_file(), bytes);
}

#[test]
fn decode_file_with_id_and_color_map_regions() {
    // Hand-built file: 2 id bytes, 3 color-map bytes, one 24-bit pixel
    let mut file: Vec<u8> = vec![
        2, // id_size
        1, // has_color_map
        2, // TrueColorImage
        0, 0, // color_map_first_index
        3, 0, // color_map_size
        24, // color_map_bit_depth
        0, 0, // x_origin
        0, 0, // y_origin
        1, 0, // width
        1, 0, // height
        24, // image_bit_depth
        0, // descriptor
    ];
    file.extend_from_slice(&[0xAA, 0xBB]); // id
    file.extend_from_slice(&[1, 2, 3]); // color map
    file.extend_from_slice(&[40, 50, 60]); // pixel data
    let img = TgaImage::decode_file(&file).unwrap();
    assert_eq!(img.header.id_size, 2);
    assert!(img.header.has_color_map);
    assert_eq!(img.header.color_map_size, 3);
    assert_eq!(img.header.width, 1);
    assert_eq!(img.header.height, 1);
    assert_eq!(img.encode_file(), file);
}

#[test]
fn decode_file_ignores_trailing_bytes() {
    let img = TgaImage::new(TgaImageType::BlackAndWhiteImage, 2, 2, 8).unwrap();
    let mut bytes = img.encode_file();
    let exact = bytes.clone();
    bytes.extend_from_slice(&[9, 9, 9]);
    let back = TgaImage::decode_file(&bytes).unwrap();
    assert_eq!(back.encode_file(), exact);
}

#[test]
fn decode_file_short_buffer_is_invalid_size() {
    let r = TgaImage::decode_file(&[0u8; 10]);
    assert!(matches!(r, Err(TgaError::InvalidSize)));
}

#[test]
fn decode_file_truncated_payload_is_invalid_size() {
    let img = TgaImage::new(TgaImageType::TrueColorImage, 4, 4, 24).unwrap();
    let bytes = img.encode_file();
    // valid 18-byte header, but the pixel payload is cut short
    let r = TgaImage::decode_file(&bytes[..bytes.len() - 1]);
    assert!(matches!(r, Err(TgaError::InvalidSize)));
    let r = TgaImage::decode_file(&bytes[..HEADER_SIZE]);
    assert!(matches!(r, Err(TgaError::InvalidSize)));
}

#[test]
fn decode_file_unknown_type_code_is_invalid_image_type() {
    let img = TgaImage::new(TgaImageType::TrueColorImage, 4, 4, 24).unwrap();
    let mut bytes = img.encode_file();
    bytes[2] = 5;
    let r = TgaImage::decode_file(&bytes);
    assert!(matches!(r, Err(TgaError::InvalidImageType)));
}

#[test]
fn decode_file_bad_depth_is_invalid_pixel_depth() {
    let img = TgaImage::new(TgaImageType::TrueColorImage, 2, 2, 24).unwrap();
    let mut bytes = img.encode_file();
    // depth 8 is not allowed for TrueColor; the file stays long enough
    bytes[16] = 8;
    let r = TgaImage::decode_file(&bytes);
    assert!(matches!(r, Err(TgaError::InvalidPixelDepth)));
}

#[test]
fn end_to_end_full_hd() {
    let img = TgaImage::new(TgaImageType::TrueColorImage, 1920, 1080, 24).unwrap();
    let bytes = img.encode_file();
    assert_eq!(bytes.len(), 18 + 1920 * 1080 * 3);
    let back = TgaImage::decode_file(&bytes).unwrap();
    assert_eq!(back.header.width, 1920);
    assert_eq!(back.header.height, 1080);
    assert_eq!(back.header.image_bit_depth, 24);
    assert_eq!(back.header.image_type, TgaImageType::TrueColorImage);
    assert_eq!(back.header.file_size(), 18 + 1920 * 1080 * 3);
    assert_eq!(back.encode_file(), bytes);
}
