use rtga::TgaColor;
use rtga::TgaError;
use rtga::TgaImageType;

#[test]
fn color_depths_and_slices() {
    let g = TgaColor::Greyscale([9]);
    assert_eq!(g.byte_depth(), 1);
    assert_eq!(g.bit_depth(), 8);
    assert_eq!(g.as_slice(), &[9]);

    let c16 = TgaColor::RGB16([1, 2]);
    assert_eq!(c16.byte_depth(), 2);
    assert_eq!(c16.bit_depth(), 16);
    assert_eq!(c16.as_slice(), &[1, 2]);

    let c24 = TgaColor::RGB24([1, 2, 3]);
    assert_eq!(c24.byte_depth(), 3);
    assert_eq!(c24.bit_depth(), 24);
    assert_eq!(c24.as_slice(), &[1, 2, 3]);

    let c32 = TgaColor::RGBA([1, 2, 3, 4]);
    assert_eq!(c32.byte_depth(), 4);
    assert_eq!(c32.bit_depth(), 32);
    assert_eq!(c32.as_slice(), &[1, 2, 3, 4]);
}

#[test]
fn from_u8_recognizes_the_seven_codes() {
    assert_eq!(TgaImageType::from_u8(0), Ok(TgaImageType::NoImage));
    assert_eq!(TgaImageType::from_u8(1), Ok(TgaImageType::ColorMappedImage));
    assert_eq!(TgaImageType::from_u8(2), Ok(TgaImageType::TrueColorImage));
    assert_eq!(TgaImageType::from_u8(3), Ok(TgaImageType::BlackAndWhiteImage));
    assert_eq!(TgaImageType::from_u8(9), Ok(TgaImageType::RleColorMappedImage));
    assert_eq!(TgaImageType::from_u8(10), Ok(TgaImageType::RleTrueColorImage));
    assert_eq!(TgaImageType::from_u8(11), Ok(TgaImageType::RleBlackAndWhiteImage));
    for bad in [4u8, 5, 6, 7, 8, 12, 100, 255] {
        assert_eq!(TgaImageType::from_u8(bad), Err(TgaError::InvalidImageType));
    }
}

#[test]
fn to_u8_is_inverse_of_from_u8() {
    for code in [0u8, 1, 2, 3, 9, 10, 11] {
        let t = TgaImageType::from_u8(code).unwrap();
        assert_eq!(t.to_u8(), code);
    }
}

#[test]
fn valid_color_matrix() {
    let grey = TgaColor::Greyscale([0]);
    let rgb16 = TgaColor::RGB16([0, 0]);
    let rgb24 = TgaColor::RGB24([0, 0, 0]);
    let rgba = TgaColor::RGBA([0, 0, 0, 0]);

    assert!(!TgaImageType::NoImage.valid_color(grey));
    assert!(!TgaImageType::NoImage.valid_color(rgb24));

    for t in [
        TgaImageType::ColorMappedImage,
        TgaImageType::TrueColorImage,
        TgaImageType::RleColorMappedImage,
        TgaImageType::RleTrueColorImage,
    ] {
        assert!(!t.valid_color(grey));
        assert!(t.valid_color(rgb16));
        assert!(t.valid_color(rgb24));
        assert!(t.valid_color(rgba));
    }

    for t in [TgaImageType::BlackAndWhiteImage, TgaImageType::RleBlackAndWhiteImage] {
        assert!(t.valid_color(grey));
        assert!(!t.valid_color(rgb16));
        assert!(!t.valid_color(rgb24));
        assert!(!t.valid_color(rgba));
    }
}

#[test]
fn valid_depth_matrix() {
    assert!(TgaImageType::NoImage.valid_depth(0));
    assert!(!TgaImageType::NoImage.valid_depth(8));

    for t in [
        TgaImageType::ColorMappedImage,
        TgaImageType::TrueColorImage,
        TgaImageType::RleColorMappedImage,
        TgaImageType::RleTrueColorImage,
    ] {
        assert!(t.valid_depth(16));
        assert!(t.valid_depth(24));
        assert!(t.valid_depth(32));
        assert!(!t.valid_depth(0));
        assert!(!t.valid_depth(8));
        assert!(!t.valid_depth(15));
    }

    for t in [TgaImageType::BlackAndWhiteImage, TgaImageType::RleBlackAndWhiteImage] {
        assert!(t.valid_depth(8));
        assert!(!t.valid_depth(0));
        assert!(!t.valid_depth(16));
        assert!(!t.valid_depth(24));
        assert!(!t.valid_depth(32));
    }
}
