//! The closed set of TGA image types and the compatibility matrix between an
//! image type, the color variants it accepts, and the bit depths it allows.

use vstd::prelude::*;

use crate::color::TgaColor;
use crate::error::TgaError;

verus! {

/// The possible types of a TGA image, each with its fixed on-disk code:
/// 0, 1, 2, 3, 9, 10 and 11 respectively.
#[derive(Clone, Copy, Debug, PartialEq, Eq, Structural)]
pub enum TgaImageType {
    NoImage,
    ColorMappedImage,
    TrueColorImage,
    BlackAndWhiteImage,
    RleColorMappedImage,
    RleTrueColorImage,
    RleBlackAndWhiteImage,
}

/// The current state of a TGA image in memory.
#[derive(Clone, Copy, Debug, PartialEq, Eq, Structural)]
pub enum TgaImageState {
    Uncompressed,
    ColorMapped,
    Rle,
}

/// True iff `val` is one of the seven recognized image type codes.
pub open spec fn code_has_type(val: u8) -> bool {
    val == 0 || val == 1 || val == 2 || val == 3 || val == 9 || val == 10 || val == 11
}

/// The image type a recognized code denotes.
pub open spec fn type_of_code(val: u8) -> TgaImageType
    recommends
        code_has_type(val),
{
    if val == 0 {
        TgaImageType::NoImage
    } else if val == 1 {
        TgaImageType::ColorMappedImage
    } else if val == 2 {
        TgaImageType::TrueColorImage
    } else if val == 3 {
        TgaImageType::BlackAndWhiteImage
    } else if val == 9 {
        TgaImageType::RleColorMappedImage
    } else if val == 10 {
        TgaImageType::RleTrueColorImage
    } else {
        TgaImageType::RleBlackAndWhiteImage
    }
}

impl TgaImageType {
    /// The fixed on-disk code of this image type.
    pub open spec fn spec_code(self) -> u8 {
        match self {
            TgaImageType::NoImage => 0,
            TgaImageType::ColorMappedImage => 1,
            TgaImageType::TrueColorImage => 2,
            TgaImageType::BlackAndWhiteImage => 3,
            TgaImageType::RleColorMappedImage => 9,
            TgaImageType::RleTrueColorImage => 10,
            TgaImageType::RleBlackAndWhiteImage => 11,
        }
    }

    /// True iff `color` has a shape the image type accepts: Greyscale only
    /// for the two black-and-white types, any non-Greyscale variant for the
    /// four color-mapped/true-color types, and nothing for NoImage.
    pub open spec fn spec_valid_color(self, color: TgaColor) -> bool {
        match self {
            TgaImageType::NoImage => false,
            TgaImageType::ColorMappedImage
            | TgaImageType::TrueColorImage
            | TgaImageType::RleColorMappedImage
            | TgaImageType::RleTrueColorImage => !(color is Greyscale),
            TgaImageType::BlackAndWhiteImage
            | TgaImageType::RleBlackAndWhiteImage => color is Greyscale,
        }
    }

    /// True iff `bit_depth` is in the set the image type allows: {0} for
    /// NoImage, {16, 24, 32} for the four color-mapped/true-color types,
    /// and {8} for the two black-and-white types.
    pub open spec fn spec_valid_depth(self, bit_depth: u8) -> bool {
        match self {
            TgaImageType::NoImage => bit_depth == 0,
            TgaImageType::ColorMappedImage
            | TgaImageType::TrueColorImage
            | TgaImageType::RleColorMappedImage
            | TgaImageType::RleTrueColorImage => bit_depth == 16 || bit_depth == 24
                || bit_depth == 32,
            TgaImageType::BlackAndWhiteImage
            | TgaImageType::RleBlackAndWhiteImage => bit_depth == 8,
        }
    }

    /// Tries to convert `val` to one of the possible `TgaImageType`s.
    ///
    /// # Errors
    /// If `val` is not a valid image type, then returns `InvalidImageType` error.
    pub fn from_u8(val: u8) -> (r: Result<TgaImageType, TgaError>)
        ensures
            r is Ok <==> code_has_type(val),
            r matches Ok(t) ==> t == type_of_code(val) && t.spec_code() == val,
            r matches Err(e) ==> e == TgaError::InvalidImageType,
    {
        match val {
            0 => Ok(TgaImageType::NoImage),
            1 => Ok(TgaImageType::ColorMappedImage),
            2 => Ok(TgaImageType::TrueColorImage),
            3 => Ok(TgaImageType::BlackAndWhiteImage),
            9 => Ok(TgaImageType::RleColorMappedImage),
            10 => Ok(TgaImageType::RleTrueColorImage),
            11 => Ok(TgaImageType::RleBlackAndWhiteImage),
            _ => Err(TgaError::InvalidImageType),
        }
    }

    /// Returns the image type's fixed on-disk code.
    pub fn to_u8(&self) -> (r: u8)
        ensures
            r == self.spec_code(),
    {
        match self {
            TgaImageType::NoImage => 0,
            TgaImageType::ColorMappedImage => 1,
            TgaImageType::TrueColorImage => 2,
            TgaImageType::BlackAndWhiteImage => 3,
            TgaImageType::RleColorMappedImage => 9,
            TgaImageType::RleTrueColorImage => 10,
            TgaImageType::RleBlackAndWhiteImage => 11,
        }
    }

    /// Returns true if `color` is in a valid format for the image type.
    pub fn valid_color(&self, color: TgaColor) -> (r: bool)
        ensures
            r == self.spec_valid_color(color),
    {
        match self {
            TgaImageType::NoImage => false,
            TgaImageType::ColorMappedImage
            | TgaImageType::TrueColorImage
            | TgaImageType::RleColorMappedImage
            | TgaImageType::RleTrueColorImage => match color {
                TgaColor::Greyscale(_) => false,
                _ => true,
            },
            TgaImageType::BlackAndWhiteImage
            | TgaImageType::RleBlackAndWhiteImage => match color {
                TgaColor::Greyscale(_) => true,
                _ => false,
            },
        }
    }

    /// Returns true if `bit_depth` is a valid bit depth for the image type.
    pub fn valid_depth(&self, bit_depth: u8) -> (r: bool)
        ensures
            r == self.spec_valid_depth(bit_depth),
    {
        match self {
            TgaImageType::NoImage => bit_depth == 0,
            TgaImageType::ColorMappedImage
            | TgaImageType::TrueColorImage
            | TgaImageType::RleColorMappedImage
            | TgaImageType::RleTrueColorImage => match bit_depth {
                16 | 24 | 32 => true,
                _ => false,
            },
            TgaImageType::BlackAndWhiteImage
            | TgaImageType::RleBlackAndWhiteImage => bit_depth == 8,
        }
    }
}

} // verus!
