//! The color formats a TGA pixel can be written with. Each variant carries
//! its exact fixed-length byte payload, so a color's byte length always
//! equals its declared bit depth divided by eight.

use vstd::prelude::*;

verus! {

/// The color formats used in a TGA image.
#[derive(Clone, Copy, Debug)]
pub enum TgaColor {
    Greyscale([u8; 1]),
    RGB16([u8; 2]),
    RGB24([u8; 3]),
    RGBA([u8; 4]),
}

impl TgaColor {
    /// The raw bytes this color writes into the pixel region.
    pub open spec fn spec_payload(&self) -> Seq<u8> {
        match self {
            TgaColor::Greyscale(s) => s@,
            TgaColor::RGB16(s) => s@,
            TgaColor::RGB24(s) => s@,
            TgaColor::RGBA(s) => s@,
        }
    }

    /// The color's byte depth: the length of its payload.
    pub open spec fn spec_byte_depth(&self) -> u8 {
        match self {
            TgaColor::Greyscale(_) => 1,
            TgaColor::RGB16(_) => 2,
            TgaColor::RGB24(_) => 3,
            TgaColor::RGBA(_) => 4,
        }
    }

    /// The color's bit depth: eight bits for each payload byte.
    pub open spec fn spec_bit_depth(&self) -> u8 {
        (self.spec_byte_depth() * 8) as u8
    }

    /// Extracts a slice containing the color data.
    ///
    /// The length of the slice will be the same as the color's byte depth.
    pub fn as_slice(&self) -> (r: &[u8])
        ensures
            r@ == self.spec_payload(),
            r@.len() == self.spec_byte_depth(),
    {
        match self {
            TgaColor::Greyscale(s) => s.as_slice(),
            TgaColor::RGB16(s) => s.as_slice(),
            TgaColor::RGB24(s) => s.as_slice(),
            TgaColor::RGBA(s) => s.as_slice(),
        }
    }

    /// Returns the color's full bit depth.
    pub fn bit_depth(&self) -> (r: u8)
        ensures
            r == self.spec_bit_depth(),
    {
        self.byte_depth() * 8
    }

    /// Returns the color's full byte depth.
    pub fn byte_depth(&self) -> (r: u8)
        ensures
            r == self.spec_byte_depth(),
    {
        match self {
            TgaColor::Greyscale(_) => 1,
            TgaColor::RGB16(_) => 2,
            TgaColor::RGB24(_) => 3,
            TgaColor::RGBA(_) => 4,
        }
    }
}

} // verus!
