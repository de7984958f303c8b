//! The fixed 18-byte TGA header: its typed in-memory form, the codec between
//! that form and the on-disk byte layout (all multi-byte fields little
//! endian), and the derived pixel-region and file sizes.

use vstd::prelude::*;

use crate::error::TgaError;
use crate::image_type::code_has_type;
use crate::image_type::type_of_code;
use crate::image_type::TgaImageType;

verus! {

/// The size of a TGA header in bytes.
pub const HEADER_SIZE: usize = 18;

/// The low byte of a u16 in little-endian order.
pub open spec fn u16_lo(val: u16) -> u8 {
    (val % 256) as u8
}

/// The high byte of a u16 in little-endian order.
pub open spec fn u16_hi(val: u16) -> u8 {
    (val / 256) as u8
}

/// The u16 that two little-endian bytes denote.
pub open spec fn u16_of_le(lo: u8, hi: u8) -> u16 {
    (lo + 256 * hi) as u16
}

/// The number of bytes a pixel region takes: one pixel per grid cell, each
/// `bit_depth / 8` bytes.
#[verifier::inline]
pub open spec fn spec_image_size(width: u16, height: u16, bit_depth: u8) -> nat {
    width as nat * height as nat * (bit_depth as nat / 8)
}

/// The header for a TGA image file.
#[derive(Clone, Copy, Debug, PartialEq, Eq, Structural)]
pub struct TgaHeader {
    pub id_size: u8,
    pub has_color_map: bool,
    pub image_type: TgaImageType,
    pub color_map_first_index: u16,
    pub color_map_size: u16,
    pub color_map_bit_depth: u8,
    pub x_origin: u16,
    pub y_origin: u16,
    pub width: u16,
    pub height: u16,
    pub image_bit_depth: u8,
    pub descriptor: u8,
}

/// The exact 18-byte on-disk layout of a header.
pub open spec fn spec_header_bytes(h: TgaHeader) -> Seq<u8> {
    seq![
        h.id_size,
        if h.has_color_map { 1u8 } else { 0u8 },
        h.image_type.spec_code(),
        u16_lo(h.color_map_first_index),
        u16_hi(h.color_map_first_index),
        u16_lo(h.color_map_size),
        u16_hi(h.color_map_size),
        h.color_map_bit_depth,
        u16_lo(h.x_origin),
        u16_hi(h.x_origin),
        u16_lo(h.y_origin),
        u16_hi(h.y_origin),
        u16_lo(h.width),
        u16_hi(h.width),
        u16_lo(h.height),
        u16_hi(h.height),
        h.image_bit_depth,
        h.descriptor,
    ]
}

/// The header that 18 bytes with a recognized type code denote.
pub open spec fn spec_header_of_bytes(s: Seq<u8>) -> TgaHeader
    recommends
        s.len() == 18,
        code_has_type(s[2]),
{
    TgaHeader {
        id_size: s[0],
        has_color_map: s[1] != 0,
        image_type: type_of_code(s[2]),
        color_map_first_index: u16_of_le(s[3], s[4]),
        color_map_size: u16_of_le(s[5], s[6]),
        color_map_bit_depth: s[7],
        x_origin: u16_of_le(s[8], s[9]),
        y_origin: u16_of_le(s[10], s[11]),
        width: u16_of_le(s[12], s[13]),
        height: u16_of_le(s[14], s[15]),
        image_bit_depth: s[16],
        descriptor: s[17],
    }
}

impl TgaHeader {
    /// The number of bytes of this header's pixel region.
    #[verifier::inline]
    pub open spec fn spec_image_size(self) -> nat {
        spec_image_size(self.width, self.height, self.image_bit_depth)
    }

    /// The least number of bytes a file serializing this header can have:
    /// the header itself, the id region, the color-map region and the pixel
    /// region.
    #[verifier::inline]
    pub open spec fn spec_file_size(self) -> nat {
        18 + self.id_size as nat + self.color_map_size as nat + self.spec_image_size()
    }

    /// Tries to create a `TgaHeader` from the data in `buf`.
    ///
    /// # Errors
    /// If the type code in `buf` is not a valid image type, then returns
    /// `InvalidImageType` error.
    pub fn from_buf(buf: [u8; HEADER_SIZE]) -> (r: Result<TgaHeader, TgaError>)
        ensures
            r is Ok <==> code_has_type(buf@[2]),
            r matches Ok(h) ==> h == spec_header_of_bytes(buf@),
            r matches Err(e) ==> e == TgaError::InvalidImageType,
    {
        let image_type = match TgaImageType::from_u8(buf[2]) {
            Ok(t) => t,
            Err(e) => {
                return Err(e);
            },
        };
        Ok(
            TgaHeader {
                id_size: buf[0],
                has_color_map: buf[1] != 0,
                image_type,
                color_map_first_index: buf[3] as u16 + 256 * (buf[4] as u16),
                color_map_size: buf[5] as u16 + 256 * (buf[6] as u16),
                color_map_bit_depth: buf[7],
                x_origin: buf[8] as u16 + 256 * (buf[9] as u16),
                y_origin: buf[10] as u16 + 256 * (buf[11] as u16),
                width: buf[12] as u16 + 256 * (buf[13] as u16),
                height: buf[14] as u16 + 256 * (buf[15] as u16),
                image_bit_depth: buf[16],
                descriptor: buf[17],
            },
        )
    }

    /// Returns the size of the TGA image in bytes.
    ///
    /// Includes the header, color map, id, and pixel data.
    pub fn file_size(&self) -> (r: usize)
        requires
            self.spec_file_size() <= usize::MAX,
        ensures
            r == self.spec_file_size(),
    {
        HEADER_SIZE + self.id_size as usize + self.color_map_size as usize + self.image_size()
    }

    /// Returns the size of the TGA image pixel data in bytes.
    pub fn image_size(&self) -> (r: usize)
        requires
            self.spec_image_size() <= usize::MAX,
        ensures
            r == self.spec_image_size(),
    {
        image_size(self.width, self.height, self.image_bit_depth)
    }

    /// The file size as a `u64`, which any header's declared sizes fit.
    pub(crate) fn file_size_u64(&self) -> (r: u64)
        ensures
            r == self.spec_file_size(),
    {
        proof {
            let wi = self.width as int;
            let hi = self.height as int;
            let bd = self.image_bit_depth as int / 8;
            assert(0 <= wi * hi * bd <= 65535 * 65535 * 31 && 0 <= wi * hi <= 65535 * 65535)
                by (nonlinear_arith)
                requires
                    0 <= wi <= 65535,
                    0 <= hi <= 65535,
                    0 <= bd <= 31,
            ;
        }
        18u64 + self.id_size as u64 + self.color_map_size as u64 + self.width as u64
            * (self.height as u64) * ((self.image_bit_depth / 8) as u64)
    }

    /// Returns the header as a byte array.
    pub fn to_buf(&self) -> (r: [u8; HEADER_SIZE])
        ensures
            r@ == spec_header_bytes(*self),
    {
        let r: [u8; HEADER_SIZE] = [
            self.id_size,
            if self.has_color_map { 1 } else { 0 },
            self.image_type.to_u8(),
            (self.color_map_first_index % 256) as u8,
            (self.color_map_first_index / 256) as u8,
            (self.color_map_size % 256) as u8,
            (self.color_map_size / 256) as u8,
            self.color_map_bit_depth,
            (self.x_origin % 256) as u8,
            (self.x_origin / 256) as u8,
            (self.y_origin % 256) as u8,
            (self.y_origin / 256) as u8,
            (self.width % 256) as u8,
            (self.width / 256) as u8,
            (self.height % 256) as u8,
            (self.height / 256) as u8,
            self.image_bit_depth,
            self.descriptor,
        ];
        proof {
            assert(r@ =~= spec_header_bytes(*self));
        }
        r
    }
}

/// Round trip: decoding the encoding of any header gives the header back,
/// and the encoding always carries a recognized type code at offset 2.
pub proof fn lemma_header_round_trip(h: TgaHeader)
    ensures
        spec_header_bytes(h).len() == 18,
        code_has_type(spec_header_bytes(h)[2]),
        spec_header_of_bytes(spec_header_bytes(h)) == h,
{
    lemma_u16_le_round_trip(h.color_map_first_index);
    lemma_u16_le_round_trip(h.color_map_size);
    lemma_u16_le_round_trip(h.x_origin);
    lemma_u16_le_round_trip(h.y_origin);
    lemma_u16_le_round_trip(h.width);
    lemma_u16_le_round_trip(h.height);
}

/// A u16 is recovered exactly from its two little-endian bytes.
pub proof fn lemma_u16_le_round_trip(val: u16)
    ensures
        u16_of_le(u16_lo(val), u16_hi(val)) == val,
{
}

fn image_size(width: u16, height: u16, bit_depth: u8) -> (r: usize)
    requires
        spec_image_size(width, height, bit_depth) <= usize::MAX,
    ensures
        r == spec_image_size(width, height, bit_depth),
{
    proof {
        assert(width as int * (bit_depth as int / 8) * height as int == width as int
            * height as int * (bit_depth as int / 8)) by (nonlinear_arith);
        assert(width as int * (bit_depth as int / 8) <= 65535 * 31) by (nonlinear_arith)
            requires
                width <= 65535,
                0 <= bit_depth as int / 8 <= 31,
        ;
    }
    width as usize * (bit_depth as usize / 8) * height as usize
}

} // verus!
