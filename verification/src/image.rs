//! The live TGA image: one header plus three exclusively-owned byte regions
//! (id, color map, pixel data), with format-checked construction, decoding,
//! serialization, and bounds- and format-checked pixel writes.

use vstd::prelude::*;
use vstd::slice::slice_subrange;
use vstd::slice::slice_to_vec;

use crate::color::TgaColor;
use crate::error::TgaError;
use crate::header::lemma_header_round_trip;
use crate::header::spec_header_bytes;
use crate::header::spec_header_of_bytes;
use crate::header::spec_image_size;
use crate::header::TgaHeader;
use crate::header::HEADER_SIZE;
use crate::image_type::code_has_type;
use crate::image_type::TgaImageState;
use crate::image_type::TgaImageType;

verus! {

/// An interface for editing a TGA image file.
///
/// Image data is saved in memory when editing and can be serialized to or
/// decoded from a raw byte buffer. Provides functions for editing individual
/// pixels.
#[derive(Clone)]
pub struct TgaImage {
    pub header: TgaHeader,
    state: TgaImageState,
    id: Vec<u8>,
    color_map: Vec<u8>,
    data: Vec<u8>,
}

/// True iff decoding `s` as a whole TGA file succeeds: long enough for a
/// header, a recognized type code, long enough for every region the header
/// declares, and a bit depth the image type allows.
pub open spec fn spec_decode_ok(s: Seq<u8>) -> bool {
    let h = spec_header_of_bytes(s.subrange(0, 18));
    &&& s.len() >= 18
    &&& code_has_type(s[2])
    &&& s.len() >= h.spec_file_size()
    &&& h.image_type.spec_valid_depth(h.image_bit_depth)
}

/// The error decoding `s` fails with, by the first failing check.
pub open spec fn spec_decode_err(s: Seq<u8>) -> TgaError
    recommends
        !spec_decode_ok(s),
{
    if s.len() < 18 {
        TgaError::InvalidSize
    } else if !code_has_type(s[2]) {
        TgaError::InvalidImageType
    } else if s.len() < spec_header_of_bytes(s.subrange(0, 18)).spec_file_size() {
        TgaError::InvalidSize
    } else {
        TgaError::InvalidPixelDepth
    }
}

/// The exact bytes serializing an image: the encoded header, then the id,
/// color-map and pixel regions, contiguously with no padding.
pub open spec fn spec_encode(img: TgaImage) -> Seq<u8> {
    spec_header_bytes(img.spec_header()) + img.spec_id() + img.spec_color_map() + img.spec_data()
}

/// True iff writing `color` at `(x, y)` under header `h` succeeds: the
/// coordinate is inside the grid, the color's shape suits the image type,
/// and the color's depth both suits the type and equals the header's depth.
pub open spec fn spec_set_pixel_ok(h: TgaHeader, x: u16, y: u16, color: TgaColor) -> bool {
    &&& x < h.width
    &&& y < h.height
    &&& h.image_type.spec_valid_color(color)
    &&& h.image_type.spec_valid_depth(color.spec_bit_depth())
    &&& color.spec_bit_depth() == h.image_bit_depth
}

/// The error a failing pixel write reports, by the first failing check.
pub open spec fn spec_set_pixel_err(h: TgaHeader, x: u16, y: u16, color: TgaColor) -> TgaError
    recommends
        !spec_set_pixel_ok(h, x, y, color),
{
    if x >= h.width || y >= h.height {
        TgaError::InvalidCoordinate
    } else if !h.image_type.spec_valid_color(color) {
        TgaError::InvalidColor
    } else {
        TgaError::InvalidPixelDepth
    }
}

/// The byte offset of pixel `(x, y)` in the row-major pixel region.
pub open spec fn spec_pixel_start(h: TgaHeader, x: u16, y: u16) -> int {
    (x + y * h.width) * (h.image_bit_depth as int / 8)
}

impl TgaImage {
    /// The header of the image, as contracts speak of it.
    pub closed spec fn spec_header(&self) -> TgaHeader {
        self.header
    }

    /// The bytes of the id region.
    pub closed spec fn spec_id(&self) -> Seq<u8> {
        self.id@
    }

    /// The bytes of the color-map region, raw and uninterpreted.
    pub closed spec fn spec_color_map(&self) -> Seq<u8> {
        self.color_map@
    }

    /// The bytes of the pixel region, row major with no stride padding.
    pub closed spec fn spec_data(&self) -> Seq<u8> {
        self.data@
    }

    /// The in-memory state of the image.
    pub closed spec fn spec_state(&self) -> TgaImageState {
        self.state
    }

    /// Each region is exactly as long as the header declares it.
    pub open spec fn wf(&self) -> bool {
        &&& self.spec_id().len() == self.spec_header().id_size as nat
        &&& self.spec_color_map().len() == self.spec_header().color_map_size as nat
        &&& self.spec_data().len() == self.spec_header().spec_image_size()
    }

    /// Tries to create a new image with black pixels.
    ///
    /// # Errors
    /// If `bit_depth` is invalid for `image_type`, returns `InvalidPixelDepth` error.
    pub fn new(image_type: TgaImageType, width: u16, height: u16, bit_depth: u8) -> (r: Result<
        TgaImage,
        TgaError,
    >)
        requires
            spec_image_size(width, height, bit_depth) <= usize::MAX,
        ensures
            r is Ok <==> image_type.spec_valid_depth(bit_depth),
            r matches Ok(img) ==> {
                &&& img.wf()
                &&& img.spec_header() == (TgaHeader {
                    id_size: 0,
                    has_color_map: false,
                    image_type,
                    color_map_first_index: 0,
                    color_map_size: 0,
                    color_map_bit_depth: 0,
                    x_origin: 0,
                    y_origin: 0,
                    width,
                    height,
                    image_bit_depth: bit_depth,
                    descriptor: 0,
                })
                &&& img.spec_state() == TgaImageState::Uncompressed
                &&& img.spec_id() == Seq::<u8>::empty()
                &&& img.spec_color_map() == Seq::<u8>::empty()
                &&& img.spec_data().len() == spec_image_size(width, height, bit_depth)
                &&& (forall|i: int| 0 <= i < img.spec_data().len() ==> img.spec_data()[i] == 0)
            },
            r matches Err(e) ==> e == TgaError::InvalidPixelDepth,
    {
        // Ensure the pixel depth is valid
        if !image_type.valid_depth(bit_depth) {
            return Err(TgaError::InvalidPixelDepth);
        }
        // Create header
        let header = TgaHeader {
            id_size: 0,
            has_color_map: false,
            image_type,
            color_map_first_index: 0,
            color_map_size: 0,
            color_map_bit_depth: 0,
            x_origin: 0,
            y_origin: 0,
            width,
            height,
            image_bit_depth: bit_depth,
            descriptor: 0,
        };
        let size = header.image_size();
        Ok(
            TgaImage {
                header,
                state: TgaImageState::Uncompressed,
                id: Vec::new(),
                color_map: Vec::new(),
                data: zero_vec(size),
            },
        )
    }

    /// Tries to decode a TGA image from a complete file buffer. Each region
    /// is copied out of `buf`; the image keeps no reference into it.
    ///
    /// # Errors
    /// If the buffer is not large enough to contain a TGA header, returns
    /// `InvalidSize` error.
    ///
    /// If the header's type code is not recognized, returns
    /// `InvalidImageType` error.
    ///
    /// If the buffer is not large enough to contain the TGA image size read
    /// from the header, returns `InvalidSize` error.
    ///
    /// If the bit depth is invalid for the image type, returns
    /// `InvalidPixelDepth` error.
    pub fn decode_file(buf: &[u8]) -> (r: Result<TgaImage, TgaError>)
        ensures
            r is Ok <==> spec_decode_ok(buf@),
            r matches Err(e) ==> e == spec_decode_err(buf@),
            r matches Ok(img) ==> ({
                let h = spec_header_of_bytes(buf@.subrange(0, 18));
                let id_end = 18 + h.id_size as int;
                let cm_end = id_end + h.color_map_size as int;
                &&& img.wf()
                &&& img.spec_header() == h
                &&& img.spec_state() == TgaImageState::Uncompressed
                &&& img.spec_id() == buf@.subrange(18, id_end)
                &&& img.spec_color_map() == buf@.subrange(id_end, cm_end)
                &&& img.spec_data() == buf@.subrange(cm_end, cm_end + h.spec_image_size() as int)
            }),
    {
        if buf.len() < HEADER_SIZE {
            return Err(TgaError::InvalidSize);
        }
        // Copy header from the buffer
        let hbuf: [u8; HEADER_SIZE] = [
            buf[0],
            buf[1],
            buf[2],
            buf[3],
            buf[4],
            buf[5],
            buf[6],
            buf[7],
            buf[8],
            buf[9],
            buf[10],
            buf[11],
            buf[12],
            buf[13],
            buf[14],
            buf[15],
            buf[16],
            buf[17],
        ];
        proof {
            assert(hbuf@ =~= buf@.subrange(0, 18));
        }
        let header = match TgaHeader::from_buf(hbuf) {
            Ok(h) => h,
            Err(e) => {
                return Err(e);
            },
        };
        // Ensure the buffer is large enough to contain all data specified in
        // the header
        if (buf.len() as u64) < header.file_size_u64() {
            return Err(TgaError::InvalidSize);
        }
        // Ensure the pixel depth is valid
        if !header.image_type.valid_depth(header.image_bit_depth) {
            return Err(TgaError::InvalidPixelDepth);
        }
        // Copy image id, color map, and image data
        let id_size = header.id_size as usize;
        let cm_size = header.color_map_size as usize;
        let img_size = header.image_size();
        let mut idx = HEADER_SIZE;
        let id = slice_to_vec(slice_subrange(buf, idx, idx + id_size));
        idx += id_size;
        let color_map = slice_to_vec(slice_subrange(buf, idx, idx + cm_size));
        idx += cm_size;
        let data = slice_to_vec(slice_subrange(buf, idx, idx + img_size));
        Ok(TgaImage { header, state: TgaImageState::Uncompressed, id, color_map, data })
    }

    /// Tries to set the pixel at `(x, y)` to `color`, overwriting exactly
    /// that pixel's bytes and leaving every other byte untouched.
    ///
    /// # Errors
    /// If the coordinate lies outside the image's width or height, returns
    /// `InvalidCoordinate` error.
    ///
    /// If the color's shape is invalid for the image type, returns
    /// `InvalidColor` error.
    ///
    /// If the color's pixel depth is invalid for the image type, or differs
    /// from the depth the image was constructed with, returns
    /// `InvalidPixelDepth` error.
    pub fn set_pixel(&mut self, x: u16, y: u16, color: TgaColor) -> (r: Result<(), TgaError>)
        requires
            old(self).wf(),
        ensures
            final(self).wf(),
            final(self).spec_header() == old(self).spec_header(),
            final(self).spec_state() == old(self).spec_state(),
            final(self).spec_id() == old(self).spec_id(),
            final(self).spec_color_map() == old(self).spec_color_map(),
            final(self).spec_data().len() == old(self).spec_data().len(),
            r is Ok <==> spec_set_pixel_ok(old(self).spec_header(), x, y, color),
            r matches Err(e) ==> *final(self) == *old(self) && e == spec_set_pixel_err(
                old(self).spec_header(),
                x,
                y,
                color,
            ),
            r is Ok ==> ({
                let start = spec_pixel_start(old(self).spec_header(), x, y);
                forall|j: int|
                    0 <= j < old(self).spec_data().len() ==> final(self).spec_data()[j] == (
                    if start <= j < start + color.spec_byte_depth() {
                        color.spec_payload()[j - start]
                    } else {
                        old(self).spec_data()[j]
                    })
            }),
    {
        // Ensure that the pixel coordinate is valid for this image
        if self.header.width <= x || self.header.height <= y {
            return Err(TgaError::InvalidCoordinate);
        }
        // Ensure the color is valid for this image
        if !self.header.image_type.valid_color(color) {
            return Err(TgaError::InvalidColor);
        }
        // Ensure the color's pixel depth is valid for this image
        let bit_depth = color.bit_depth();
        if !self.header.image_type.valid_depth(bit_depth) || bit_depth
            != self.header.image_bit_depth {
            return Err(TgaError::InvalidPixelDepth);
        }
        // Set pixel to color
        let byte_depth = (bit_depth / 8) as usize;
        let w = self.header.width as usize;
        let len = self.data.len();
        proof {
            let xi = x as int;
            let yi = y as int;
            let wi = w as int;
            let hi = self.header.height as int;
            let bd = byte_depth as int;
            assert(self.header.image_bit_depth as int / 8 == bd);
            assert(len == wi * hi * bd);
            assert(0 <= yi * wi && yi * wi <= (xi + yi * wi) * bd && (xi + yi * wi) <= (xi + yi
                * wi) * bd && (xi + yi * wi) * bd + bd <= wi * hi * bd) by (nonlinear_arith)
                requires
                    0 <= xi,
                    0 <= yi,
                    xi < wi,
                    yi < hi,
                    1 <= bd,
            ;
        }
        let start = (x as usize + y as usize * w) * byte_depth;
        let src = color.as_slice();
        let mut i: usize = 0;
        while i < byte_depth
            invariant
                i <= byte_depth,
                byte_depth == color.spec_byte_depth(),
                src@ == color.spec_payload(),
                start + byte_depth <= self.data@.len(),
                self.data@.len() <= usize::MAX,
                self.header == old(self).header,
                self.state == old(self).state,
                self.id@ == old(self).id@,
                self.color_map@ == old(self).color_map@,
                self.data@.len() == old(self).data@.len(),
                forall|j: int|
                    0 <= j < self.data@.len() ==> self.data@[j] == (if start <= j < start + i {
                        src@[j - start]
                    } else {
                        old(self).data@[j]
                    }),
            decreases byte_depth - i,
        {
            let idx = start + i;
            self.data[idx] = src[i];
            i += 1;
        }
        Ok(())
    }

    /// Serializes the image into a buffer of exactly `file_size` bytes: the
    /// encoded header at offset 0, then the id, color-map and pixel bytes,
    /// contiguously with no padding.
    pub fn encode_file(&self) -> (r: Vec<u8>)
        requires
            self.wf(),
        ensures
            r@ == spec_encode(*self),
            r@.len() == self.spec_header().spec_file_size(),
    {
        let hbuf = self.header.to_buf();
        let mut out: Vec<u8> = Vec::new();
        let mut i: usize = 0;
        while i < HEADER_SIZE
            invariant
                i <= 18,
                hbuf@.len() == 18,
                hbuf@ == spec_header_bytes(self.header),
                out@ == spec_header_bytes(self.header).subrange(0, i as int),
            decreases 18 - i,
        {
            out.push(hbuf[i]);
            proof {
                assert(out@ =~= spec_header_bytes(self.header).subrange(0, i + 1));
            }
            i += 1;
        }
        proof {
            assert(out@ =~= spec_header_bytes(self.header));
        }
        append_bytes(&mut out, self.id.as_slice());
        append_bytes(&mut out, self.color_map.as_slice());
        append_bytes(&mut out, self.data.as_slice());
        proof {
            assert(out@ =~= spec_encode(*self));
        }
        out
    }
}

/// Round trip: the serialization of any well-formed image whose bit depth
/// its image type allows decodes successfully, back to the same header and
/// the same id, color-map and pixel bytes.
pub proof fn lemma_image_round_trip(img: TgaImage)
    requires
        img.wf(),
        img.spec_header().image_type.spec_valid_depth(img.spec_header().image_bit_depth),
    ensures
        spec_decode_ok(spec_encode(img)),
        spec_encode(img).len() == img.spec_header().spec_file_size(),
        spec_header_of_bytes(spec_encode(img).subrange(0, 18)) == img.spec_header(),
        spec_encode(img).subrange(18, 18 + img.spec_header().id_size as int) == img.spec_id(),
        spec_encode(img).subrange(
            18 + img.spec_header().id_size as int,
            18 + img.spec_header().id_size as int + img.spec_header().color_map_size as int,
        ) == img.spec_color_map(),
        spec_encode(img).subrange(
            18 + img.spec_header().id_size as int + img.spec_header().color_map_size as int,
            18 + img.spec_header().id_size as int + img.spec_header().color_map_size as int
                + img.spec_header().spec_image_size() as int,
        ) == img.spec_data(),
{
    let s = spec_encode(img);
    let id_end = 18 + img.header.id_size as int;
    let cm_end = id_end + img.header.color_map_size as int;
    assert(s.subrange(0, 18) =~= spec_header_bytes(img.header));
    lemma_header_round_trip(img.header);
    assert(s.subrange(18, id_end) =~= img.spec_id());
    assert(s.subrange(id_end, cm_end) =~= img.spec_color_map());
    assert(s.subrange(cm_end, cm_end + img.header.spec_image_size() as int) =~= img.spec_data());
}

/// A vector of `n` zero bytes.
fn zero_vec(n: usize) -> (r: Vec<u8>)
    ensures
        r@.len() == n,
        forall|i: int| 0 <= i < n ==> r@[i] == 0,
{
    let mut v: Vec<u8> = Vec::new();
    while v.len() < n
        invariant
            v@.len() <= n,
            forall|i: int| 0 <= i < v@.len() ==> v@[i] == 0,
        decreases n - v@.len(),
    {
        v.push(0);
    }
    v
}

/// Appends every byte of `src` to `dst`, in order.
fn append_bytes(dst: &mut Vec<u8>, src: &[u8])
    ensures
        final(dst)@ == old(dst)@ + src@,
{
    let mut i: usize = 0;
    while i < src.len()
        invariant
            i <= src@.len(),
            dst@ == old(dst)@ + src@.subrange(0, i as int),
        decreases src@.len() - i,
    {
        dst.push(src[i]);
        proof {
            assert(dst@ =~= old(dst)@ + src@.subrange(0, i + 1));
        }
        i += 1;
    }
    proof {
        assert(dst@ =~= old(dst)@ + src@);
    }
}

} // verus!
