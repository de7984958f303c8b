//! The error taxonomy of the library. Every failure names exactly one
//! condition on the caller's input; none is transient.

use vstd::prelude::*;

verus! {

/// An error resulting from one of this library's functions.
#[derive(Clone, Copy, Debug, PartialEq, Eq, Structural)]
pub enum TgaError {
    /// A bit depth that the image type does not allow, or a color whose
    /// depth differs from the depth the image was constructed with.
    InvalidPixelDepth,
    /// An image type code that is not one of the seven recognized codes.
    InvalidImageType,
    /// A buffer shorter than a header, or shorter than the total file size
    /// the header declares.
    InvalidSize,
    /// A pixel coordinate outside the declared width or height.
    InvalidCoordinate,
    /// A color variant whose shape the image type does not allow.
    InvalidColor,
}

} // verus!
