//! A verified codec for the TGA (Truevision Graphics Adapter) raster image
//! format: an 18-byte header codec, an image-type/color/bit-depth validation
//! matrix, and a mutable pixel buffer with bounds- and format-checked writes.
//!
//! The library works purely on byte buffers; reading and writing files is
//! left to the caller.

pub mod color;
pub mod error;
pub mod header;
pub mod image;
pub mod image_type;

pub use color::TgaColor;
pub use error::TgaError;
pub use header::TgaHeader;
pub use header::HEADER_SIZE;
pub use image::TgaImage;
pub use image_type::TgaImageState;
pub use image_type::TgaImageType;
