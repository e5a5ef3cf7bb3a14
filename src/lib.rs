//! Decoding of the EXIF/TIFF metadata block carried by image files.
//!
//! The block is a chain of offset-addressed image file directories (IFDs).
//! Every read is bounds-checked against the segment, nesting is bounded and
//! each directory either decodes or reports a typed error; an error below the
//! first directory skips that subtree and is kept as a warning.
pub mod bytes;
pub mod format;
pub mod catalog;
pub mod model;
pub mod walker;
pub mod laws;
pub mod keyed;

pub use catalog::{ExifTag, GpsBlock, GpsTag, Rtype, TagCategory};
pub use format::{ExifValue, FMT};
pub use keyed::{entry_names, key_order};
pub use model::ExifError;
pub use walker::{ExifBlock, ExifEntry, ExifNode};
