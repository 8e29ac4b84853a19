//! Visual regression assertions: compare an image, or the first frame of an
//! H.264 elementary stream, against a stored baseline image.
//!
//! The library holds the decisions of an assertion; the caller performs the
//! file reads and writes, the decoding and the similarity scoring that the
//! decisions ask for.

pub mod raster;
pub mod mode;
pub mod decode;
pub mod artifact;
pub mod assertion;
