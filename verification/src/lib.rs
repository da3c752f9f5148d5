//! Raster-image size reduction behind one parameter model and one
//! boundary-safe result protocol.
//!
//! The verified core is the dimension-resolution algorithm
//! ([`resize::compute_dimensions`]), the parameter and result marshalling
//! around every compression entry point, and the destination-buffer write
//! protocol. Per-format codecs (decoding, resampling, re-encoding) are
//! called through the `image` crate behind trusted wrappers.

pub mod codec;
pub mod compress;
pub mod error;
pub mod interface;
pub mod parameters;
pub mod resize;
