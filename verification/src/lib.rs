//! Safe encoding front end for the JPEGli C shim: configuration and image
//! validation, the mapping onto the shim's plain ABI values, and the
//! interpretation of what the shim hands back, all verified with Verus.

pub mod rules;
pub mod sys;
pub mod api;
pub mod laws;

pub use api::{ChromaSubsampling, Encoder, EncoderConfig, Error, ImageView, PixelFormat, map_sys_error};
