//! Low-quality image placeholders for an edge node: routing, canonical cache
//! keys, bounded resizing, ThumbHash encoding, the response that carries the
//! placeholder, and the state machine that ties them to the cache, the image
//! origin and the decoder its driver runs.

pub mod encode;
pub mod error;
pub mod pipeline;
pub mod raster;
pub mod resize;
pub mod response;
pub mod route;
pub mod session;
pub mod text;
