//! Face-session logic: geometry conversion between the detection engine and
//! the boundary, decoding of image buffers into RGB pixel matrices, the
//! session that owns one decoded image, and the lazily loaded model slots.
pub mod error;
pub mod geometry;
pub mod matrix;
pub mod session;
pub mod registry;
