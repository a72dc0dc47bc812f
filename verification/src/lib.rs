//! Turns the raw bytes of any file into texture-shaped data: a bounded byte
//! window, unit-interval samples, fixed-stride rows, and the description of the
//! texture they fill.

pub mod error;
pub mod grid;
pub mod pipeline;
pub mod sample;
pub mod texture;
pub mod window;
