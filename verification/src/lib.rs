//! Planning core of a glyph-atlas text renderer.
//!
//! The crate decides what a GPU text pipeline has to do each frame: where a
//! rasterized glyph bitmap goes in the atlas texture, when the atlas has to
//! grow and to which size, when the instance buffer has to be reallocated,
//! and what the draw call looks like. It owns no GPU resource; the caller
//! carries out the returned commands.

pub mod brush;
pub mod cache;
pub mod error;
pub mod pipeline;
pub mod vertex;

pub use brush::{Processed, Step, TextBrush};
pub use error::BrushError;
