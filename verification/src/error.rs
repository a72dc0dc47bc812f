//! Why loading a file into a texture can fail.

use vstd::prelude::*;
use crate::texture::{Dimensionality, TextureFormat};

verus! {

/// Why a texture could not be made from the data at hand.
#[derive(Debug, PartialEq, Eq)]
pub enum TextureFault {
    /// No texture of this format has this dimensionality.
    UnsupportedLayout { format: TextureFormat, dimensionality: Dimensionality },
    /// The data is not of the kind that the format and dimensionality consume.
    WrongData,
    /// The rendering backend refused the texture; its diagnostic is kept.
    Backend(String),
}

/// A failed load. A file shorter than the bytes asked for is not among them.
#[derive(Debug, PartialEq, Eq)]
pub enum LoadError {
    /// The file could not be opened or read; the system's message is kept.
    Io(String),
    /// The texture could not be created.
    TextureCreation(TextureFault),
}

} // verus!
