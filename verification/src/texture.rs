//! What texture a buffer becomes: format, dimensionality and extent.

use vstd::prelude::*;
use vstd::arithmetic::div_mod::lemma_div_multiples_vanish;
use crate::error::{LoadError, TextureFault};
use crate::grid::{chunked, reshape, Grid, PixelGrid, Stride};
use crate::sample::{normalize, normalized, Sample, SampleBuffer, SampleMode, Samples};
use crate::window::{windowed, ByteWindow};

verus! {

/// The storage format of a texture.
#[derive(Clone, Copy, Debug, PartialEq, Eq, Structural)]
pub enum TextureFormat {
    /// Unsigned 8-bit RGBA, filled from raw bytes.
    Rgba8,
    /// 32-bit floating-point depth, filled from normalized samples.
    DepthF32,
}

/// The number of dimensions of a texture.
#[derive(Clone, Copy, Debug, PartialEq, Eq, Structural)]
pub enum Dimensionality {
    One,
    Two,
}

/// The extent of a texture as mathematical integers; a one-dimensional
/// texture has no height.
pub ghost struct Extent {
    pub width: nat,
    pub height: Option<nat>,
}

/// The texture that a buffer is to fill.
#[derive(Clone, Copy, Debug, PartialEq, Eq)]
pub struct TextureSpec {
    pub width: usize,
    pub height: Option<usize>,
    pub format: TextureFormat,
    pub dimensionality: Dimensionality,
}

impl TextureSpec {
    /// Width and height as mathematical integers.
    pub open spec fn extent(self) -> Extent {
        Extent {
            width: self.width as nat,
            height: match self.height {
                Some(height) => Some(height as nat),
                None => None,
            },
        }
    }
}

/// What a texture is built from, as mathematical sequences.
pub ghost enum Shape {
    Flat(Samples),
    Grid(Grid<Sample>),
}

/// What a texture is built from: a flat buffer, or rows of one length.
#[derive(Debug)]
pub enum TextureInput {
    Flat(SampleBuffer),
    Grid(PixelGrid<Sample>),
}

impl View for TextureInput {
    type V = Shape;

    open spec fn view(&self) -> Shape {
        match self {
            TextureInput::Flat(buffer) => Shape::Flat(buffer@),
            TextureInput::Grid(grid) => Shape::Grid(grid@),
        }
    }
}

/// A texture ready for the rendering backend: its description and the data
/// that fills it.
#[derive(Debug)]
pub struct TexturePlan {
    pub spec: TextureSpec,
    pub data: TextureInput,
}

impl TexturePlan {
    /// The description is the one that the data calls for.
    pub open spec fn consistent(self) -> bool {
        extent_of(self.data@, self.spec.format, self.spec.dimensionality) == Ok::<
            Extent,
            TextureFault,
        >(self.spec.extent())
    }
}

/// The extent of the texture that `shape` fills under `format` and
/// `dimensionality`, or why there is none.
///
/// * RGBA8 in one dimension takes raw bytes; its width is their count.
/// * Depth in one dimension takes normalized samples; its width is their
///   count.
/// * Depth in two dimensions takes a grid; its width is the stride, its height
///   the number of rows. A grid without rows gives a texture of height zero.
/// * RGBA8 in two dimensions is not offered.
pub open spec fn extent_of(
    shape: Shape,
    format: TextureFormat,
    dimensionality: Dimensionality,
) -> Result<Extent, TextureFault> {
    match (format, dimensionality) {
        (TextureFormat::Rgba8, Dimensionality::Two) => Err(
            TextureFault::UnsupportedLayout { format, dimensionality },
        ),
        (TextureFormat::Rgba8, Dimensionality::One) => match shape {
            Shape::Flat(Samples::Raw(bytes)) => Ok(Extent { width: bytes.len(), height: None }),
            _ => Err(TextureFault::WrongData),
        },
        (TextureFormat::DepthF32, Dimensionality::One) => match shape {
            Shape::Flat(Samples::Unit(samples)) => Ok(
                Extent { width: samples.len(), height: None },
            ),
            _ => Err(TextureFault::WrongData),
        },
        (TextureFormat::DepthF32, Dimensionality::Two) => match shape {
            Shape::Grid(grid) => Ok(Extent { width: grid.side, height: Some(grid.height()) }),
            _ => Err(TextureFault::WrongData),
        },
    }
}

/// `result` is what building a texture from `shape` gives: a plan that holds
/// the data unchanged beside its extent, format and dimensionality, or the
/// fault as a texture-creation error.
pub open spec fn built(
    result: Result<TexturePlan, LoadError>,
    shape: Shape,
    format: TextureFormat,
    dimensionality: Dimensionality,
) -> bool {
    match extent_of(shape, format, dimensionality) {
        Ok(extent) => {
            &&& result is Ok
            &&& result->Ok_0.consistent()
            &&& result->Ok_0.data@ == shape
            &&& result->Ok_0.spec.extent() == extent
            &&& result->Ok_0.spec.format == format
            &&& result->Ok_0.spec.dimensionality == dimensionality
        },
        Err(fault) => {
            &&& result is Err
            &&& result->Err_0 == LoadError::TextureCreation(fault)
        },
    }
}

/// Describes the texture that `input` fills under `format` and
/// `dimensionality`, and hands the data on unchanged. Data of the wrong kind,
/// or a layout that is not offered, is a texture-creation error. An empty
/// buffer or a grid without rows is no error: the texture is then empty.
pub fn build(input: TextureInput, format: TextureFormat, dimensionality: Dimensionality) -> (result:
    Result<TexturePlan, LoadError>)
    ensures
        built(result, input@, format, dimensionality),
{
    match (format, dimensionality) {
        (TextureFormat::Rgba8, Dimensionality::Two) => Err(
            LoadError::TextureCreation(TextureFault::UnsupportedLayout { format, dimensionality }),
        ),
        (TextureFormat::Rgba8, Dimensionality::One) => match input {
            TextureInput::Flat(SampleBuffer::Raw(bytes)) => {
                let spec = TextureSpec { width: bytes.len(), height: None, format, dimensionality };
                Ok(TexturePlan { spec, data: TextureInput::Flat(SampleBuffer::Raw(bytes)) })
            },
            _ => Err(LoadError::TextureCreation(TextureFault::WrongData)),
        },
        (TextureFormat::DepthF32, Dimensionality::One) => match input {
            TextureInput::Flat(SampleBuffer::Unit(samples)) => {
                let spec = TextureSpec {
                    width: samples.len(),
                    height: None,
                    format,
                    dimensionality,
                };
                Ok(TexturePlan { spec, data: TextureInput::Flat(SampleBuffer::Unit(samples)) })
            },
            _ => Err(LoadError::TextureCreation(TextureFault::WrongData)),
        },
        (TextureFormat::DepthF32, Dimensionality::Two) => match input {
            TextureInput::Grid(grid) => {
                let spec = TextureSpec {
                    width: grid.side(),
                    height: Some(grid.height()),
                    format,
                    dimensionality,
                };
                Ok(TexturePlan { spec, data: TextureInput::Grid(grid) })
            },
            _ => Err(LoadError::TextureCreation(TextureFault::WrongData)),
        },
    }
}

/// Which texture is wanted, and how its rows are sized.
#[derive(Clone, Copy, Debug)]
pub struct TextureRequest {
    pub format: TextureFormat,
    pub dimensionality: Dimensionality,
    /// The stride of the rows; read for two-dimensional textures only.
    pub stride: Stride,
}

impl TextureRequest {
    /// The sample mode that the format consumes.
    pub open spec fn spec_mode(self) -> SampleMode {
        match self.format {
            TextureFormat::Rgba8 => SampleMode::Raw,
            TextureFormat::DepthF32 => SampleMode::Float,
        }
    }

    /// The sample mode that the format consumes: raw bytes for RGBA8,
    /// normalized samples for depth.
    pub fn mode(&self) -> (mode: SampleMode)
        ensures
            mode == self.spec_mode(),
    {
        match self.format {
            TextureFormat::Rgba8 => SampleMode::Raw,
            TextureFormat::DepthF32 => SampleMode::Float,
        }
    }
}

/// The data that the bytes of a window become for `request`: raw bytes for
/// RGBA8, normalized samples for depth, cut into rows of the requested stride
/// where the texture has two dimensions.
pub open spec fn prepared(bytes: Seq<u8>, request: TextureRequest) -> Shape {
    match (request.format, request.dimensionality) {
        (TextureFormat::Rgba8, _) => Shape::Flat(Samples::Raw(bytes)),
        (TextureFormat::DepthF32, Dimensionality::One) => Shape::Flat(
            Samples::Unit(normalized(bytes)),
        ),
        (TextureFormat::DepthF32, Dimensionality::Two) => Shape::Grid(
            chunked(normalized(bytes), request.stride.spec_side(bytes.len())),
        ),
    }
}

/// Runs a window through the whole pipeline for `request`: normalizes its
/// bytes as the format asks, cuts them into rows where the texture has two
/// dimensions, and describes the texture that the result fills.
pub fn prepare(window: ByteWindow, request: TextureRequest) -> (result: Result<
    TexturePlan,
    LoadError,
>)
    ensures
        built(result, prepared(window@, request), request.format, request.dimensionality),
{
    let buffer = normalize(window, request.mode());
    let input = match request.dimensionality {
        Dimensionality::One => TextureInput::Flat(buffer),
        Dimensionality::Two => match buffer {
            SampleBuffer::Unit(samples) => {
                let side = request.stride.side(samples.len());
                TextureInput::Grid(reshape(&samples, side))
            },
            SampleBuffer::Raw(bytes) => TextureInput::Flat(SampleBuffer::Raw(bytes)),
        },
    };
    build(input, request.format, request.dimensionality)
}

/// From what a read gave to the texture it fills: the bytes are bounded by
/// `max_bytes` and run through the pipeline for `request`. A failed read is an
/// I/O error, whatever the request.
pub fn load(outcome: Result<Vec<u8>, String>, max_bytes: u64, request: TextureRequest) -> (result:
    Result<TexturePlan, LoadError>)
    ensures
        match outcome {
            Ok(content) => built(
                result,
                prepared(windowed(content@, max_bytes as nat), request),
                request.format,
                request.dimensionality,
            ),
            Err(message) => result is Err && result->Err_0 == LoadError::Io(message),
        },
{
    match ByteWindow::from_read(outcome, max_bytes) {
        Ok(window) => prepare(window, request),
        Err(error) => Err(error),
    }
}

/// A window of `side * rows` bytes over content at least that long,
/// normalized and cut at stride `side`, is a grid of exactly `rows` rows of
/// `side` samples.
pub proof fn lemma_full_window_gives_all_rows(content: Seq<u8>, side: nat, rows: nat)
    requires
        side > 0,
        content.len() >= side * rows,
    ensures
        chunked(normalized(windowed(content, side * rows)), side).height() == rows,
        chunked(normalized(windowed(content, side * rows)), side).side == side,
        chunked(normalized(windowed(content, side * rows)), side).wf(),
{
    let samples = normalized(windowed(content, side * rows));
    assert(samples.len() == side * rows);
    lemma_div_multiples_vanish(rows as int, side as int);
    assert(side * rows == side as int * rows as int);
    crate::grid::lemma_chunked_shape(samples, side);
}

/// What the rendering backend reports of a texture it has created.
#[derive(Clone, Copy, Debug, PartialEq, Eq)]
pub struct TextureInfo {
    pub width: u32,
    pub height: Option<u32>,
    pub depth: Option<u32>,
    pub mipmap_levels: u32,
}

impl TextureInfo {
    /// Width, height and depth for sizing what draws the texture; a
    /// dimension that the texture lacks counts as 1.
    pub fn dimensions(&self) -> (dims: (u32, u32, u32))
        ensures
            dims.0 == self.width,
            dims.1 == (match self.height {
                Some(height) => height,
                None => 1u32,
            }),
            dims.2 == (match self.depth {
                Some(depth) => depth,
                None => 1u32,
            }),
    {
        let height: u32 = match self.height {
            Some(height) => height,
            None => 1,
        };
        let depth: u32 = match self.depth {
            Some(depth) => depth,
            None => 1,
        };
        (self.width, height, depth)
    }

    /// The backend made the texture with the width and height that `spec`
    /// describes.
    pub open spec fn spec_agrees_with(self, spec: TextureSpec) -> bool {
        &&& self.width as nat == spec.extent().width
        &&& match (self.height, spec.extent().height) {
            (Some(made), Some(planned)) => made as nat == planned,
            (None, None) => true,
            _ => false,
        }
    }

    /// Whether the backend made the texture with the width and height that
    /// `spec` describes.
    pub fn agrees_with(&self, spec: &TextureSpec) -> (agrees: bool)
        ensures
            agrees == self.spec_agrees_with(*spec),
    {
        let same_height = match (self.height, spec.height) {
            (Some(made), Some(planned)) => made as u64 == planned as u64,
            (None, None) => true,
            _ => false,
        };
        self.width as u64 == spec.width as u64 && same_height
    }
}

/// The outcome of a load, given what the backend answered when asked to
/// create the texture: what it created, or its diagnostic as a
/// texture-creation error.
pub fn conclude<T>(outcome: Result<T, String>) -> (result: Result<T, LoadError>)
    ensures
        match outcome {
            Ok(texture) => result == Ok::<T, LoadError>(texture),
            Err(diagnostic) => result == Err::<T, LoadError>(
                LoadError::TextureCreation(TextureFault::Backend(diagnostic)),
            ),
        },
{
    match outcome {
        Ok(texture) => Ok(texture),
        Err(diagnostic) => Err(LoadError::TextureCreation(TextureFault::Backend(diagnostic))),
    }
}

} // verus!
