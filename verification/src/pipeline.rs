//! The ways from a file to a texture: how many bytes are read for a
//! framebuffer, and which texture they fill.

use vstd::prelude::*;
use crate::error::LoadError;
use crate::grid::Stride;
use crate::texture::{
    built, load, lemma_full_window_gives_all_rows, prepared, Dimensionality, Shape,
    TextureFormat, TexturePlan, TextureRequest,
};
use crate::window::{windowed, ReadBudget};

verus! {

/// One way from a file to a texture.
#[derive(Clone, Copy, Debug)]
pub struct Pipeline {
    pub budget: ReadBudget,
    pub request: TextureRequest,
}

impl Pipeline {
    /// A capped read into a one-dimensional RGBA8 texture of raw bytes.
    pub fn raw_line() -> (pipeline: Pipeline)
        ensures
            pipeline.budget == ReadBudget::Capped,
            pipeline.request.format == TextureFormat::Rgba8,
            pipeline.request.dimensionality == Dimensionality::One,
            pipeline.request.stride == Stride::Width(0),
    {
        Pipeline {
            budget: ReadBudget::Capped,
            request: TextureRequest {
                format: TextureFormat::Rgba8,
                dimensionality: Dimensionality::One,
                stride: Stride::Width(0),
            },
        }
    }

    /// A capped read into a one-dimensional depth texture of normalized
    /// samples.
    pub fn depth_line() -> (pipeline: Pipeline)
        ensures
            pipeline.budget == ReadBudget::Capped,
            pipeline.request.format == TextureFormat::DepthF32,
            pipeline.request.dimensionality == Dimensionality::One,
            pipeline.request.stride == Stride::Width(0),
    {
        Pipeline {
            budget: ReadBudget::Capped,
            request: TextureRequest {
                format: TextureFormat::DepthF32,
                dimensionality: Dimensionality::One,
                stride: Stride::Width(0),
            },
        }
    }

    /// A capped read into a two-dimensional depth texture whose rows are one
    /// sixty-fourth of the samples long: for files of unknown dimensions.
    pub fn sized_depth_grid() -> (pipeline: Pipeline)
        ensures
            pipeline.budget == ReadBudget::Capped,
            pipeline.request.format == TextureFormat::DepthF32,
            pipeline.request.dimensionality == Dimensionality::Two,
            pipeline.request.stride == Stride::SixtyFourth,
    {
        Pipeline {
            budget: ReadBudget::Capped,
            request: TextureRequest {
                format: TextureFormat::DepthF32,
                dimensionality: Dimensionality::Two,
                stride: Stride::SixtyFourth,
            },
        }
    }

    /// One byte per framebuffer pixel into a two-dimensional depth texture
    /// whose rows are `width` samples long.
    pub fn framed_depth_grid(width: u32) -> (pipeline: Pipeline)
        ensures
            pipeline.budget == ReadBudget::Framebuffer,
            pipeline.request.format == TextureFormat::DepthF32,
            pipeline.request.dimensionality == Dimensionality::Two,
            pipeline.request.stride == Stride::Width(width),
    {
        Pipeline {
            budget: ReadBudget::Framebuffer,
            request: TextureRequest {
                format: TextureFormat::DepthF32,
                dimensionality: Dimensionality::Two,
                stride: Stride::Width(width),
            },
        }
    }

    /// The number of bytes to ask of the file for a framebuffer of `width` by
    /// `height` pixels.
    pub fn limit(&self, width: u32, height: u32) -> (limit: u64)
        ensures
            limit as int == self.budget.spec_limit(width, height),
    {
        self.budget.limit(width, height)
    }

    /// From what reading the file gave to the texture it fills, for a
    /// framebuffer of `width` by `height` pixels. The bytes are bounded once
    /// more by the pipeline's limit, so that a read that gave too many cannot
    /// enlarge the texture.
    pub fn run(&self, outcome: Result<Vec<u8>, String>, width: u32, height: u32) -> (result:
        Result<TexturePlan, LoadError>)
        ensures
            match outcome {
                Ok(content) => built(
                    result,
                    prepared(
                        windowed(content@, self.budget.spec_limit(width, height) as nat),
                        self.request,
                    ),
                    self.request.format,
                    self.request.dimensionality,
                ),
                Err(message) => result is Err && result->Err_0 == LoadError::Io(message),
            },
    {
        let limit = self.limit(width, height);
        load(outcome, limit, self.request)
    }
}

/// A file that holds at least one byte per framebuffer pixel fills the frame:
/// read at one byte per pixel and cut at the framebuffer's width, it gives
/// exactly `height` rows of `width` samples.
pub proof fn lemma_framed_grid_fills_the_frame(content: Seq<u8>, width: u32, height: u32)
    requires
        width > 0,
        content.len() >= width as nat * height as nat,
    ensures
        ({
            let request = TextureRequest {
                format: TextureFormat::DepthF32,
                dimensionality: Dimensionality::Two,
                stride: Stride::Width(width),
            };
            let bytes = windowed(
                content,
                ReadBudget::Framebuffer.spec_limit(width, height) as nat,
            );
            &&& prepared(bytes, request) is Grid
            &&& prepared(bytes, request)->Grid_0.height() == height
            &&& prepared(bytes, request)->Grid_0.side == width
            &&& prepared(bytes, request)->Grid_0.wf()
        }),
{
    assert(0 <= width as int * height as int) by (nonlinear_arith)
        requires
            0 <= width as int,
            0 <= height as int,
    ;
    lemma_full_window_gives_all_rows(content, width as nat, height as nat);
}

} // verus!
