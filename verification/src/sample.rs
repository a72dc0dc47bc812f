//! Samples: raw bytes, or bytes read as fractions of 255 in the unit interval.

use vstd::prelude::*;
use crate::window::ByteWindow;

verus! {

/// The denominator of every normalized sample.
pub const SAMPLE_SCALE: u8 = 255;

/// A normalized sample: the fraction `level / 255`, a value in `[0, 1]`.
///
/// The fraction is kept exact; whoever uploads samples divides in floating
/// point at that moment.
#[derive(Clone, Copy, Debug, PartialEq, Eq, Structural)]
pub struct Sample {
    pub level: u8,
}

impl Sample {
    /// The numerator of the fraction that the sample stands for.
    pub open spec fn numerator(self) -> int {
        self.level as int
    }

    /// The denominator of the fraction that the sample stands for.
    pub open spec fn denominator(self) -> int {
        SAMPLE_SCALE as int
    }

    /// `self <= other` as fractions, by cross-multiplication.
    pub open spec fn at_most(self, other: Sample) -> bool {
        self.numerator() * other.denominator() <= other.numerator() * self.denominator()
    }

    /// The sample is exactly zero.
    pub open spec fn is_zero(self) -> bool {
        self.numerator() == 0
    }

    /// The sample is exactly one.
    pub open spec fn is_one(self) -> bool {
        self.numerator() == self.denominator()
    }

    /// The sample that the byte `byte` normalizes to: `byte / 255`.
    pub fn from_byte(byte: u8) -> (sample: Sample)
        ensures
            sample == normalized_byte(byte),
    {
        Sample { level: byte }
    }

    /// Numerator and denominator of the sample, for the division.
    pub fn fraction(self) -> (parts: (u8, u8))
        ensures
            parts.0 as int == self.numerator(),
            parts.1 as int == self.denominator(),
    {
        (self.level, SAMPLE_SCALE)
    }
}

/// The sample of one byte.
pub open spec fn normalized_byte(byte: u8) -> Sample {
    Sample { level: byte }
}

/// The samples of a run of bytes, one for one and in order.
pub open spec fn normalized(bytes: Seq<u8>) -> Seq<Sample> {
    Seq::new(bytes.len(), |i: int| normalized_byte(bytes[i]))
}

/// What a byte becomes on its way into a texture.
#[derive(Clone, Copy, Debug, PartialEq, Eq, Structural)]
pub enum SampleMode {
    /// Bytes stay bytes, for unsigned integer formats.
    Raw,
    /// Each byte becomes a fraction of 255, for floating-point formats.
    Float,
}

/// What a sample buffer holds, as mathematical sequences.
pub ghost enum Samples {
    Raw(Seq<u8>),
    Unit(Seq<Sample>),
}

impl Samples {
    /// The number of samples.
    pub open spec fn len(self) -> nat {
        match self {
            Samples::Raw(bytes) => bytes.len(),
            Samples::Unit(samples) => samples.len(),
        }
    }
}

/// The samples that a run of bytes becomes under `mode`.
pub open spec fn normalize_spec(bytes: Seq<u8>, mode: SampleMode) -> Samples {
    match mode {
        SampleMode::Raw => Samples::Raw(bytes),
        SampleMode::Float => Samples::Unit(normalized(bytes)),
    }
}

/// An ordered run of samples, raw or normalized.
#[derive(Debug)]
pub enum SampleBuffer {
    Raw(Vec<u8>),
    Unit(Vec<Sample>),
}

impl View for SampleBuffer {
    type V = Samples;

    open spec fn view(&self) -> Samples {
        match self {
            SampleBuffer::Raw(bytes) => Samples::Raw(bytes@),
            SampleBuffer::Unit(samples) => Samples::Unit(samples@),
        }
    }
}

impl SampleBuffer {
    /// The number of samples in the buffer.
    pub fn len(&self) -> (len: usize)
        ensures
            len == self@.len(),
    {
        match self {
            SampleBuffer::Raw(bytes) => bytes.len(),
            SampleBuffer::Unit(samples) => samples.len(),
        }
    }
}

/// The normalized samples of `bytes`, one per byte and in order.
pub fn normalize_bytes(bytes: &Vec<u8>) -> (samples: Vec<Sample>)
    ensures
        samples@ == normalized(bytes@),
{
    let mut samples: Vec<Sample> = Vec::with_capacity(bytes.len());
    let mut i: usize = 0;
    while i < bytes.len()
        invariant
            i <= bytes.len(),
            samples.len() == i,
            forall|k: int| 0 <= k < i ==> samples[k] == normalized_byte(bytes[k]),
        decreases bytes.len() - i,
    {
        samples.push(Sample::from_byte(bytes[i]));
        i += 1;
    }
    assert(samples@ =~= normalized(bytes@));
    samples
}

/// The samples of a window under `mode`: the bytes themselves, or each byte
/// as a fraction of 255. The buffer is as long as the window.
pub fn normalize(window: ByteWindow, mode: SampleMode) -> (buffer: SampleBuffer)
    ensures
        buffer@ == normalize_spec(window@, mode),
        buffer@.len() == window@.len(),
{
    match mode {
        SampleMode::Raw => SampleBuffer::Raw(window.into_bytes()),
        SampleMode::Float => SampleBuffer::Unit(normalize_bytes(window.bytes())),
    }
}

/// Normalization keeps the order of bytes and stays within the unit
/// interval: a smaller byte never gives a larger sample, every sample lies
/// between zero and one, byte 0 gives exactly zero and byte 255 exactly one.
pub proof fn lemma_normalized_byte_monotonic_and_bounded(low: u8, high: u8)
    requires
        low <= high,
    ensures
        normalized_byte(low).at_most(normalized_byte(high)),
        normalized_byte(0).at_most(normalized_byte(low)),
        normalized_byte(high).at_most(normalized_byte(255)),
        0 <= normalized_byte(low).numerator() <= normalized_byte(low).denominator(),
        normalized_byte(low).denominator() > 0,
        normalized_byte(0).is_zero(),
        normalized_byte(255).is_one(),
{
    let scale = SAMPLE_SCALE as int;
    assert(low as int * scale <= high as int * scale) by (nonlinear_arith)
        requires
            low <= high,
            scale > 0,
    ;
    assert(high as int * scale <= 255 * scale) by (nonlinear_arith)
        requires
            high <= 255,
            scale > 0,
    ;
}

/// Normalization neither adds nor drops samples, under either mode.
pub proof fn lemma_normalize_keeps_length(bytes: Seq<u8>, mode: SampleMode)
    ensures
        normalize_spec(bytes, mode).len() == bytes.len(),
{
}

} // verus!
