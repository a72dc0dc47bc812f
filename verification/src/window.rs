//! The bounded byte window: how many bytes are asked of a file, and which of
//! its bytes a window holds.

use vstd::prelude::*;
use crate::error::LoadError;

verus! {

/// The most bytes that a capped read asks for.
pub const READ_CAP: u64 = 8192;

/// How many bytes a read may ask for, given the framebuffer's dimensions.
#[derive(Clone, Copy, Debug, PartialEq, Eq, Structural)]
pub enum ReadBudget {
    /// One byte per framebuffer pixel, but no more than `READ_CAP`.
    Capped,
    /// One byte per framebuffer pixel.
    Framebuffer,
}

impl ReadBudget {
    /// The bound as a mathematical integer.
    pub open spec fn spec_limit(self, width: u32, height: u32) -> int {
        let area = width as int * height as int;
        match self {
            ReadBudget::Framebuffer => area,
            ReadBudget::Capped => if area < READ_CAP as int {
                area
            } else {
                READ_CAP as int
            },
        }
    }

    /// The bound on the bytes to read for a framebuffer of `width` by `height`
    /// pixels. The product is taken in 64 bits, where it cannot overflow.
    pub fn limit(self, width: u32, height: u32) -> (limit: u64)
        ensures
            limit as int == self.spec_limit(width, height),
    {
        assert(width as int * height as int <= 0xFFFF_FFFF * 0xFFFF_FFFF) by (nonlinear_arith)
            requires
                0 <= width as int <= 0xFFFF_FFFF,
                0 <= height as int <= 0xFFFF_FFFF,
        ;
        let area: u64 = (width as u64) * (height as u64);
        match self {
            ReadBudget::Framebuffer => area,
            ReadBudget::Capped => if area < READ_CAP {
                area
            } else {
                READ_CAP
            },
        }
    }
}

/// The bytes of `content` that a window bounded by `max_bytes` holds: all of
/// them where the content is no longer than the bound, else its first
/// `max_bytes`.
pub open spec fn windowed(content: Seq<u8>, max_bytes: nat) -> Seq<u8> {
    if max_bytes >= content.len() {
        content
    } else {
        content.take(max_bytes as int)
    }
}

/// A bounded run of raw bytes from the start of a file.
#[derive(Debug)]
pub struct ByteWindow {
    bytes: Vec<u8>,
}

impl View for ByteWindow {
    type V = Seq<u8>;

    closed spec fn view(&self) -> Seq<u8> {
        self.bytes@
    }
}

impl ByteWindow {
    /// The window over `content` bounded by `max_bytes`. Content shorter than
    /// the bound is kept whole: a short read is no failure.
    pub fn new(content: Vec<u8>, max_bytes: u64) -> (window: ByteWindow)
        ensures
            window@ == windowed(content@, max_bytes as nat),
    {
        let mut bytes = content;
        if max_bytes < bytes.len() as u64 {
            bytes.truncate(max_bytes as usize);
        }
        ByteWindow { bytes }
    }

    /// The window over what a read gave. A read that failed is an I/O error
    /// that keeps the system's message, and no window at all; a read that
    /// gave fewer bytes than the bound is a window of those bytes.
    pub fn from_read(outcome: Result<Vec<u8>, String>, max_bytes: u64) -> (result: Result<
        ByteWindow,
        LoadError,
    >)
        ensures
            match outcome {
                Ok(content) => result is Ok && result->Ok_0@ == windowed(
                    content@,
                    max_bytes as nat,
                ),
                Err(message) => result is Err && result->Err_0 == LoadError::Io(message),
            },
    {
        match outcome {
            Ok(content) => Ok(ByteWindow::new(content, max_bytes)),
            Err(message) => Err(LoadError::Io(message)),
        }
    }

    /// The number of bytes in the window.
    pub fn len(&self) -> (len: usize)
        ensures
            len == self@.len(),
    {
        self.bytes.len()
    }

    /// The bytes of the window, in file order.
    pub fn bytes(&self) -> (bytes: &Vec<u8>)
        ensures
            bytes@ == self@,
    {
        &self.bytes
    }

    /// Gives up the window for its bytes.
    pub fn into_bytes(self) -> (bytes: Vec<u8>)
        ensures
            bytes@ == self@,
    {
        self.bytes
    }
}

/// A window never holds more than its bound, nor more than the content, and
/// holds the whole content where the bound allows it.
pub proof fn lemma_windowed_length(content: Seq<u8>, max_bytes: nat)
    ensures
        windowed(content, max_bytes).len() == if max_bytes < content.len() {
            max_bytes
        } else {
            content.len()
        },
        max_bytes >= content.len() ==> windowed(content, max_bytes) == content,
        forall|i: int|
            0 <= i < windowed(content, max_bytes).len() ==> windowed(content, max_bytes)[i]
                == content[i],
{
}

} // verus!
