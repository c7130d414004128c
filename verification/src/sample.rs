use vstd::prelude::*;

verus! {

/// The stream capabilities attached to a decoded sample, reduced to the three
/// values the conversion logic reads: the declared picture dimensions and the
/// pixel-format tag.
#[derive(Clone, Debug)]
pub struct SampleCaps {
    /// Declared picture width in pixels.
    pub width: u32,
    /// Declared picture height in pixels.
    pub height: u32,
    /// Pixel-format tag as the capabilities carry it, e.g. `"RGB"`.
    pub format: String,
}

/// The payload of a decoded sample: the size the pipeline declared for the
/// buffer, and the bytes that could actually be copied out of it. A copy that
/// came up short is visible as `data` being shorter than `declared_size`.
#[derive(Clone, Debug)]
pub struct RawBuffer {
    /// The byte size the pipeline declared for the buffer.
    pub declared_size: usize,
    /// The bytes copied out of the buffer.
    pub data: Vec<u8>,
}

/// One decoded sample as pulled from the decoded-frame sink. Either part may
/// be absent: a sample past the end of the stream typically carries
/// capabilities but no buffer.
#[derive(Clone, Debug)]
pub struct RawSample {
    /// The capabilities attached to the sample, if any.
    pub caps: Option<SampleCaps>,
    /// The buffer payload, if any.
    pub buffer: Option<RawBuffer>,
}

/// A decoded still image: tightly packed 3-channel 8-bit interleaved pixels,
/// row by row.
#[derive(Clone, Debug)]
pub struct Frame {
    /// Picture width in pixels.
    pub width: u32,
    /// Picture height in pixels.
    pub height: u32,
    /// Exactly `width * height * 3` bytes of pixel data.
    pub data: Vec<u8>,
}

impl Frame {
    /// The payload holds exactly one byte per channel of every pixel.
    pub open spec fn wf(self) -> bool {
        self.data@.len() == self.width * self.height * 3
    }
}

} // verus!
