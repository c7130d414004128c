use vstd::prelude::*;

verus! {

/// Every way an operation on a video sequence can fail.
///
/// `PipelineError` carries the detail text reported by the underlying
/// decode pipeline; all other variants identify the failure by themselves.
#[derive(Debug, Clone)]
pub enum VideoError {
    /// The given path could not be resolved to an existing file.
    InvalidPath,
    /// The source is live and cannot preroll, so it cannot be indexed.
    UnsupportedSource,
    /// The decode pipeline reported an error; the detail text is kept.
    PipelineError(String),
    /// A blocking wait on the pipeline's event stream ran out of time.
    Timeout,
    /// The preroll sample carried no stream capabilities.
    NoData,
    /// The stream capabilities carry no usable frame rate.
    UnknownFrameRate,
    /// The total duration of the stream could not be determined.
    UnknownDuration,
    /// A frame index or count does not map to a representable time.
    TimeConversionOverflow,
    /// The requested frame index lies beyond the estimated frame count.
    IndexOutOfRange,
    /// A decoded sample carried no capabilities.
    MissingCaps,
    /// A decoded sample carried no buffer.
    MissingBuffer,
    /// The buffer payload could not be copied out in full.
    BufferCopyIncomplete,
    /// The sample's pixel format is not the negotiated fixed format.
    UnexpectedFormat,
    /// The payload size does not match the declared image dimensions.
    BufferSizeMismatch,
}

} // verus!
