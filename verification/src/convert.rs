use vstd::prelude::*;
use vstd::string::StringExecFns;
use crate::errors::VideoError;
use crate::sample::Frame;
use crate::sample::RawSample;

verus! {

/// An owned `image::RgbImage`, held opaque: `image::ImageBuffer`'s own
/// declaration carries a bound on an outside trait, which Verus will not
/// take in a type declaration, so the image travels through the verified
/// code inside this struct. The embedding program uses the field directly.
#[verifier::external_body]
pub struct RgbImageHandle {
    /// The converted image.
    pub image: image::RgbImage,
}

/// The width and height the held image was constructed with.
pub uninterp spec fn image_dims(h: RgbImageHandle) -> (u32, u32);

/// The bytes of the held image's pixel container.
pub uninterp spec fn image_bytes(h: RgbImageHandle) -> Seq<u8>;

/// The fixed pixel-format tag the decoded-frame sink is configured to emit:
/// 3-channel, 8-bit, interleaved.
pub open spec fn rgb_format() -> Seq<char> {
    "RGB"@
}

/// Why converting a sample fails, or `None` when it converts: the sample must
/// carry capabilities and a buffer, the buffer's payload must have been
/// copied out in full, the format tag must be the negotiated fixed format —
/// whatever the payload size — and the payload must hold exactly one byte
/// per channel of every declared pixel.
pub open spec fn convert_err(sample: RawSample) -> Option<VideoError> {
    match sample.caps {
        None => Some(VideoError::MissingCaps),
        Some(caps) => match sample.buffer {
            None => Some(VideoError::MissingBuffer),
            Some(buffer) => {
                if buffer.data@.len() != buffer.declared_size {
                    Some(VideoError::BufferCopyIncomplete)
                } else if caps.format@ != rgb_format() {
                    Some(VideoError::UnexpectedFormat)
                } else if buffer.data@.len() != caps.width * caps.height * 3 {
                    Some(VideoError::BufferSizeMismatch)
                } else {
                    None
                }
            },
        },
    }
}

/// Validates one decoded sample and copies it into a typed [`Frame`]. The
/// result's dimensions are exactly the ones the sample's capabilities
/// declare, and its payload is exactly the sample's payload; each defect is
/// rejected with its own error, as [`convert_err`] says.
pub fn convert_sample_to_frame(sample: RawSample) -> (r: Result<Frame, VideoError>)
    ensures
        r is Ok <==> convert_err(sample) is None,
        convert_err(sample) matches Some(e) ==> r == Err::<Frame, VideoError>(e),
        r matches Ok(f) ==> {
            &&& sample.caps matches Some(caps) && f.width == caps.width && f.height == caps.height
            &&& sample.buffer matches Some(b) && f.data@ == b.data@
            &&& f.wf()
        },
{
    let caps = match sample.caps {
        Some(c) => c,
        None => {
            return Err(VideoError::MissingCaps);
        },
    };
    let buffer = match sample.buffer {
        Some(b) => b,
        None => {
            return Err(VideoError::MissingBuffer);
        },
    };
    if buffer.data.len() != buffer.declared_size {
        return Err(VideoError::BufferCopyIncomplete);
    }
    let rgb_tag: String = String::from_str("RGB");
    if !(caps.format == rgb_tag) {
        return Err(VideoError::UnexpectedFormat);
    }
    assert((caps.width as int) * (caps.height as int) * 3 <= u128::MAX) by (nonlinear_arith)
        requires
            caps.width <= u32::MAX,
            caps.height <= u32::MAX,
    ;
    let expected: u128 = (caps.width as u128) * (caps.height as u128) * 3;
    if (buffer.data.len() as u128) != expected {
        return Err(VideoError::BufferSizeMismatch);
    }
    Ok(Frame { width: caps.width, height: caps.height, data: buffer.data })
}

/// Relies on `image::RgbImage::from_raw` (`image::ImageBuffer::from_raw`):
/// it returns `Some` exactly when three bytes per declared pixel fit in a
/// `usize` and the container holds at least that many bytes, and it stores
/// the given dimensions and container unchanged.
#[verifier::external_body]
fn rgb_image_from_raw(width: u32, height: u32, data: Vec<u8>) -> (r: Option<RgbImageHandle>)
    ensures
        r is Some <==> (3 * width * height <= usize::MAX && 3 * width * height <= data@.len()),
        r matches Some(h) ==> image_dims(h) == (width, height) && image_bytes(h) == data@,
{
    image::RgbImage::from_raw(width, height, data).map(|image| RgbImageHandle { image })
}

/// Validates one decoded sample exactly as [`convert_sample_to_frame`] does
/// and hands the payload to the `image` crate as an `RgbImage` of the
/// declared dimensions, holding exactly the sample's payload bytes.
pub fn convert_sample_to_image(sample: RawSample) -> (r: Result<RgbImageHandle, VideoError>)
    ensures
        r is Ok <==> convert_err(sample) is None,
        convert_err(sample) matches Some(e) ==> r == Err::<RgbImageHandle, VideoError>(e),
        r matches Ok(h) ==> {
            &&& sample.caps matches Some(caps) && image_dims(h) == (caps.width, caps.height)
            &&& sample.buffer matches Some(b) && image_bytes(h) == b.data@
        },
{
    let frame = match convert_sample_to_frame(sample) {
        Ok(f) => f,
        Err(e) => {
            return Err(e);
        },
    };
    match rgb_image_from_raw(frame.width, frame.height, frame.data) {
        Some(img) => Ok(img),
        None => {
            proof {
                assert(3 * frame.width * frame.height == frame.width * frame.height * 3)
                    by (nonlinear_arith);
                assert(false);
            }
            Err(VideoError::BufferSizeMismatch)
        },
    }
}

/// The tail of a "get frame" request, applied to the sample pulled after the
/// pipeline confirmed its position: a sample without a buffer is the empty
/// outcome — "no frame data at this position", distinct from every error —
/// and any other sample is converted, with conversion failures propagated.
pub fn get_frame_outcome(sample: RawSample) -> (r: Result<Option<RgbImageHandle>, VideoError>)
    ensures
        sample.buffer is None ==> r == Ok::<Option<RgbImageHandle>, VideoError>(None),
        sample.buffer is Some ==> {
            &&& (r is Ok <==> convert_err(sample) is None)
            &&& (convert_err(sample) matches Some(e) ==> r == Err::<
                Option<RgbImageHandle>,
                VideoError,
            >(e))
            &&& (r matches Ok(o) ==> o matches Some(h) && {
                &&& sample.caps matches Some(caps) && image_dims(h) == (caps.width, caps.height)
                &&& sample.buffer matches Some(b) && image_bytes(h) == b.data@
            })
        },
{
    if sample.buffer.is_none() {
        return Ok(None);
    }
    match convert_sample_to_image(sample) {
        Ok(img) => Ok(Some(img)),
        Err(e) => Err(e),
    }
}

/// A sample whose format tag is not the negotiated fixed format is rejected
/// with `UnexpectedFormat` no matter what its payload looks like — even one
/// whose size would fit the declared dimensions.
pub proof fn lemma_wrong_format_rejected(sample: RawSample)
    requires
        sample.caps matches Some(caps) && caps.format@ != rgb_format(),
        sample.buffer matches Some(b) && b.data@.len() == b.declared_size,
    ensures
        convert_err(sample) == Some(VideoError::UnexpectedFormat),
{
}

} // verus!
