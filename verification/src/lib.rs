//! Frame-accurate access to the contents of a video file.
//!
//! A video is exposed as a logical sequence of decoded still frames
//! indexed by integer position. The crate verifies the logic that makes
//! this work: mapping a frame index to a pipeline time position, choosing
//! between a cheap forward step and an expensive absolute seek, reacting
//! to the decode pipeline's state-change and event-stream outcomes, and
//! validating a raw decoded sample into a typed RGB image.
//!
//! The decode pipeline itself is an external collaborator. A driver owns
//! it, asks [`VideoSequence`] what to do, performs the pipeline commands,
//! and hands the observed outcomes back.

mod convert;
mod errors;
mod init;
mod pipeline;
mod sample;
mod sequence;

pub use convert::RgbImageHandle;
pub use convert::convert_err;
pub use convert::convert_sample_to_frame;
pub use convert::convert_sample_to_image;
pub use convert::get_frame_outcome;
pub use convert::image_bytes;
pub use convert::image_dims;
pub use convert::lemma_wrong_format_rejected;
pub use convert::rgb_format;
pub use errors::VideoError;
pub use init::EngineInit;
pub use init::assume_gst_init;
pub use init::check_or_init_gst;
pub use pipeline::BusEvent;
pub use pipeline::StateChangeOutcome;
pub use pipeline::classify_state_change;
pub use pipeline::wait_step;
pub use sample::Frame;
pub use sample::RawBuffer;
pub use sample::RawSample;
pub use sample::SampleCaps;
pub use sequence::MAX_STEP_DELTA;
pub use sequence::NANOS_PER_SECOND;
pub use sequence::SeekCommand;
pub use sequence::StreamProbe;
pub use sequence::VideoSequence;
pub use sequence::lemma_adjacent_uses_step;
pub use sequence::lemma_backward_uses_seek;
pub use sequence::lemma_far_forward_uses_seek;
pub use sequence::lemma_frame_count_round_trip;
pub use sequence::lemma_out_of_range_rejected;
pub use sequence::lemma_per_frame_is_nearest;
pub use sequence::lemma_repeat_request_is_noop;
pub use sequence::open_spec;
pub use sequence::seek_plan_spec;
pub use sequence::spec_per_frame_ns;
