use vstd::prelude::*;
use crate::errors::VideoError;

verus! {

/// Nanoseconds in one second, the pipeline's time unit.
pub const NANOS_PER_SECOND: u64 = 1_000_000_000;

/// The dispatch policy's one tunable: the largest forward distance, in
/// frames, that is advanced by a cheap step rather than by a full absolute
/// seek. Stepping is cheap per frame but costs time linear in the distance;
/// an accurate flushing seek costs a lot once but is independent of distance.
pub const MAX_STEP_DELTA: u64 = 1;

/// What the controller learns by probing a freshly paused stream: the driver
/// pulls one preroll sample for its capabilities and queries the pipeline for
/// the total duration, and hands the plain values over.
#[derive(Clone, Copy, Debug)]
pub struct StreamProbe {
    /// Whether the preroll sample carried stream capabilities at all.
    pub has_caps: bool,
    /// The declared frame rate as a numerator/denominator fraction in frames
    /// per second, if the capabilities carry one.
    pub framerate: Option<(i32, i32)>,
    /// The total stream duration in nanoseconds, if the pipeline can tell.
    pub duration_ns: Option<u64>,
}

/// A pipeline command the controller asks its driver to perform in order to
/// position the stream on a requested frame.
#[derive(Clone, Copy, Debug, PartialEq, Eq, Structural)]
pub enum SeekCommand {
    /// The pipeline already sits on the requested frame; touch nothing.
    Stay,
    /// Send a forward step over the given duration and wait for its
    /// asynchronous completion. Steps must never be used to move backward.
    Step {
        /// How far to step forward, in nanoseconds.
        duration_ns: u64,
    },
    /// Issue an accurate, flushing absolute seek to the given time and wait
    /// for its asynchronous completion. Flushing discards in-flight buffered
    /// data; accurate forces frame-exact rather than keyframe-snapped
    /// positioning.
    SeekTo {
        /// The absolute target position, in nanoseconds.
        time_ns: u64,
    },
}

/// The frame sequence controller: the immutable metadata derived when the
/// stream was opened, and the cursor the pipeline was last positioned at.
///
/// The frame count is an estimate under a constant-frame-rate assumption; it
/// may overshoot the actually decodable range near the end of the stream, in
/// which case pulling a sample there yields no buffer (an empty outcome, not
/// an error).
#[derive(Clone, Copy, Debug, PartialEq, Eq, Structural)]
pub struct VideoSequence {
    /// Duration of one frame in nanoseconds; at least 1.
    pub per_frame_ns: u64,
    /// Estimated number of frames: stream duration over `per_frame_ns`,
    /// floored. Immutable after open.
    pub frames: u64,
    /// The frame index the pipeline was last positioned at, updated only
    /// after the positioning operation's asynchronous completion.
    pub current_index: u64,
}

/// Duration of one frame in nanoseconds for a declared rate of `num / denom`
/// frames per second, rounded to the nearest representable value.
pub open spec fn spec_per_frame_ns(num: i32, denom: i32) -> int
    recommends
        1 <= num,
        1 <= denom,
{
    (NANOS_PER_SECOND * denom + num / 2) / (num as int)
}

/// What opening a stream yields for given probe results: each missing or
/// unusable value is rejected with its own error, in the order the stream is
/// interrogated, and otherwise the controller starts with its cursor at 0.
pub open spec fn open_spec(probe: StreamProbe) -> Result<VideoSequence, VideoError> {
    if !probe.has_caps {
        Err(VideoError::NoData)
    } else {
        match probe.framerate {
            None => Err(VideoError::UnknownFrameRate),
            Some((num, denom)) => {
                if num < 1 || denom < 1 {
                    Err(VideoError::UnknownFrameRate)
                } else {
                    match probe.duration_ns {
                        None => Err(VideoError::UnknownDuration),
                        Some(duration_ns) => {
                            let per = spec_per_frame_ns(num, denom);
                            if per < 1 {
                                Err(VideoError::TimeConversionOverflow)
                            } else {
                                Ok(VideoSequence {
                                    per_frame_ns: per as u64,
                                    frames: (duration_ns as int / per) as u64,
                                    current_index: 0,
                                })
                            }
                        },
                    }
                }
            },
        }
    }
}

/// The seek dispatch policy. An index past the estimate is rejected; the
/// current index needs no command; the immediately following frames (within
/// [`MAX_STEP_DELTA`]) are reached by a forward step; everything else —
/// any backward movement, and larger forward jumps — by a full absolute
/// seek. A target time that does not fit the pipeline's time unit is
/// rejected.
pub open spec fn seek_plan_spec(s: VideoSequence, index: u64) -> Result<SeekCommand, VideoError> {
    if index > s.frames {
        Err(VideoError::IndexOutOfRange)
    } else if index == s.current_index {
        Ok(SeekCommand::Stay)
    } else if s.current_index < index && index - s.current_index <= MAX_STEP_DELTA {
        if s.per_frame_ns * (index - s.current_index) <= u64::MAX {
            Ok(SeekCommand::Step { duration_ns: (s.per_frame_ns * (index - s.current_index)) as u64 })
        } else {
            Err(VideoError::TimeConversionOverflow)
        }
    } else {
        if s.per_frame_ns * index <= u64::MAX {
            Ok(SeekCommand::SeekTo { time_ns: (s.per_frame_ns * index) as u64 })
        } else {
            Err(VideoError::TimeConversionOverflow)
        }
    }
}

impl VideoSequence {
    /// A frame duration of zero would make every frame map to time zero, and
    /// the cursor never runs past the estimate.
    pub open spec fn wf(self) -> bool {
        &&& 1 <= self.per_frame_ns
        &&& self.current_index <= self.frames
    }

    /// Derives the sequence metadata from the probe of a freshly paused
    /// stream, exactly as [`open_spec`] says: per-frame duration from the
    /// declared rate, frame count as the floored quotient of the duration,
    /// cursor at 0. The driver must still position the pipeline on frame 0
    /// (an absolute seek to time zero) before pulling samples.
    pub fn open(probe: StreamProbe) -> (r: Result<VideoSequence, VideoError>)
        ensures
            r == open_spec(probe),
            r matches Ok(s) ==> s.wf() && s.current_index == 0,
    {
        if !probe.has_caps {
            return Err(VideoError::NoData);
        }
        let (num, denom) = match probe.framerate {
            Some(f) => f,
            None => {
                return Err(VideoError::UnknownFrameRate);
            },
        };
        if num < 1 || denom < 1 {
            return Err(VideoError::UnknownFrameRate);
        }
        let duration_ns = match probe.duration_ns {
            Some(d) => d,
            None => {
                return Err(VideoError::UnknownDuration);
            },
        };
        let num64: u64 = num as u64;
        let denom64: u64 = denom as u64;
        let per_frame_ns: u64 = (NANOS_PER_SECOND * denom64 + num64 / 2) / num64;
        if per_frame_ns == 0 {
            return Err(VideoError::TimeConversionOverflow);
        }
        let frames: u64 = duration_ns / per_frame_ns;
        Ok(VideoSequence { per_frame_ns, frames, current_index: 0 })
    }

    /// The estimated number of frames in this sequence.
    pub fn len(&self) -> (r: u64)
        ensures
            r == self.frames,
    {
        self.frames
    }

    /// Decides how the pipeline must move to sit on `index`, exactly as
    /// [`seek_plan_spec`] says. The controller state is untouched: the driver
    /// performs the command, waits for its asynchronous completion, and only
    /// then records the new position with [`VideoSequence::commit_seek`].
    pub fn plan_seek(&self, index: u64) -> (r: Result<SeekCommand, VideoError>)
        ensures
            r == seek_plan_spec(*self, index),
    {
        if index > self.frames {
            Err(VideoError::IndexOutOfRange)
        } else if index == self.current_index {
            Ok(SeekCommand::Stay)
        } else if self.current_index < index && index - self.current_index <= MAX_STEP_DELTA {
            let delta: u64 = index - self.current_index;
            match self.per_frame_ns.checked_mul(delta) {
                Some(duration_ns) => Ok(SeekCommand::Step { duration_ns }),
                None => Err(VideoError::TimeConversionOverflow),
            }
        } else {
            match self.per_frame_ns.checked_mul(index) {
                Some(time_ns) => Ok(SeekCommand::SeekTo { time_ns }),
                None => Err(VideoError::TimeConversionOverflow),
            }
        }
    }

    /// Records that the pipeline, after confirming asynchronous completion of
    /// a planned command, now sits on `index`. Nothing else changes.
    pub fn commit_seek(&mut self, index: u64)
        requires
            old(self).wf(),
            index <= old(self).frames,
        ensures
            *final(self) == (VideoSequence { current_index: index, ..*old(self) }),
            final(self).wf(),
    {
        self.current_index = index;
    }
}

/// Requesting an index beyond the estimated frame count fails with
/// `IndexOutOfRange`, and no index within the estimate is ever rejected for
/// that reason.
pub proof fn lemma_out_of_range_rejected(s: VideoSequence, index: u64)
    ensures
        seek_plan_spec(s, index) == Err::<SeekCommand, VideoError>(VideoError::IndexOutOfRange)
            <==> index > s.frames,
{
}

/// Asking again for the frame the cursor already sits on issues no pipeline
/// command: the plan is `Stay`, and recording the unchanged position leaves
/// the controller state exactly as it was — so an immediately repeated
/// request is decided identically, and the pulled sample comes from an
/// untouched pipeline position.
pub proof fn lemma_repeat_request_is_noop(s: VideoSequence, index: u64)
    requires
        s.current_index == index,
        index <= s.frames,
    ensures
        seek_plan_spec(s, index) == Ok::<SeekCommand, VideoError>(SeekCommand::Stay),
        (VideoSequence { current_index: index, ..s }) == s,
{
}

/// After the cursor reaches some frame, the immediately following frame is
/// reached by a single cheap step of one frame duration, never by a full
/// seek.
pub proof fn lemma_adjacent_uses_step(s: VideoSequence, next: u64)
    requires
        s.wf(),
        next == s.current_index + 1,
        next <= s.frames,
    ensures
        seek_plan_spec(s, next) == Ok::<SeekCommand, VideoError>(
            SeekCommand::Step { duration_ns: s.per_frame_ns },
        ),
{
    assert(next - s.current_index == 1);
    assert(s.per_frame_ns * 1 == s.per_frame_ns) by (nonlinear_arith);
}

/// A forward jump farther than [`MAX_STEP_DELTA`] is performed as a full
/// absolute seek to the target frame's time, never by stepping (provided
/// that time is representable at all).
pub proof fn lemma_far_forward_uses_seek(s: VideoSequence, index: u64)
    requires
        s.current_index + MAX_STEP_DELTA < index,
        index <= s.frames,
        s.per_frame_ns * index <= u64::MAX,
    ensures
        seek_plan_spec(s, index) == Ok::<SeekCommand, VideoError>(
            SeekCommand::SeekTo { time_ns: (s.per_frame_ns * index) as u64 },
        ),
{
}

/// Backward movement is always performed as a full absolute seek, regardless
/// of the distance — even to the immediately preceding frame (provided the
/// target frame's time is representable at all).
pub proof fn lemma_backward_uses_seek(s: VideoSequence, index: u64)
    requires
        s.wf(),
        index < s.current_index,
        s.per_frame_ns * index <= u64::MAX,
    ensures
        seek_plan_spec(s, index) == Ok::<SeekCommand, VideoError>(
            SeekCommand::SeekTo { time_ns: (s.per_frame_ns * index) as u64 },
        ),
{
}

/// The derived per-frame duration carries no truncation bias: it lies within
/// half a nanosecond of the exact rational `NANOS_PER_SECOND * denom / num`.
/// Stated without fractions: twice the difference between `num` times the
/// derived value and `NANOS_PER_SECOND * denom` stays within `±num`.
pub proof fn lemma_per_frame_is_nearest(num: i32, denom: i32)
    requires
        1 <= num,
        1 <= denom,
    ensures
        -num <= 2 * (num * spec_per_frame_ns(num, denom) - NANOS_PER_SECOND * denom),
        2 * (num * spec_per_frame_ns(num, denom) - NANOS_PER_SECOND * denom) <= num,
{
    let b = NANOS_PER_SECOND * denom as int;
    let n = num as int;
    let h = n / 2;
    vstd::arithmetic::div_mod::lemma_fundamental_div_mod(b + h, n);
    vstd::arithmetic::div_mod::lemma_mod_bound(b + h, n);
    vstd::arithmetic::div_mod::lemma_fundamental_div_mod(n, 2);
    vstd::arithmetic::div_mod::lemma_mod_bound(n, 2);
}

/// The frame-count estimate never claims more frames than the stream's time
/// allows: the per-frame duration times the estimate is at most the stream
/// duration, and falls short of it by less than one frame duration (floor
/// semantics).
pub proof fn lemma_frame_count_round_trip(probe: StreamProbe, s: VideoSequence)
    requires
        open_spec(probe) == Ok::<VideoSequence, VideoError>(s),
    ensures
        probe.duration_ns matches Some(d) && s.per_frame_ns * s.frames <= d < s.per_frame_ns * (
        s.frames + 1),
{
    let d = probe.duration_ns->Some_0 as int;
    let per = s.per_frame_ns as int;
    vstd::arithmetic::div_mod::lemma_fundamental_div_mod(d, per);
    vstd::arithmetic::div_mod::lemma_mod_bound(d, per);
    assert(per * ((d / per) + 1) == per * (d / per) + per) by (nonlinear_arith);
}

} // verus!
