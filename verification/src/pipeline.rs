use vstd::prelude::*;
use crate::errors::VideoError;

verus! {

/// How the decode pipeline answered a request to change state.
#[derive(Clone, Debug)]
pub enum StateChangeOutcome {
    /// The transition completed synchronously.
    Success,
    /// The transition continues asynchronously; completion arrives as an
    /// event on the pipeline's event stream.
    Async,
    /// A live source prerolls no data; such sources cannot be indexed.
    NoPreroll,
    /// The pipeline refused the transition; the detail text is kept.
    Failure(String),
}

/// One observation taken from the pipeline's event stream while waiting for
/// an asynchronous operation to finish.
#[derive(Clone, Debug)]
pub enum BusEvent {
    /// The previously requested asynchronous operation has taken effect.
    AsyncDone,
    /// The pipeline reported an error; the detail text is kept.
    ErrorMessage(String),
    /// Any other event; it does not concern the pending operation.
    Other,
}

/// The adapter's decision after a state-change request: `Ok(false)` means the
/// transition is complete, `Ok(true)` means the caller must block on the
/// event stream until [`wait_step`] reports completion, and an error is
/// terminal for the call.
pub fn classify_state_change(outcome: StateChangeOutcome) -> (r: Result<bool, VideoError>)
    ensures
        outcome is Success ==> r == Ok::<bool, VideoError>(false),
        outcome is Async ==> r == Ok::<bool, VideoError>(true),
        outcome is NoPreroll ==> r == Err::<bool, VideoError>(VideoError::UnsupportedSource),
        outcome matches StateChangeOutcome::Failure(d) ==> r == Err::<bool, VideoError>(
            VideoError::PipelineError(d),
        ),
{
    match outcome {
        StateChangeOutcome::Success => Ok(false),
        StateChangeOutcome::Async => Ok(true),
        StateChangeOutcome::NoPreroll => Err(VideoError::UnsupportedSource),
        StateChangeOutcome::Failure(d) => Err(VideoError::PipelineError(d)),
    }
}

/// The adapter's decision for one observation while blocking for async
/// completion. The caller performs one bounded receive on the event stream
/// and hands over what it saw; `None` means the receive produced nothing
/// within the deadline. `Ok(true)` means the operation is done, `Ok(false)`
/// means keep waiting, and an error is terminal for the call.
pub fn wait_step(event: Option<BusEvent>) -> (r: Result<bool, VideoError>)
    ensures
        event is None ==> r == Err::<bool, VideoError>(VideoError::Timeout),
        event matches Some(e) ==> match e {
            BusEvent::AsyncDone => r == Ok::<bool, VideoError>(true),
            BusEvent::ErrorMessage(d) => r == Err::<bool, VideoError>(
                VideoError::PipelineError(d),
            ),
            BusEvent::Other => r == Ok::<bool, VideoError>(false),
        },
{
    match event {
        None => Err(VideoError::Timeout),
        Some(BusEvent::AsyncDone) => Ok(true),
        Some(BusEvent::ErrorMessage(d)) => Err(VideoError::PipelineError(d)),
        Some(BusEvent::Other) => Ok(false),
    }
}

} // verus!
