//! The control loop's decisions: from its state and what happened this
//! iteration, the next state and what to do.
use crate::queue::Received;
use vstd::prelude::*;

verus! {

/// How long the loop sleeps when the transfer queue is empty, in
/// milliseconds.
pub const IDLE_SLEEP_MS: u64 = 10;

/// The kinds of failure the pipeline knows.
#[derive(Clone, Copy, Debug, PartialEq, Eq, Structural)]
pub enum PipelineError {
    /// No capture device was found.
    DeviceUnavailable,
    /// The device offers a sample encoding or rate that cannot be handled.
    StreamConfiguration,
    /// The other end of the transfer queue has gone.
    QueueDisconnected,
    /// A recognizer call failed.
    RecognitionFailure,
    /// The detector handed out a malformed segment.
    SegmentExtraction,
}

impl PipelineError {
    /// Only a missing device and an unusable stream configuration end the
    /// run; every other failure is recovered where it happens.
    pub open spec fn spec_is_fatal(self) -> bool {
        self is DeviceUnavailable || self is StreamConfiguration
    }

    pub fn is_fatal(&self) -> (r: bool)
        ensures
            r == self.spec_is_fatal(),
    {
        match self {
            PipelineError::DeviceUnavailable => true,
            PipelineError::StreamConfiguration => true,
            _ => false,
        }
    }
}

/// Where the control loop stands.
#[derive(Clone, Copy, Debug, PartialEq, Eq, Structural)]
pub enum LoopState {
    /// Taking in audio.
    Running,
    /// Cancelled: no more intake, segments in flight are still flushed.
    Draining,
    /// Done.
    Stopped,
}

/// What one iteration found.
#[derive(Clone, Copy, Debug, PartialEq, Eq, Structural)]
pub enum LoopEvent {
    /// The cancellation signal was set.
    Cancelled,
    /// The transfer queue handed over a chunk.
    Chunk,
    /// The transfer queue was empty.
    Empty,
    /// The transfer queue reported that the producer has gone.
    Disconnected,
    /// An operation failed.
    Failed(PipelineError),
}

/// What the loop does next.
#[derive(Clone, Copy, Debug, PartialEq, Eq, Structural)]
pub enum LoopAction {
    /// Convert the chunk, feed the detector, trim, recognize, drain.
    Process,
    /// Sleep briefly, then poll again.
    Sleep,
    /// Skip the rest of this iteration and go on.
    Continue,
    /// Let the detector end the speech under way, drain every completed
    /// segment, then stop.
    Flush,
    /// Leave the loop.
    Halt,
}

pub open spec fn spec_step(state: LoopState, event: LoopEvent) -> (LoopState, LoopAction) {
    match state {
        LoopState::Running => match event {
            LoopEvent::Cancelled => (LoopState::Draining, LoopAction::Flush),
            LoopEvent::Chunk => (LoopState::Running, LoopAction::Process),
            LoopEvent::Empty => (LoopState::Running, LoopAction::Sleep),
            LoopEvent::Disconnected => (LoopState::Stopped, LoopAction::Halt),
            LoopEvent::Failed(e) => if e.spec_is_fatal() {
                (LoopState::Stopped, LoopAction::Halt)
            } else {
                (LoopState::Running, LoopAction::Continue)
            },
        },
        LoopState::Draining => (LoopState::Stopped, LoopAction::Halt),
        LoopState::Stopped => (LoopState::Stopped, LoopAction::Halt),
    }
}

/// One decision of the control loop. While running, a cancellation starts
/// draining, a chunk is processed, an empty queue means a short sleep, and
/// a disconnected queue or a fatal failure stops the loop at once; other
/// failures skip the iteration. Draining ends in the stopped state after
/// its flush.
pub fn step(state: LoopState, event: LoopEvent) -> (r: (LoopState, LoopAction))
    ensures
        r == spec_step(state, event),
{
    match state {
        LoopState::Running => match event {
            LoopEvent::Cancelled => (LoopState::Draining, LoopAction::Flush),
            LoopEvent::Chunk => (LoopState::Running, LoopAction::Process),
            LoopEvent::Empty => (LoopState::Running, LoopAction::Sleep),
            LoopEvent::Disconnected => (LoopState::Stopped, LoopAction::Halt),
            LoopEvent::Failed(e) => if e.is_fatal() {
                (LoopState::Stopped, LoopAction::Halt)
            } else {
                (LoopState::Running, LoopAction::Continue)
            },
        },
        LoopState::Draining => (LoopState::Stopped, LoopAction::Halt),
        LoopState::Stopped => (LoopState::Stopped, LoopAction::Halt),
    }
}

/// The event that a look into the transfer queue amounts to.
pub fn event_of<T>(received: &Received<T>) -> (e: LoopEvent)
    ensures
        e == (match received {
            Received::Chunk(_) => LoopEvent::Chunk,
            Received::Empty => LoopEvent::Empty,
            Received::Disconnected => LoopEvent::Disconnected,
        }),
{
    match received {
        Received::Chunk(_) => LoopEvent::Chunk,
        Received::Empty => LoopEvent::Empty,
        Received::Disconnected => LoopEvent::Disconnected,
    }
}

/// A disconnected queue stops a running loop within that iteration, and it
/// is no fatal failure.
pub proof fn lemma_disconnect_stops()
    ensures
        spec_step(LoopState::Running, LoopEvent::Disconnected) == (
            LoopState::Stopped,
            LoopAction::Halt,
        ),
        !PipelineError::QueueDisconnected.spec_is_fatal(),
{
}

/// A draining or stopped loop is stopped after its next decision, whatever
/// that iteration found.
pub proof fn lemma_draining_ends(event: LoopEvent)
    ensures
        spec_step(LoopState::Draining, event).0 == LoopState::Stopped,
        spec_step(LoopState::Stopped, event).0 == LoopState::Stopped,
{
}

} // verus!
