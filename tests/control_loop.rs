use sherpa_rs_next::control::{step, LoopAction, LoopEvent, LoopState, PipelineError};

#[test]
fn disconnected_queue_stops_within_one_iteration() {
    let (state, action) = step(LoopState::Running, LoopEvent::Disconnected);
    assert_eq!(state, LoopState::Stopped);
    assert_eq!(action, LoopAction::Halt);
    assert!(!PipelineError::QueueDisconnected.is_fatal());
}

#[test]
fn cancellation_drains_then_stops() {
    let (state, action) = step(LoopState::Running, LoopEvent::Cancelled);
    assert_eq!((state, action), (LoopState::Draining, LoopAction::Flush));
    let (state, action) = step(state, LoopEvent::Chunk);
    assert_eq!((state, action), (LoopState::Stopped, LoopAction::Halt));
    assert_eq!(step(state, LoopEvent::Chunk), (LoopState::Stopped, LoopAction::Halt));
}

#[test]
fn chunk_is_processed_and_empty_queue_sleeps() {
    assert_eq!(step(LoopState::Running, LoopEvent::Chunk), (LoopState::Running, LoopAction::Process));
    assert_eq!(step(LoopState::Running, LoopEvent::Empty), (LoopState::Running, LoopAction::Sleep));
}

#[test]
fn only_startup_failures_are_fatal() {
    assert!(PipelineError::DeviceUnavailable.is_fatal());
    assert!(PipelineError::StreamConfiguration.is_fatal());
    assert!(!PipelineError::RecognitionFailure.is_fatal());
    assert!(!PipelineError::SegmentExtraction.is_fatal());
    assert_eq!(
        step(LoopState::Running, LoopEvent::Failed(PipelineError::StreamConfiguration)),
        (LoopState::Stopped, LoopAction::Halt)
    );
    assert_eq!(
        step(LoopState::Running, LoopEvent::Failed(PipelineError::RecognitionFailure)),
        (LoopState::Running, LoopAction::Continue)
    );
    assert_eq!(
        step(LoopState::Running, LoopEvent::Failed(PipelineError::SegmentExtraction)),
        (LoopState::Running, LoopAction::Continue)
    );
}
