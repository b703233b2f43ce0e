use voxput::state::{DictationEvent, DictationState, DictationStateMachine};

#[test]
fn starts_idle() {
    let sm = DictationStateMachine::new();
    assert_eq!(sm.state(), DictationState::Idle);
}

#[test]
fn idle_to_recording() {
    let mut sm = DictationStateMachine::new();
    let s = sm.handle(DictationEvent::StartRecording);
    assert_eq!(s, DictationState::Recording);
}

#[test]
fn recording_to_transcribing() {
    let mut sm = DictationStateMachine::new();
    sm.handle(DictationEvent::StartRecording);
    let s = sm.handle(DictationEvent::StopRecording);
    assert_eq!(s, DictationState::Transcribing);
}

#[test]
fn transcription_complete_returns_to_idle() {
    let mut sm = DictationStateMachine::new();
    sm.handle(DictationEvent::StartRecording);
    sm.handle(DictationEvent::StopRecording);
    let s = sm.handle(DictationEvent::TranscriptionComplete("hello".into()));
    assert_eq!(s, DictationState::Idle);
    assert_eq!(sm.last_transcript(), Some("hello"));
}

#[test]
fn transcription_failed_goes_to_error() {
    let mut sm = DictationStateMachine::new();
    sm.handle(DictationEvent::StartRecording);
    sm.handle(DictationEvent::StopRecording);
    let s = sm.handle(DictationEvent::TranscriptionFailed("oops".into()));
    assert_eq!(s, DictationState::Error);
    assert_eq!(sm.last_error(), Some("oops"));
}

#[test]
fn reset_from_any_state() {
    let mut sm = DictationStateMachine::new();
    sm.handle(DictationEvent::StartRecording);
    sm.handle(DictationEvent::StopRecording);
    sm.handle(DictationEvent::TranscriptionFailed("err".into()));
    assert_eq!(sm.state(), DictationState::Error);
    let s = sm.handle(DictationEvent::Reset);
    assert_eq!(s, DictationState::Idle);
    assert!(sm.last_error().is_none());
}

#[test]
fn invalid_transition_does_not_panic() {
    let mut sm = DictationStateMachine::new();
    // StopRecording from Idle is not in the table: ignored.
    let s = sm.handle(DictationEvent::StopRecording);
    assert_eq!(s, DictationState::Idle);
}

#[test]
fn ignored_events_leave_everything_unchanged() {
    let mut sm = DictationStateMachine::new();
    sm.handle(DictationEvent::StartRecording);
    sm.handle(DictationEvent::StopRecording);
    sm.handle(DictationEvent::TranscriptionComplete("first".into()));
    // Idle: only StartRecording and Reset are listed.
    assert_eq!(sm.handle(DictationEvent::TranscriptionComplete("x".into())), DictationState::Idle);
    assert_eq!(sm.handle(DictationEvent::TranscriptionFailed("y".into())), DictationState::Idle);
    assert_eq!(sm.last_transcript(), Some("first"));
    assert_eq!(sm.last_error(), None);
    // Recording: a second start and a completion are ignored.
    sm.handle(DictationEvent::StartRecording);
    assert_eq!(sm.handle(DictationEvent::StartRecording), DictationState::Recording);
    assert_eq!(sm.handle(DictationEvent::TranscriptionComplete("z".into())), DictationState::Recording);
    assert_eq!(sm.last_transcript(), Some("first"));
    // Error: StartRecording is ignored, only Reset leaves.
    sm.handle(DictationEvent::StopRecording);
    sm.handle(DictationEvent::TranscriptionFailed("bad".into()));
    assert_eq!(sm.handle(DictationEvent::StartRecording), DictationState::Error);
    assert_eq!(sm.handle(DictationEvent::StopRecording), DictationState::Error);
    assert_eq!(sm.last_error(), Some("bad"));
}

#[test]
fn reset_twice_is_same_as_once() {
    let mut sm = DictationStateMachine::new();
    sm.handle(DictationEvent::StartRecording);
    sm.handle(DictationEvent::StopRecording);
    sm.handle(DictationEvent::TranscriptionComplete("kept".into()));
    sm.handle(DictationEvent::StartRecording);
    sm.handle(DictationEvent::StopRecording);
    sm.handle(DictationEvent::TranscriptionFailed("boom".into()));
    assert_eq!(sm.handle(DictationEvent::Reset), DictationState::Idle);
    assert_eq!(sm.last_error(), None);
    assert_eq!(sm.handle(DictationEvent::Reset), DictationState::Idle);
    assert_eq!(sm.last_error(), None);
    assert_eq!(sm.last_transcript(), Some("kept"));
}

#[test]
fn completion_overwrites_transcript_and_clears_error() {
    let mut sm = DictationStateMachine::new();
    for text in ["one", "two"] {
        sm.handle(DictationEvent::StartRecording);
        sm.handle(DictationEvent::StopRecording);
        sm.handle(DictationEvent::TranscriptionComplete(text.into()));
    }
    assert_eq!(sm.last_transcript(), Some("two"));
    assert_eq!(sm.last_error(), None);
}

#[test]
fn state_names() {
    assert_eq!(DictationState::Idle.as_str(), "idle");
    assert_eq!(DictationState::Recording.as_str(), "recording");
    assert_eq!(DictationState::Transcribing.as_str(), "transcribing");
    assert_eq!(DictationState::Error.as_str(), "error");
}

#[test]
fn default_machine_is_new_machine() {
    let sm = DictationStateMachine::default();
    assert_eq!(sm.state(), DictationState::Idle);
    assert_eq!(sm.last_error(), None);
    assert_eq!(sm.last_transcript(), None);
}
