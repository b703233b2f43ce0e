use voxput::audio::PcmAudio;
use voxput::service::{ControlEffect, RunStep, ServiceRecord};
use voxput::state::DictationState;

fn status(r: &ServiceRecord) -> (String, String, String) {
    r.get_status()
}

fn long_audio() -> PcmAudio {
    PcmAudio { samples: vec![0; 3200], sample_rate: 16000 }
}

#[test]
fn new_record_is_idle_with_empty_status() {
    let r = ServiceRecord::new();
    assert_eq!(status(&r), ("idle".to_string(), String::new(), String::new()));
    assert!(!r.cancel_requested());
}

#[test]
fn too_short_capture_ends_in_error() {
    let mut r = ServiceRecord::new();
    assert_eq!(r.start_recording(), ControlEffect::LaunchRun);
    let audio = PcmAudio { samples: vec![0; 800], sample_rate: 16000 };
    match r.after_capture(&audio) {
        RunStep::Finished(change) => {
            assert_eq!(change.state, DictationState::Error);
            assert_eq!(change.transcript, "");
        }
        RunStep::Transcribe(_) => panic!("short audio must not be transcribed"),
    }
    assert_eq!(
        status(&r),
        (
            "error".to_string(),
            String::new(),
            "Recording too short (0.050s); hold longer before releasing".to_string()
        )
    );
}

#[test]
fn start_then_stop_runs_to_idle_with_transcript() {
    let mut r = ServiceRecord::new();
    assert_eq!(r.start_recording(), ControlEffect::LaunchRun);
    assert_eq!(r.notice().state, DictationState::Recording);
    assert_eq!(r.stop_recording(), ControlEffect::CancelRun);
    assert!(r.cancel_requested());
    assert_eq!(status(&r).0, "recording");
    let bytes = match r.after_capture(&long_audio()) {
        RunStep::Transcribe(b) => b,
        RunStep::Finished(_) => panic!("capture should go on to transcription"),
    };
    assert_eq!(bytes.len(), 44 + 3200 * 2);
    assert_eq!(status(&r).0, "transcribing");
    let change = r.finish_transcription(Ok("hello world".to_string()));
    assert_eq!(change.state, DictationState::Idle);
    assert_eq!(change.transcript, "hello world");
    assert_eq!(
        status(&r),
        ("idle".to_string(), "hello world".to_string(), String::new())
    );
}

#[test]
fn second_start_is_a_no_op() {
    let mut r = ServiceRecord::new();
    assert_eq!(r.start_recording(), ControlEffect::LaunchRun);
    let before = status(&r);
    assert_eq!(r.start_recording(), ControlEffect::Unchanged);
    assert_eq!(status(&r), before);
    // Also while transcribing, with an outcome from an earlier cycle kept.
    r.after_capture(&long_audio());
    r.finish_transcription(Ok("earlier".to_string()));
    r.start_recording();
    r.after_capture(&long_audio());
    let before = status(&r);
    assert_eq!(r.start_recording(), ControlEffect::Unchanged);
    assert_eq!(status(&r), before);
    assert_eq!(status(&r).1, "earlier");
}

#[test]
fn stop_outside_recording_changes_nothing() {
    let mut r = ServiceRecord::new();
    assert_eq!(r.stop_recording(), ControlEffect::Unchanged);
    assert!(!r.cancel_requested());
    assert_eq!(r.state(), DictationState::Idle);
    r.start_recording();
    r.after_capture(&long_audio());
    assert_eq!(r.stop_recording(), ControlEffect::Unchanged);
    assert!(!r.cancel_requested());
    assert_eq!(r.state(), DictationState::Transcribing);
}

#[test]
fn repeated_stop_is_idempotent() {
    let mut r = ServiceRecord::new();
    r.start_recording();
    assert_eq!(r.stop_recording(), ControlEffect::CancelRun);
    assert_eq!(r.stop_recording(), ControlEffect::Unchanged);
    assert!(r.cancel_requested());
    assert_eq!(r.state(), DictationState::Recording);
}

#[test]
fn toggle_dispatches_on_state() {
    let mut a = ServiceRecord::new();
    let mut b = ServiceRecord::new();
    assert_eq!(a.toggle(), b.start_recording());
    assert_eq!(status(&a), status(&b));
    assert_eq!(a.toggle(), ControlEffect::CancelRun);
    assert!(a.cancel_requested());
    a.after_capture(&long_audio());
    let before = status(&a);
    assert_eq!(a.toggle(), ControlEffect::Unchanged);
    assert_eq!(status(&a), before);
}

#[test]
fn toggle_from_error_starts_a_fresh_run() {
    let mut r = ServiceRecord::new();
    r.start_recording();
    r.fail_run("Audio error: stream died".to_string());
    assert_eq!(r.state(), DictationState::Error);
    assert_eq!(r.toggle(), ControlEffect::LaunchRun);
    assert_eq!(status(&r), ("recording".to_string(), String::new(), String::new()));
    assert!(!r.cancel_requested());
}

#[test]
fn provider_failure_ends_in_error() {
    let mut r = ServiceRecord::new();
    r.start_recording();
    r.after_capture(&long_audio());
    let change = r.finish_transcription(Err("HTTP 401 Unauthorized".to_string()));
    assert_eq!(change.state, DictationState::Error);
    assert_eq!(
        status(&r),
        ("error".to_string(), String::new(), "HTTP 401 Unauthorized".to_string())
    );
}

#[test]
fn failure_with_empty_reason_gets_generic_reason() {
    let mut r = ServiceRecord::new();
    r.start_recording();
    let change = r.fail_run(String::new());
    assert_eq!(change.state, DictationState::Error);
    assert_eq!(status(&r).2, "dictation run failed");
}

#[test]
fn failure_keeps_last_transcript_and_success_clears_error() {
    let mut r = ServiceRecord::new();
    r.start_recording();
    r.after_capture(&long_audio());
    r.finish_transcription(Ok("first".to_string()));
    r.start_recording();
    r.fail_run("device gone".to_string());
    assert_eq!(
        status(&r),
        ("error".to_string(), "first".to_string(), "device gone".to_string())
    );
    r.start_recording();
    r.after_capture(&long_audio());
    r.finish_transcription(Ok("second".to_string()));
    assert_eq!(status(&r), ("idle".to_string(), "second".to_string(), String::new()));
}
