use vstd::prelude::*;
use crate::audio::{too_short, too_short_text, PcmAudio};
use crate::state::{
    error_matches_state, state_name, step, DictationEvent, DictationState, DictationStateMachine, EventModel,
    MachineModel,
};
use crate::wav::{encodable, encode_wav, oversize_text, wav_bytes};

verus! {

/// What a control operation asks of the process that hosts the service.
#[derive(Debug, Clone, Copy, PartialEq, Eq, Structural)]
pub enum ControlEffect {
    /// Nothing changed.
    Unchanged,
    /// A run was accepted: clear the cancellation flag, tell observers that
    /// recording began, and launch one pipeline run.
    LaunchRun,
    /// Raise the active run's cancellation flag.
    CancelRun,
}

/// An observable change to broadcast: the state and, when a cycle has just
/// completed, its transcript (empty otherwise).
#[derive(Debug, Clone)]
pub struct StateChange {
    pub state: DictationState,
    pub transcript: String,
}

impl View for StateChange {
    type V = (DictationState, Seq<char>);

    open spec fn view(&self) -> (DictationState, Seq<char>) {
        (self.state, self.transcript@)
    }
}

/// What the pipeline runner does after the capture.
#[derive(Debug)]
pub enum RunStep {
    /// The service is now transcribing: broadcast it and send these bytes to
    /// the transcription provider.
    Transcribe(Vec<u8>),
    /// The run has ended; broadcast this change.
    Finished(StateChange),
}

/// Abstract contents of the service record.
pub struct RecordModel {
    pub machine: MachineModel,
    /// The active run's cancellation flag.
    pub cancel: bool,
}

pub open spec fn text_or_empty(o: Option<Seq<char>>) -> Seq<char> {
    match o {
        Some(t) => t,
        None => Seq::empty(),
    }
}

/// `(state, last_transcript, last_error)` as reported to callers.
pub open spec fn status_model(r: RecordModel) -> (Seq<char>, Seq<char>, Seq<char>) {
    (
        state_name(r.machine.state),
        text_or_empty(r.machine.last_transcript),
        text_or_empty(r.machine.last_error),
    )
}

/// The change observers are told of for a record: the transcript is carried
/// only once a cycle has completed and the service is idle.
pub open spec fn notice_model(r: RecordModel) -> (DictationState, Seq<char>) {
    if r.machine.state == DictationState::Idle {
        (r.machine.state, text_or_empty(r.machine.last_transcript))
    } else {
        (r.machine.state, Seq::empty())
    }
}

pub open spec fn busy(r: RecordModel) -> bool {
    r.machine.state == DictationState::Recording || r.machine.state == DictationState::Transcribing
}

pub open spec fn start_model(r: RecordModel) -> RecordModel {
    if busy(r) {
        r
    } else {
        let m = if r.machine.state == DictationState::Error {
            step(r.machine, EventModel::Reset)
        } else {
            r.machine
        };
        RecordModel { machine: step(m, EventModel::StartRecording), cancel: false }
    }
}

pub open spec fn start_effect(r: RecordModel) -> ControlEffect {
    if busy(r) {
        ControlEffect::Unchanged
    } else {
        ControlEffect::LaunchRun
    }
}

pub open spec fn stop_model(r: RecordModel) -> RecordModel {
    if r.machine.state == DictationState::Recording {
        RecordModel { cancel: true, ..r }
    } else {
        r
    }
}

pub open spec fn stop_effect(r: RecordModel) -> ControlEffect {
    if r.machine.state == DictationState::Recording && !r.cancel {
        ControlEffect::CancelRun
    } else {
        ControlEffect::Unchanged
    }
}

pub open spec fn toggle_model(r: RecordModel) -> RecordModel {
    match r.machine.state {
        DictationState::Idle | DictationState::Error => start_model(r),
        DictationState::Recording => stop_model(r),
        DictationState::Transcribing => r,
    }
}

pub open spec fn toggle_effect(r: RecordModel) -> ControlEffect {
    match r.machine.state {
        DictationState::Idle | DictationState::Error => start_effect(r),
        DictationState::Recording => stop_effect(r),
        DictationState::Transcribing => ControlEffect::Unchanged,
    }
}

/// Reason given for a failure that came without any text.
pub open spec fn generic_failure_text() -> Seq<char> {
    "dictation run failed"@
}

/// The reason recorded for a failure: the given one, or the generic one in
/// its place when it is empty.
pub open spec fn failure_reason(reason: Seq<char>) -> Seq<char> {
    if reason.len() == 0 {
        generic_failure_text()
    } else {
        reason
    }
}

/// A run that failed: the service is in `Error` with the reason recorded and
/// the last transcript kept.
pub open spec fn fail_model(r: RecordModel, reason: Seq<char>) -> RecordModel {
    RecordModel {
        machine: MachineModel {
            state: DictationState::Error,
            last_error: Some(failure_reason(reason)),
            last_transcript: r.machine.last_transcript,
        },
        cancel: r.cancel,
    }
}

/// The record once the capture of `samples` at `rate` is in hand: a failure
/// under the duration floor or beyond what the encoder takes, `Transcribing`
/// otherwise.
pub open spec fn capture_model(r: RecordModel, samples: Seq<i16>, rate: u32) -> RecordModel {
    if too_short(samples.len(), rate as nat) {
        fail_model(r, too_short_text(samples.len(), rate as nat))
    } else if !encodable(samples.len(), rate as nat) {
        fail_model(r, "Audio error: "@ + oversize_text())
    } else {
        RecordModel { machine: step(r.machine, EventModel::StopRecording), ..r }
    }
}

/// The record once the transcription provider has answered with a text or a
/// failure reason.
pub open spec fn finish_model(r: RecordModel, outcome: Result<Seq<char>, Seq<char>>) -> RecordModel {
    match outcome {
        Ok(text) => RecordModel {
            machine: step(r.machine, EventModel::TranscriptionComplete(text)),
            ..r
        },
        Err(reason) => fail_model(r, reason),
    }
}

pub open spec fn result_view(o: Result<String, String>) -> Result<Seq<char>, Seq<char>> {
    match o {
        Ok(t) => Ok(t@),
        Err(e) => Err(e@),
    }
}

/// The long-lived record of a dictation service: the state machine, which
/// holds the last transcript and the last error, and the active run's
/// cancellation flag.
pub struct ServiceRecord {
    machine: DictationStateMachine,
    cancel_requested: bool,
}

impl View for ServiceRecord {
    type V = RecordModel;

    closed spec fn view(&self) -> RecordModel {
        RecordModel { machine: self.machine@, cancel: self.cancel_requested }
    }
}

impl ServiceRecord {
    /// A record in `Idle`, with no outcome and no cancellation.
    pub fn new() -> (r: Self)
        ensures
            r@ == (RecordModel {
                machine: MachineModel {
                    state: DictationState::Idle,
                    last_error: None,
                    last_transcript: None,
                },
                cancel: false,
            }),
    {
        ServiceRecord { machine: DictationStateMachine::new(), cancel_requested: false }
    }

    pub fn state(&self) -> (r: DictationState)
        ensures
            r == self@.machine.state,
    {
        self.machine.state()
    }

    /// Whether the active run has been asked to stop recording.
    pub fn cancel_requested(&self) -> (r: bool)
        ensures
            r == self@.cancel,
    {
        self.cancel_requested
    }

    /// `(state, last_transcript, last_error)`, empty strings for absent values.
    pub fn get_status(&self) -> (r: (String, String, String))
        ensures
            (r.0@, r.1@, r.2@) == status_model(self@),
    {
        let state = String::from_str(self.machine.state().as_str());
        let transcript = match self.machine.last_transcript() {
            Some(t) => String::from_str(t),
            None => String::new(),
        };
        let error = match self.machine.last_error() {
            Some(e) => String::from_str(e),
            None => String::new(),
        };
        (state, transcript, error)
    }

    /// The change that observers are to be told of for the current record.
    pub fn notice(&self) -> (r: StateChange)
        ensures
            r@ == notice_model(self@),
    {
        let state = self.machine.state();
        let transcript = if state == DictationState::Idle {
            match self.machine.last_transcript() {
                Some(t) => String::from_str(t),
                None => String::new(),
            }
        } else {
            String::new()
        };
        StateChange { state, transcript }
    }

    /// Starts a run unless one is active. From `Error` the machine is reset
    /// first; the cancellation flag is cleared.
    pub fn start_recording(&mut self) -> (r: ControlEffect)
        ensures
            final(self)@ == start_model(old(self)@),
            r == start_effect(old(self)@),
    {
        let state = self.machine.state();
        if state == DictationState::Recording || state == DictationState::Transcribing {
            return ControlEffect::Unchanged;
        }
        if state == DictationState::Error {
            self.machine.handle(DictationEvent::Reset);
        }
        self.machine.handle(DictationEvent::StartRecording);
        self.cancel_requested = false;
        ControlEffect::LaunchRun
    }

    /// Asks the active run to stop recording. Only the flag changes; the
    /// run itself moves the machine on.
    pub fn stop_recording(&mut self) -> (r: ControlEffect)
        ensures
            final(self)@ == stop_model(old(self)@),
            r == stop_effect(old(self)@),
    {
        if self.machine.state() == DictationState::Recording {
            let already = self.cancel_requested;
            self.cancel_requested = true;
            if already {
                ControlEffect::Unchanged
            } else {
                ControlEffect::CancelRun
            }
        } else {
            ControlEffect::Unchanged
        }
    }

    /// Starts a run from `Idle` or `Error`, stops the recording from
    /// `Recording`, and does nothing while transcribing.
    pub fn toggle(&mut self) -> (r: ControlEffect)
        ensures
            final(self)@ == toggle_model(old(self)@),
            r == toggle_effect(old(self)@),
    {
        match self.machine.state() {
            DictationState::Idle | DictationState::Error => self.start_recording(),
            DictationState::Recording => self.stop_recording(),
            DictationState::Transcribing => ControlEffect::Unchanged,
        }
    }

    /// Ends the run in `Error` with `reason` recorded (a generic reason when
    /// it is empty), whatever step it had reached. The machine is driven
    /// there by legal transitions only.
    pub fn fail_run(&mut self, reason: String) -> (r: StateChange)
        ensures
            final(self)@ == fail_model(old(self)@, reason@),
            r@ == notice_model(final(self)@),
    {
        let reason = if reason.as_str().is_empty() {
            String::from_str("dictation run failed")
        } else {
            reason
        };
        if self.machine.state() == DictationState::Error {
            self.machine.handle(DictationEvent::Reset);
        }
        if self.machine.state() == DictationState::Idle {
            self.machine.handle(DictationEvent::StartRecording);
        }
        if self.machine.state() == DictationState::Recording {
            self.machine.handle(DictationEvent::StopRecording);
        }
        self.machine.handle(DictationEvent::TranscriptionFailed(reason));
        self.notice()
    }

    /// Takes the captured audio: fails the run when it is under the duration
    /// floor or cannot be encoded, and otherwise moves to `Transcribing` and
    /// hands back the encoded bytes to transcribe.
    pub fn after_capture(&mut self, audio: &PcmAudio) -> (r: RunStep)
        ensures
            final(self)@ == capture_model(old(self)@, audio.samples@, audio.sample_rate),
            match r {
                RunStep::Transcribe(bytes) => !too_short(
                    audio.samples@.len(),
                    audio.sample_rate as nat,
                ) && encodable(audio.samples@.len(), audio.sample_rate as nat) && bytes@
                    == wav_bytes(audio.samples@, audio.sample_rate),
                RunStep::Finished(change) => (too_short(
                    audio.samples@.len(),
                    audio.sample_rate as nat,
                ) || !encodable(audio.samples@.len(), audio.sample_rate as nat)) && change@
                    == notice_model(final(self)@),
            },
    {
        if audio.is_too_short() {
            let reason = audio.too_short_reason();
            return RunStep::Finished(self.fail_run(reason));
        }
        match encode_wav(audio) {
            Ok(bytes) => {
                self.machine.handle(DictationEvent::StopRecording);
                RunStep::Transcribe(bytes)
            },
            Err(e) => {
                let reason = e.message();
                RunStep::Finished(self.fail_run(reason))
            },
        }
    }

    /// Takes the provider's answer: the text completes the cycle, a failure
    /// reason ends the run in `Error`.
    pub fn finish_transcription(&mut self, outcome: Result<String, String>) -> (r: StateChange)
        ensures
            final(self)@ == finish_model(old(self)@, result_view(outcome)),
            r@ == notice_model(final(self)@),
    {
        match outcome {
            Ok(text) => {
                self.machine.handle(DictationEvent::TranscriptionComplete(text));
                self.notice()
            },
            Err(reason) => self.fail_run(reason),
        }
    }
}

/// The status as a user reads it: the state, then the transcript and the
/// error on lines of their own where they are not empty.
pub open spec fn status_report_text(state: Seq<char>, transcript: Seq<char>, error: Seq<char>) -> Seq<
    char,
> {
    "state:      "@ + state + (if transcript.len() > 0 {
        "\ntranscript: "@ + transcript
    } else {
        Seq::empty()
    }) + (if error.len() > 0 {
        "\nerror:      "@ + error
    } else {
        Seq::empty()
    })
}

/// Formats a status triple for a terminal, one field per line, leaving out
/// an empty transcript or error.
pub fn status_report(state: &str, transcript: &str, error: &str) -> (r: String)
    ensures
        r@ == status_report_text(state@, transcript@, error@),
{
    let mut text = String::from_str("state:      ").concat(state);
    if !transcript.is_empty() {
        text.append("\ntranscript: ");
        text.append(transcript);
    }
    if !error.is_empty() {
        text.append("\nerror:      ");
        text.append(error);
    }
    assert(text@ =~= status_report_text(state@, transcript@, error@));
    text
}

/// A second start before the first run has completed changes nothing: at
/// most one of the two calls launches a run, and the second keeps the last
/// transcript and the last error as the first left them.
pub proof fn lemma_start_twice(r: RecordModel)
    ensures
        busy(start_model(r)),
        start_model(start_model(r)) == start_model(r),
        start_effect(start_model(r)) == ControlEffect::Unchanged,
{
}

/// A stop while idle or transcribing changes neither the state nor the
/// cancellation flag, and asks nothing of the host.
pub proof fn lemma_stop_outside_recording(r: RecordModel)
    requires
        r.machine.state == DictationState::Idle || r.machine.state
            == DictationState::Transcribing,
    ensures
        stop_model(r) == r,
        stop_effect(r) == ControlEffect::Unchanged,
{
}

/// A toggle from `Idle` is a start, from `Recording` a stop, and from
/// `Transcribing` nothing at all.
pub proof fn lemma_toggle_dispatch(r: RecordModel)
    ensures
        r.machine.state == DictationState::Idle ==> toggle_model(r) == start_model(r)
            && toggle_effect(r) == start_effect(r),
        r.machine.state == DictationState::Recording ==> toggle_model(r) == stop_model(r)
            && toggle_effect(r) == stop_effect(r),
        r.machine.state == DictationState::Transcribing ==> toggle_model(r) == r && toggle_effect(r)
            == ControlEffect::Unchanged,
{
}

/// A run that records long enough, encodes, and gets a text back ends in
/// `Idle` with that text as the last transcript and no error; while it
/// transcribes, no control operation disturbs it.
pub proof fn lemma_successful_run(r: RecordModel, samples: Seq<i16>, rate: u32, text: Seq<char>)
    requires
        r.machine.state == DictationState::Recording,
        !too_short(samples.len(), rate as nat),
        encodable(samples.len(), rate as nat),
    ensures
        capture_model(r, samples, rate).machine.state == DictationState::Transcribing,
        start_model(capture_model(r, samples, rate)) == capture_model(r, samples, rate),
        stop_model(capture_model(r, samples, rate)) == capture_model(r, samples, rate),
        toggle_model(capture_model(r, samples, rate)) == capture_model(r, samples, rate),
        finish_model(capture_model(r, samples, rate), Ok(text)).machine == (MachineModel {
            state: DictationState::Idle,
            last_error: None,
            last_transcript: Some(text),
        }),
        status_model(finish_model(capture_model(r, samples, rate), Ok(text))) == (
            "idle"@,
            text,
            Seq::<char>::empty(),
        ),
{
}

/// A run that fails, at whatever step, ends in `Error` with a non-empty
/// error recorded, never in `Recording` or `Transcribing`.
pub proof fn lemma_failing_run(
    r: RecordModel,
    samples: Seq<i16>,
    rate: u32,
    reason: Seq<char>,
)
    requires
        busy(r),
    ensures
        fail_model(r, reason).machine.state == DictationState::Error,
        text_or_empty(fail_model(r, reason).machine.last_error).len() > 0,
        r.machine.state == DictationState::Recording && (too_short(samples.len(), rate as nat)
            || !encodable(samples.len(), rate as nat)) ==> {
            &&& capture_model(r, samples, rate).machine.state == DictationState::Error
            &&& text_or_empty(capture_model(r, samples, rate).machine.last_error).len() > 0
        },
        r.machine.state == DictationState::Transcribing ==> {
            &&& finish_model(r, Err(reason)).machine.state == DictationState::Error
            &&& text_or_empty(finish_model(r, Err(reason)).machine.last_error).len() > 0
        },
{
    reveal_strlit("dictation run failed");
    reveal_strlit("Recording too short (");
    reveal_strlit("Audio error: ");
}

/// While a run is active its cancellation flag only ever rises: no control
/// operation lowers it, and the pipeline steps leave it as it is.
pub proof fn lemma_cancel_flag_monotonic(
    r: RecordModel,
    samples: Seq<i16>,
    rate: u32,
    outcome: Result<Seq<char>, Seq<char>>,
    reason: Seq<char>,
)
    requires
        busy(r),
    ensures
        r.cancel ==> start_model(r).cancel && stop_model(r).cancel && toggle_model(r).cancel,
        capture_model(r, samples, rate).cancel == r.cancel,
        finish_model(r, outcome).cancel == r.cancel,
        fail_model(r, reason).cancel == r.cancel,
{
}

/// Every operation of the service keeps a failure reason recorded exactly
/// while the state is `Error`.
pub proof fn lemma_operations_keep_error_with_state(
    r: RecordModel,
    samples: Seq<i16>,
    rate: u32,
    outcome: Result<Seq<char>, Seq<char>>,
    reason: Seq<char>,
)
    requires
        error_matches_state(r.machine),
    ensures
        error_matches_state(start_model(r).machine),
        error_matches_state(stop_model(r).machine),
        error_matches_state(toggle_model(r).machine),
        error_matches_state(capture_model(r, samples, rate).machine),
        error_matches_state(finish_model(r, outcome).machine),
        error_matches_state(fail_model(r, reason).machine),
{
}

} // verus!
