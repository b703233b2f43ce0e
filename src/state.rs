use vstd::prelude::*;

verus! {

/// Lifecycle of one dictation cycle.
#[derive(Debug, Clone, Copy, PartialEq, Eq, Structural)]
pub enum DictationState {
    Idle,
    Recording,
    Transcribing,
    Error,
}

/// The external name of a state, as reported over the service boundary.
pub open spec fn state_name(s: DictationState) -> Seq<char> {
    match s {
        DictationState::Idle => "idle"@,
        DictationState::Recording => "recording"@,
        DictationState::Transcribing => "transcribing"@,
        DictationState::Error => "error"@,
    }
}

impl DictationState {
    /// Lower-case name of the state: `idle`, `recording`, `transcribing` or `error`.
    pub fn as_str(&self) -> (r: &'static str)
        ensures
            r@ == state_name(*self),
    {
        match self {
            DictationState::Idle => "idle",
            DictationState::Recording => "recording",
            DictationState::Transcribing => "transcribing",
            DictationState::Error => "error",
        }
    }
}

/// The only inputs that move a [`DictationStateMachine`].
#[derive(Debug, Clone)]
pub enum DictationEvent {
    StartRecording,
    StopRecording,
    TranscriptionComplete(String),
    TranscriptionFailed(String),
    Reset,
}

/// Abstract form of an event, its text as a sequence of characters.
pub enum EventModel {
    StartRecording,
    StopRecording,
    TranscriptionComplete(Seq<char>),
    TranscriptionFailed(Seq<char>),
    Reset,
}

impl View for DictationEvent {
    type V = EventModel;

    open spec fn view(&self) -> EventModel {
        match self {
            DictationEvent::StartRecording => EventModel::StartRecording,
            DictationEvent::StopRecording => EventModel::StopRecording,
            DictationEvent::TranscriptionComplete(t) => EventModel::TranscriptionComplete(t@),
            DictationEvent::TranscriptionFailed(r) => EventModel::TranscriptionFailed(r@),
            DictationEvent::Reset => EventModel::Reset,
        }
    }
}

/// The transition table: `Some(next)` for a listed combination of state and
/// event, `None` for every combination that is ignored.
pub open spec fn table_next(s: DictationState, e: EventModel) -> Option<DictationState> {
    match e {
        EventModel::StartRecording => if s == DictationState::Idle {
            Some(DictationState::Recording)
        } else {
            None
        },
        EventModel::StopRecording => if s == DictationState::Recording {
            Some(DictationState::Transcribing)
        } else {
            None
        },
        EventModel::TranscriptionComplete(_) => if s == DictationState::Transcribing {
            Some(DictationState::Idle)
        } else {
            None
        },
        EventModel::TranscriptionFailed(_) => if s == DictationState::Transcribing {
            Some(DictationState::Error)
        } else {
            None
        },
        EventModel::Reset => Some(DictationState::Idle),
    }
}

/// Abstract contents of a machine: its state and the outcome of the last cycle.
pub struct MachineModel {
    pub state: DictationState,
    pub last_error: Option<Seq<char>>,
    pub last_transcript: Option<Seq<char>>,
}

/// What one event does to a machine, side effects included.
pub open spec fn step(m: MachineModel, e: EventModel) -> MachineModel {
    match table_next(m.state, e) {
        None => m,
        Some(next) => match e {
            EventModel::TranscriptionComplete(text) => MachineModel {
                state: next,
                last_error: None,
                last_transcript: Some(text),
            },
            EventModel::TranscriptionFailed(reason) => MachineModel {
                state: next,
                last_error: Some(reason),
                last_transcript: m.last_transcript,
            },
            EventModel::Reset => MachineModel {
                state: next,
                last_error: None,
                last_transcript: m.last_transcript,
            },
            _ => MachineModel { state: next, ..m },
        },
    }
}

/// The machine after the events of `events`, applied in order.
pub open spec fn replay(m: MachineModel, events: Seq<EventModel>) -> MachineModel
    decreases events.len(),
{
    if events.len() == 0 {
        m
    } else {
        step(replay(m, events.drop_last()), events.last())
    }
}

pub open spec fn opt_string_view(o: Option<String>) -> Option<Seq<char>> {
    match o {
        Some(s) => Some(s@),
        None => None,
    }
}

pub open spec fn opt_str_view(o: Option<&str>) -> Option<Seq<char>> {
    match o {
        Some(s) => Some(s@),
        None => None,
    }
}

/// Finite-state machine of the dictation lifecycle.
pub struct DictationStateMachine {
    state: DictationState,
    last_error: Option<String>,
    last_transcript: Option<String>,
}

impl View for DictationStateMachine {
    type V = MachineModel;

    closed spec fn view(&self) -> MachineModel {
        MachineModel {
            state: self.state,
            last_error: opt_string_view(self.last_error),
            last_transcript: opt_string_view(self.last_transcript),
        }
    }
}

impl Default for DictationStateMachine {
    fn default() -> (r: Self)
        ensures
            r@ == (MachineModel { state: DictationState::Idle, last_error: None, last_transcript: None }),
    {
        DictationStateMachine::new()
    }
}

impl DictationStateMachine {
    /// A machine in `Idle`, with no outcome recorded.
    pub fn new() -> (r: Self)
        ensures
            r@ == (MachineModel { state: DictationState::Idle, last_error: None, last_transcript: None }),
    {
        DictationStateMachine { state: DictationState::Idle, last_error: None, last_transcript: None }
    }

    pub fn state(&self) -> (r: DictationState)
        ensures
            r == self@.state,
    {
        self.state
    }

    /// Reason of the last failure, until a reset or a successful cycle clears it.
    pub fn last_error(&self) -> (r: Option<&str>)
        ensures
            opt_str_view(r) == self@.last_error,
    {
        match &self.last_error {
            Some(e) => Some(e.as_str()),
            None => None,
        }
    }

    /// Text of the last successful cycle.
    pub fn last_transcript(&self) -> (r: Option<&str>)
        ensures
            opt_str_view(r) == self@.last_transcript,
    {
        match &self.last_transcript {
            Some(t) => Some(t.as_str()),
            None => None,
        }
    }

    /// Applies one event and returns the resulting state. Combinations that the
    /// transition table does not list are ignored and change nothing.
    pub fn handle(&mut self, event: DictationEvent) -> (r: DictationState)
        ensures
            final(self)@ == step(old(self)@, event@),
            r == final(self)@.state,
    {
        match event {
            DictationEvent::StartRecording => {
                if self.state == DictationState::Idle {
                    self.state = DictationState::Recording;
                }
            },
            DictationEvent::StopRecording => {
                if self.state == DictationState::Recording {
                    self.state = DictationState::Transcribing;
                }
            },
            DictationEvent::TranscriptionComplete(text) => {
                if self.state == DictationState::Transcribing {
                    self.last_transcript = Some(text);
                    self.last_error = None;
                    self.state = DictationState::Idle;
                }
            },
            DictationEvent::TranscriptionFailed(reason) => {
                if self.state == DictationState::Transcribing {
                    self.last_error = Some(reason);
                    self.state = DictationState::Error;
                }
            },
            DictationEvent::Reset => {
                self.last_error = None;
                self.state = DictationState::Idle;
            },
        }
        self.state
    }
}

/// Every event moves the machine exactly as the transition table says: a
/// listed combination of state and event goes to the listed state, and every
/// other combination leaves the whole machine as it was.
pub proof fn lemma_step_follows_table(m: MachineModel, e: EventModel)
    ensures
        table_next(m.state, e) is Some ==> step(m, e).state == table_next(m.state, e)->Some_0,
        table_next(m.state, e) is None ==> step(m, e) == m,
{
}

/// Whether `after` is what the transition table makes of `before` under `e`:
/// the listed state for a listed combination, the unchanged machine otherwise.
pub open spec fn follows_table(before: MachineModel, e: EventModel, after: MachineModel) -> bool {
    match table_next(before.state, e) {
        Some(next) => after.state == next,
        None => after == before,
    }
}

/// Over any sequence of events, each event in turn moves the state as the
/// transition table says, and an event outside the table changes nothing.
pub proof fn lemma_replay_follows_table(m: MachineModel, events: Seq<EventModel>)
    ensures
        forall|i: int|
            0 <= i < events.len() ==> #[trigger] follows_table(
                replay(m, events.take(i)),
                events[i],
                replay(m, events.take(i + 1)),
            ),
{
    assert forall|i: int| 0 <= i < events.len() implies #[trigger] follows_table(
        replay(m, events.take(i)),
        events[i],
        replay(m, events.take(i + 1)),
    ) by {
        let pre = events.take(i + 1);
        assert(pre.drop_last() =~= events.take(i));
        assert(pre.last() == events[i]);
        assert(replay(m, pre) == step(replay(m, pre.drop_last()), pre.last()));
        lemma_step_follows_table(replay(m, events.take(i)), events[i]);
    }
}

/// `Reset` leads from any state to `Idle` with no recorded error, keeps the
/// last transcript, and a second `Reset` changes nothing more.
pub proof fn lemma_reset_idempotent(m: MachineModel)
    ensures
        step(m, EventModel::Reset) == (MachineModel {
            state: DictationState::Idle,
            last_error: None,
            last_transcript: m.last_transcript,
        }),
        step(step(m, EventModel::Reset), EventModel::Reset) == step(m, EventModel::Reset),
{
}

/// A failure reason is recorded exactly while the machine is in `Error`.
pub open spec fn error_matches_state(m: MachineModel) -> bool {
    (m.state == DictationState::Error) == (m.last_error is Some)
}

/// Every event keeps a recorded failure reason tied to the `Error` state;
/// a new machine starts that way.
pub proof fn lemma_step_keeps_error_with_state(m: MachineModel, e: EventModel)
    requires
        error_matches_state(m),
    ensures
        error_matches_state(step(m, e)),
{
}

} // verus!
