//! The session coordinator: the single authority over the recording /
//! transcription session lifecycle.
//!
//! Trigger sources run concurrently and deliver press/release edges in no
//! particular order. Every transition here is guarded by the current state,
//! never by event arrival order, so an event that has no valid transition in
//! the state it finds is ignored rather than queued. Callers wrap the
//! coordinator in a short-held lock (one lock acquisition per transition) and
//! perform the side effects the returned decision asks for outside the lock.

use vstd::prelude::*;

verus! {

/// Lifecycle of the coordinator: exactly one session is ever in flight, and
/// its phase is the coordinator's whole state.
#[derive(Clone, Copy, Debug, PartialEq, Eq, Structural)]
pub enum SessionState {
    Idle,
    Recording,
    Transcribing,
    Processing,
}

/// How press/release edges of a transcription binding are interpreted.
///
/// The mode is a read-only snapshot taken when each event is handled, so it
/// is a parameter of every event, not a field of the coordinator.
#[derive(Clone, Copy, Debug, PartialEq, Eq, Structural)]
pub enum Mode {
    PushToTalk,
    Toggle,
}

/// Which independent producer a trigger event came from.
#[derive(Clone, Copy, Debug, PartialEq, Eq, Structural)]
pub enum TriggerSource {
    Hotkey,
    Signal,
}

/// One trigger event: constructed by a trigger source, consumed once by the
/// coordinator's caller, not retained.
pub struct TriggerEvent {
    /// The logical binding the event belongs to (for example "transcribe").
    pub binding_id: String,
    /// The concrete shortcut or signal that produced the event.
    pub token: String,
    /// Press edge (`true`) or release edge (`false`).
    pub pressed: bool,
    /// Which independent producer delivered it.
    pub source: TriggerSource,
}

/// What the coordinator asks its caller to do after a transcription trigger
/// event. The session id in the capture commands tags the asynchronous
/// completion events for that session.
#[derive(Clone, Copy, Debug, PartialEq, Eq, Structural)]
pub enum InputAction {
    /// Begin audio capture and show the "recording" overlay.
    StartCapture { session: u64 },
    /// Stop audio capture, show the "transcribing" overlay, and invoke
    /// transcription on the captured samples, tagged with this session id.
    StopCapture { session: u64 },
    /// The event had no valid transition in the state it found; drop it.
    Ignored,
}

/// What became of a delivered transcription result.
#[derive(Clone, Copy, Debug, PartialEq, Eq, Structural)]
pub enum ResultDisposition {
    /// The result belongs to the current session: show the "processing"
    /// overlay and run the output step.
    Applied,
    /// The result belongs to the current session but reported failure:
    /// report it, hide the overlay, the session is over.
    Failed,
    /// The result is stale (its session was cancelled or superseded, or no
    /// transcription is awaited): discard it.
    Discarded,
}

/// The coordinator's abstract state: the session phase and the id of the
/// most recently started session.
pub struct CoordinatorModel {
    pub state: SessionState,
    pub session: u64,
}

/// The id the next session will get.
pub open spec fn next_session_id(s: u64) -> u64 {
    if s == u64::MAX {
        0
    } else {
        (s + 1) as u64
    }
}

/// Transition for one transcription trigger edge.
///
/// A press while idle starts a session in either mode. Push-to-talk stops on
/// the release edge; toggle stops on the next press and ignores releases
/// altogether, so auto-repeat or duplicate releases cannot toggle twice.
/// Everything else, including any edge arriving while a session is already
/// past recording, is ignored.
pub open spec fn spec_transcribe_input(m: CoordinatorModel, pressed: bool, mode: Mode) -> (
    CoordinatorModel,
    InputAction,
) {
    if pressed && m.state is Idle {
        (
            CoordinatorModel { state: SessionState::Recording, session: next_session_id(m.session) },
            InputAction::StartCapture { session: next_session_id(m.session) },
        )
    } else if m.state is Recording && ((mode is PushToTalk && !pressed) || (mode is Toggle
        && pressed)) {
        (
            CoordinatorModel { state: SessionState::Transcribing, session: m.session },
            InputAction::StopCapture { session: m.session },
        )
    } else {
        (m, InputAction::Ignored)
    }
}

/// Transition for the cancel command: it fires only on a press while
/// recording; the cancelled session's audio is discarded, never transcribed.
pub open spec fn spec_cancel(m: CoordinatorModel, pressed: bool) -> (CoordinatorModel, bool) {
    if pressed && m.state is Recording {
        (CoordinatorModel { state: SessionState::Idle, session: m.session }, true)
    } else {
        (m, false)
    }
}

/// Transition for the process-wide cancellation helper's report of whether a
/// recording was actually interrupted.
pub open spec fn spec_notify_cancel(m: CoordinatorModel, recording_was_active: bool) -> CoordinatorModel {
    if recording_was_active && m.state is Recording {
        CoordinatorModel { state: SessionState::Idle, session: m.session }
    } else {
        m
    }
}

/// Transition for a capture failure report: a failed capture start or stop
/// aborts the attempted session and returns to idle. Reports for a session
/// other than the current one are ignored.
pub open spec fn spec_capture_failed(m: CoordinatorModel, session: u64) -> CoordinatorModel {
    if session == m.session && (m.state is Recording || m.state is Transcribing) {
        CoordinatorModel { state: SessionState::Idle, session: m.session }
    } else {
        m
    }
}

/// Transition for an asynchronously delivered transcription result.
///
/// Only a result for the session currently awaited is applied; a stale
/// result, whose session was cancelled or superseded since its recording
/// stopped, is discarded rather than applied to the current state. Success
/// moves to the processing phase; failure ends the session.
pub open spec fn spec_transcription_result(m: CoordinatorModel, session: u64, success: bool) -> (
    CoordinatorModel,
    ResultDisposition,
) {
    if m.state is Transcribing && session == m.session {
        if success {
            (
                CoordinatorModel { state: SessionState::Processing, session: m.session },
                ResultDisposition::Applied,
            )
        } else {
            (
                CoordinatorModel { state: SessionState::Idle, session: m.session },
                ResultDisposition::Failed,
            )
        }
    } else {
        (m, ResultDisposition::Discarded)
    }
}

/// Transition for the end of the output step: whatever its outcome, the
/// session is over. Reports for another session are ignored.
pub open spec fn spec_processing_done(m: CoordinatorModel, session: u64) -> CoordinatorModel {
    if m.state is Processing && session == m.session {
        CoordinatorModel { state: SessionState::Idle, session: m.session }
    } else {
        m
    }
}

/// The session coordinator. Its fields are reachable only through the
/// transition methods, so every caller goes through the guarded
/// state checks; there is no raw write access to the state.
pub struct Coordinator {
    state: SessionState,
    session: u64,
}

impl View for Coordinator {
    type V = CoordinatorModel;

    closed spec fn view(&self) -> CoordinatorModel {
        CoordinatorModel { state: self.state, session: self.session }
    }
}

impl Coordinator {
    /// A fresh coordinator: idle, with no session started yet.
    pub fn new() -> (c: Coordinator)
        ensures
            c@.state is Idle,
            c@.session == 0,
    {
        Coordinator { state: SessionState::Idle, session: 0 }
    }

    /// The current session phase.
    pub fn state(&self) -> (s: SessionState)
        ensures
            s == self@.state,
    {
        self.state
    }

    /// The id of the most recently started session.
    pub fn current_session(&self) -> (s: u64)
        ensures
            s == self@.session,
    {
        self.session
    }

    /// Handle one press/release edge of a transcription binding, in the mode
    /// current at the event's arrival, and decide what the caller must do.
    pub fn handle_transcribe_input(&mut self, pressed: bool, mode: Mode) -> (a: InputAction)
        ensures
            (final(self)@, a) == spec_transcribe_input(old(self)@, pressed, mode),
    {
        if pressed && matches!(self.state, SessionState::Idle) {
            self.session = if self.session == u64::MAX {
                0
            } else {
                self.session + 1
            };
            self.state = SessionState::Recording;
            InputAction::StartCapture { session: self.session }
        } else if matches!(self.state, SessionState::Recording) && (match mode {
            Mode::PushToTalk => !pressed,
            Mode::Toggle => pressed,
        }) {
            self.state = SessionState::Transcribing;
            InputAction::StopCapture { session: self.session }
        } else {
            InputAction::Ignored
        }
    }

    /// Handle the cancel command. Returns whether the cancel fired; when it
    /// did, the caller aborts capture (discarding the buffered audio), hides
    /// the overlay, restores the idle tray icon, and optionally unloads the
    /// model.
    pub fn handle_cancel(&mut self, pressed: bool) -> (fired: bool)
        ensures
            (final(self)@, fired) == spec_cancel(old(self)@, pressed),
    {
        if pressed && matches!(self.state, SessionState::Recording) {
            self.state = SessionState::Idle;
            true
        } else {
            false
        }
    }

    /// Reconcile the session state after the process-wide cancellation
    /// helper ran: if it interrupted an active recording, that session is
    /// over.
    pub fn notify_cancel(&mut self, recording_was_active: bool)
        ensures
            final(self)@ == spec_notify_cancel(old(self)@, recording_was_active),
    {
        if recording_was_active && matches!(self.state, SessionState::Recording) {
            self.state = SessionState::Idle;
        }
    }

    /// Report that starting or stopping capture failed for the given
    /// session: the attempted session is aborted back to idle.
    pub fn capture_failed(&mut self, session: u64)
        ensures
            final(self)@ == spec_capture_failed(old(self)@, session),
    {
        if session == self.session && (matches!(self.state, SessionState::Recording) || matches!(
            self.state,
            SessionState::Transcribing,
        )) {
            self.state = SessionState::Idle;
        }
    }

    /// Deliver the result of the transcription invoked for `session`.
    pub fn transcription_result(&mut self, session: u64, success: bool) -> (d: ResultDisposition)
        ensures
            (final(self)@, d) == spec_transcription_result(old(self)@, session, success),
    {
        if matches!(self.state, SessionState::Transcribing) && session == self.session {
            if success {
                self.state = SessionState::Processing;
                ResultDisposition::Applied
            } else {
                self.state = SessionState::Idle;
                ResultDisposition::Failed
            }
        } else {
            ResultDisposition::Discarded
        }
    }

    /// Report that the output step for `session` finished, successfully or
    /// not: the session is over.
    pub fn processing_done(&mut self, session: u64)
        ensures
            final(self)@ == spec_processing_done(old(self)@, session),
    {
        if matches!(self.state, SessionState::Processing) && session == self.session {
            self.state = SessionState::Idle;
        }
    }
}

/// The label the overlay shows for a session phase; `None` hides it.
pub fn overlay_label(state: SessionState) -> (r: Option<&'static str>)
    ensures
        state is Recording ==> (r matches Some(l) && l@ == "recording"@),
        state is Transcribing ==> (r matches Some(l) && l@ == "transcribing"@),
        state is Processing ==> (r matches Some(l) && l@ == "processing"@),
        state is Idle ==> r is None,
{
    match state {
        SessionState::Idle => None,
        SessionState::Recording => Some("recording"),
        SessionState::Transcribing => Some("transcribing"),
        SessionState::Processing => Some("processing"),
    }
}

/// One press/release edge as the coordinator receives it: the edge and the
/// mode snapshot taken at its arrival (settings may change between events).
/// The binding id and source ride along so that the laws below quantify
/// over interleavings from any number of distinct bindings and sources; the
/// transition itself depends only on the edge and the mode, as its
/// definition shows.
pub struct InputEvent {
    pub binding_id: Seq<char>,
    pub source: TriggerSource,
    pub pressed: bool,
    pub mode: Mode,
}

/// The coordinator after a whole sequence of transcription trigger events.
pub open spec fn spec_input_run(m: CoordinatorModel, evs: Seq<InputEvent>) -> CoordinatorModel
    decreases evs.len(),
{
    if evs.len() == 0 {
        m
    } else {
        spec_input_run(spec_transcribe_input(m, evs[0].pressed, evs[0].mode).0, evs.drop_first())
    }
}

/// How many recording sessions the coordinator has active.
pub open spec fn active_recordings(m: CoordinatorModel) -> nat {
    if m.state is Recording {
        1
    } else {
        0
    }
}

/// Across any interleaving of press/release events from any number of
/// transcription bindings (the router sends every transcription binding's
/// edges to this one coordinator), at most one recording session is active
/// at any point: capture is started only by the single guarded
/// idle-to-recording transition, so of two racing starts the second finds
/// `Recording` already set and does not start capture.
pub proof fn lemma_at_most_one_active_recording(
    m: CoordinatorModel,
    evs: Seq<InputEvent>,
    i: int,
)
    requires
        0 <= i < evs.len(),
    ensures
        active_recordings(spec_input_run(m, evs.take(i))) <= 1,
        spec_transcribe_input(
            spec_input_run(m, evs.take(i)),
            evs[i].pressed,
            evs[i].mode,
        ).1 is StartCapture ==> spec_input_run(m, evs.take(i)).state is Idle,
        spec_input_run(m, evs.take(i)).state is Recording ==> !(spec_transcribe_input(
            spec_input_run(m, evs.take(i)),
            evs[i].pressed,
            evs[i].mode,
        ).1 is StartCapture),
{
}

/// A transcription outcome delivered for the current session, followed by
/// the end of the output step where the outcome was a success.
pub open spec fn spec_settle(m: CoordinatorModel, success: bool) -> CoordinatorModel {
    let m1 = spec_transcription_result(m, m.session, success).0;
    if success {
        spec_processing_done(m1, m1.session)
    } else {
        m1
    }
}

/// One toggle-mode press; if it stopped a recording, the stopped session's
/// transcription then settles with the given outcome.
pub open spec fn spec_toggle_press_and_settle(m: CoordinatorModel, success: bool) -> CoordinatorModel {
    let m1 = spec_transcribe_input(m, true, Mode::Toggle).0;
    if m1.state is Transcribing {
        spec_settle(m1, success)
    } else {
        m1
    }
}

/// A sequence of toggle-mode presses, each stopped session settling (with
/// the outcome recorded for it) before the next press arrives.
pub open spec fn spec_toggle_press_run(m: CoordinatorModel, outcomes: Seq<bool>) -> CoordinatorModel
    decreases outcomes.len(),
{
    if outcomes.len() == 0 {
        m
    } else {
        spec_toggle_press_run(spec_toggle_press_and_settle(m, outcomes[0]), outcomes.drop_first())
    }
}

proof fn lemma_toggle_alternation_general(m: CoordinatorModel, outcomes: Seq<bool>)
    requires
        m.state is Idle || m.state is Recording,
    ensures
        ({
            let start: int = if m.state is Recording {
                1
            } else {
                0
            };
            &&& (start + outcomes.len()) % 2 == 0 ==> spec_toggle_press_run(m, outcomes).state is Idle
            &&& (start + outcomes.len()) % 2 == 1 ==> spec_toggle_press_run(
                m,
                outcomes,
            ).state is Recording
        }),
    decreases outcomes.len(),
{
    if outcomes.len() > 0 {
        lemma_toggle_alternation_general(spec_toggle_press_and_settle(m, outcomes[0]), outcomes.drop_first());
    }
}

/// In toggle mode, presses strictly alternate the session: starting idle, a
/// sequence of N presses (each stopped session's transcription settling, with
/// either outcome, before the next press) leaves the coordinator recording
/// exactly when N is odd, and release edges never change the state at all.
pub proof fn lemma_toggle_alternation(m: CoordinatorModel, outcomes: Seq<bool>)
    requires
        m.state is Idle,
    ensures
        outcomes.len() % 2 == 0 ==> spec_toggle_press_run(m, outcomes).state is Idle,
        outcomes.len() % 2 == 1 ==> spec_toggle_press_run(m, outcomes).state is Recording,
        forall|any: CoordinatorModel, mode: Mode|
            mode is Toggle ==> #[trigger] spec_transcribe_input(any, false, mode) == (
                any,
                InputAction::Ignored,
            ),
{
    lemma_toggle_alternation_general(m, outcomes);
}

/// In push-to-talk mode, a release that finds no active recording (no prior
/// matching press reached the recording state) produces no transition.
pub proof fn lemma_release_without_recording_is_noop(m: CoordinatorModel)
    requires
        !(m.state is Recording),
    ensures
        spec_transcribe_input(m, false, Mode::PushToTalk) == (m, InputAction::Ignored),
{
}

/// Cancel is a no-op unless the coordinator is recording; a fired cancel
/// ends in idle, and the cancelled session's audio is never transcribed: the
/// cancel transition issues no capture-stop, and a transcription result
/// delivered to the now-idle coordinator is discarded, not applied.
pub proof fn lemma_cancel_safety(m: CoordinatorModel, pressed: bool, session: u64, success: bool)
    ensures
        !(pressed && m.state is Recording) ==> spec_cancel(m, pressed) == (m, false),
        (pressed && m.state is Recording) ==> spec_cancel(m, pressed).1 && spec_cancel(
            m,
            pressed,
        ).0.state is Idle,
        spec_cancel(m, pressed).1 ==> spec_transcription_result(
            spec_cancel(m, pressed).0,
            session,
            success,
        ) == ((spec_cancel(m, pressed).0, ResultDisposition::Discarded)),
{
}

/// Every way out of the transcribing and processing phases ends in idle,
/// whether the transcription succeeded or failed: the state machine is never
/// left stuck past the recording phase.
pub proof fn lemma_no_stuck_states(m: CoordinatorModel, success: bool)
    requires
        m.state is Transcribing,
    ensures
        spec_settle(m, success).state is Idle,
        !success ==> spec_transcription_result(m, m.session, success).0.state is Idle,
        success ==> spec_transcription_result(m, m.session, success).0.state is Processing
            && spec_processing_done(
            spec_transcription_result(m, m.session, success).0,
            m.session,
        ).state is Idle,
{
}

} // verus!
