use vstd::prelude::*;

use crate::flow::{FlowState, is_terminal_state};
use crate::stats::{FlowTaskStats, flow_stats_of, parse_flow_stats};
use crate::store::{Span, StateUpdate, span_nanos, span_total_nanos};
use crate::text::{ascii_lower, concat2, to_ascii_lower, trim, trim_str};

verus! {

// ---------------------------------------------------------------------------
// The PlayMode test flow as a state machine
//
// The flow that runs a task alternates work outside the library (store writes, queries to the
// Unity editor, sleeps) with decisions. `flow_step` makes the decisions: given the stage the
// flow is in and what the last piece of outside work gave, it says the next stage and the next
// piece of work.
//
// The flow reads the cancellation flag only at its checks; a cancellation stored between two
// checks can be overwritten by the flow's next progress note, as the flow is written.
// ---------------------------------------------------------------------------

/// What the Unity test runner reports while PlayMode tests run.
#[derive(Debug)]
pub struct PlayModeStatus {
    pub state: String,
    pub summary: String,
    pub error: String,
}

/// Where the flow stands, waiting for the outcome of the work it last asked for.
#[derive(Debug)]
pub enum FlowStage {
    Begin,
    MarkRunning,
    Connecting,
    ReconnectNotice,
    ReconnectClock,
    ReconnectCancelCheck,
    ReconnectDeadline,
    ReconnectWait,
    ReconnectProbe,
    Precompile,
    PrecompileCancelCheck,
    Compiling,
    Launch,
    LaunchCancelCheck,
    Launching,
    AwaitNotice,
    PollClock,
    PollCancelCheck,
    PollDeadline,
    PollWait,
    Polling,
    PollErrorProbe(String),
    PollReconnectNotice,
    Concluding,
    Aborting,
    Finished,
}

/// What a piece of outside work gave.
#[derive(Debug)]
pub enum FlowEvent {
    /// Whether the task is marked cancelled in the store.
    Cancelled(bool),
    /// Whether a store write succeeded.
    Written(bool),
    /// Whether the Unity editor is connected.
    Connection(bool),
    /// The time since the flow's clock was started.
    Clock(Span),
    /// A sleep, a clock start or a cancel request to the test runner has completed.
    Done,
    /// The result of a recompile or of starting the tests.
    Outcome(Result<(), String>),
    /// The test runner's status, or why it could not be read.
    Status(Result<PlayModeStatus, String>),
}

/// The next piece of outside work.
#[derive(Debug)]
pub enum FlowAction {
    /// Read whether the task was cancelled; answer `Cancelled`.
    CheckCancelled,
    /// Apply this update to the task's record and store it; answer `Written`.
    Write(StateUpdate),
    /// Ask whether the Unity editor is connected; answer `Connection`.
    QueryConnection,
    /// Start the flow's clock; answer `Done`.
    StartClock,
    /// Read the time since the clock started; answer `Clock`.
    ReadClock,
    /// Sleep this many milliseconds; answer `Done`.
    Sleep(u64),
    /// Recompile the project and wait; answer `Outcome`.
    Recompile,
    /// Start the PlayMode tests; answer `Outcome`.
    StartTests,
    /// Ask the test runner to cancel the tests; answer `Done`.
    CancelTests,
    /// Read the test runner's status; answer `Status`.
    PollStatus,
    /// The flow is over.
    Stop,
}

// ---------------------------------------------------------------------------
// Views
// ---------------------------------------------------------------------------

pub struct UpdateView {
    pub state: FlowState,
    pub step_index: u32,
    pub detail: Option<Seq<char>>,
    pub last_error: Option<Seq<char>>,
    pub stats: Option<FlowTaskStats>,
}

impl View for StateUpdate {
    type V = UpdateView;

    open spec fn view(&self) -> UpdateView {
        UpdateView {
            state: self.state,
            step_index: self.step_index,
            detail: self.detail.deep_view(),
            last_error: self.last_error.deep_view(),
            stats: self.stats,
        }
    }
}

pub struct StatusView {
    pub state: Seq<char>,
    pub summary: Seq<char>,
    pub error: Seq<char>,
}

impl View for PlayModeStatus {
    type V = StatusView;

    open spec fn view(&self) -> StatusView {
        StatusView { state: self.state@, summary: self.summary@, error: self.error@ }
    }
}

pub enum StageView {
    Begin,
    MarkRunning,
    Connecting,
    ReconnectNotice,
    ReconnectClock,
    ReconnectCancelCheck,
    ReconnectDeadline,
    ReconnectWait,
    ReconnectProbe,
    Precompile,
    PrecompileCancelCheck,
    Compiling,
    Launch,
    LaunchCancelCheck,
    Launching,
    AwaitNotice,
    PollClock,
    PollCancelCheck,
    PollDeadline,
    PollWait,
    Polling,
    PollErrorProbe(Seq<char>),
    PollReconnectNotice,
    Concluding,
    Aborting,
    Finished,
}

impl View for FlowStage {
    type V = StageView;

    open spec fn view(&self) -> StageView {
        match self {
            FlowStage::Begin => StageView::Begin,
            FlowStage::MarkRunning => StageView::MarkRunning,
            FlowStage::Connecting => StageView::Connecting,
            FlowStage::ReconnectNotice => StageView::ReconnectNotice,
            FlowStage::ReconnectClock => StageView::ReconnectClock,
            FlowStage::ReconnectCancelCheck => StageView::ReconnectCancelCheck,
            FlowStage::ReconnectDeadline => StageView::ReconnectDeadline,
            FlowStage::ReconnectWait => StageView::ReconnectWait,
            FlowStage::ReconnectProbe => StageView::ReconnectProbe,
            FlowStage::Precompile => StageView::Precompile,
            FlowStage::PrecompileCancelCheck => StageView::PrecompileCancelCheck,
            FlowStage::Compiling => StageView::Compiling,
            FlowStage::Launch => StageView::Launch,
            FlowStage::LaunchCancelCheck => StageView::LaunchCancelCheck,
            FlowStage::Launching => StageView::Launching,
            FlowStage::AwaitNotice => StageView::AwaitNotice,
            FlowStage::PollClock => StageView::PollClock,
            FlowStage::PollCancelCheck => StageView::PollCancelCheck,
            FlowStage::PollDeadline => StageView::PollDeadline,
            FlowStage::PollWait => StageView::PollWait,
            FlowStage::Polling => StageView::Polling,
            FlowStage::PollErrorProbe(e) => StageView::PollErrorProbe(e@),
            FlowStage::PollReconnectNotice => StageView::PollReconnectNotice,
            FlowStage::Concluding => StageView::Concluding,
            FlowStage::Aborting => StageView::Aborting,
            FlowStage::Finished => StageView::Finished,
        }
    }
}

pub enum EventView {
    Cancelled(bool),
    Written(bool),
    Connection(bool),
    Clock(Span),
    Done,
    Outcome(Result<(), Seq<char>>),
    Status(Result<StatusView, Seq<char>>),
}

impl View for FlowEvent {
    type V = EventView;

    open spec fn view(&self) -> EventView {
        match self {
            FlowEvent::Cancelled(b) => EventView::Cancelled(*b),
            FlowEvent::Written(b) => EventView::Written(*b),
            FlowEvent::Connection(b) => EventView::Connection(*b),
            FlowEvent::Clock(s) => EventView::Clock(*s),
            FlowEvent::Done => EventView::Done,
            FlowEvent::Outcome(r) => EventView::Outcome(
                match r {
                    Ok(()) => Ok(()),
                    Err(e) => Err(e@),
                },
            ),
            FlowEvent::Status(r) => EventView::Status(
                match r {
                    Ok(s) => Ok(s@),
                    Err(e) => Err(e@),
                },
            ),
        }
    }
}

pub enum ActionView {
    CheckCancelled,
    Write(UpdateView),
    QueryConnection,
    StartClock,
    ReadClock,
    Sleep(u64),
    Recompile,
    StartTests,
    CancelTests,
    PollStatus,
    Stop,
}

impl View for FlowAction {
    type V = ActionView;

    open spec fn view(&self) -> ActionView {
        match self {
            FlowAction::CheckCancelled => ActionView::CheckCancelled,
            FlowAction::Write(u) => ActionView::Write(u@),
            FlowAction::QueryConnection => ActionView::QueryConnection,
            FlowAction::StartClock => ActionView::StartClock,
            FlowAction::ReadClock => ActionView::ReadClock,
            FlowAction::Sleep(ms) => ActionView::Sleep(*ms),
            FlowAction::Recompile => ActionView::Recompile,
            FlowAction::StartTests => ActionView::StartTests,
            FlowAction::CancelTests => ActionView::CancelTests,
            FlowAction::PollStatus => ActionView::PollStatus,
            FlowAction::Stop => ActionView::Stop,
        }
    }
}

// ---------------------------------------------------------------------------
// The transition relation
// ---------------------------------------------------------------------------

/// How long the flow waits for the editor to reconnect before the tests: 45 s.
pub open spec fn reconnect_limit_nanos() -> int {
    45_000_000_000
}

/// How long the flow waits for the tests to finish: 1800 s.
pub open spec fn test_limit_nanos() -> int {
    1_800_000_000_000
}

/// A progress note: the new state and step with a detail, no error and no statistics.
pub open spec fn note(state: FlowState, step_index: u32, detail: Seq<char>) -> ActionView {
    ActionView::Write(
        UpdateView { state, step_index, detail: Some(detail), last_error: None, stats: None },
    )
}

/// A failure at `step_index` with a detail and an error.
pub open spec fn failure(step_index: u32, detail: Seq<char>, error: Seq<char>) -> ActionView {
    ActionView::Write(
        UpdateView {
            state: FlowState::Failed,
            step_index,
            detail: Some(detail),
            last_error: Some(error),
            stats: None,
        },
    )
}

/// The runner's status word: its state trimmed and in lower case.
pub open spec fn status_word(s: StatusView) -> Seq<char> {
    ascii_lower(trim(s.state))
}

/// The detail of a successful run.
pub open spec fn finished_detail(summary: Seq<char>) -> Seq<char> {
    if trim(summary).len() == 0 {
        "PlayMode tests finished"@
    } else {
        "PlayMode tests finished: "@ + trim(summary)
    }
}

/// The error recorded for failed tests: the runner's error, or its summary where the error
/// is blank.
pub open spec fn failed_error(s: StatusView) -> Seq<char> {
    if trim(s.error).len() == 0 {
        s.summary
    } else {
        s.error
    }
}

/// What the flow does with a status the runner reported.
pub open spec fn on_status(s: StatusView) -> (StageView, ActionView) {
    let word = status_word(s);
    if word == "finished"@ {
        let stats = flow_stats_of(s.summary);
        if stats matches Some(st) && st.failed > 0 {
            (
                StageView::Concluding,
                ActionView::Write(
                    UpdateView {
                        state: FlowState::Failed,
                        step_index: 5,
                        detail: Some("PlayMode tests completed with failures"@),
                        last_error: Some(s.summary),
                        stats,
                    },
                ),
            )
        } else {
            (
                StageView::Concluding,
                ActionView::Write(
                    UpdateView {
                        state: FlowState::Succeeded,
                        step_index: 5,
                        detail: Some(finished_detail(s.summary)),
                        last_error: None,
                        stats,
                    },
                ),
            )
        }
    } else if word == "failed"@ {
        (
            StageView::Concluding,
            ActionView::Write(
                UpdateView {
                    state: FlowState::Failed,
                    step_index: 5,
                    detail: Some("PlayMode tests failed"@),
                    last_error: Some(failed_error(s)),
                    stats: flow_stats_of(failed_error(s)),
                },
            ),
        )
    } else if word == "cancelled"@ {
        (StageView::Concluding, note(FlowState::Cancelled, 5, "PlayMode tests cancelled"@))
    } else {
        // "running", and any status the flow does not know, mean: keep polling.
        (StageView::PollCancelCheck, ActionView::CheckCancelled)
    }
}

/// The flow's next stage and work, given its stage and what the last work gave. A pairing
/// that the flow never produces ends it.
pub open spec fn flow_transition(stage: StageView, event: EventView) -> (StageView, ActionView) {
    match (stage, event) {
        (StageView::Begin, EventView::Cancelled(c)) => if c {
            (StageView::Finished, ActionView::Stop)
        } else {
            (
                StageView::MarkRunning,
                note(FlowState::Running, 1, "Checking Unity connection"@),
            )
        },
        (StageView::MarkRunning, EventView::Written(ok)) => if ok {
            (StageView::Connecting, ActionView::QueryConnection)
        } else {
            (StageView::Finished, ActionView::Stop)
        },
        (StageView::Connecting, EventView::Connection(c)) => if c {
            (StageView::Precompile, note(FlowState::Running, 2, "Pre-compile before test run"@))
        } else {
            (
                StageView::ReconnectNotice,
                note(FlowState::WaitingReconnect, 1, "Unity disconnected, waiting for reconnect"@),
            )
        },
        (StageView::ReconnectNotice, EventView::Written(_)) => (
            StageView::ReconnectClock,
            ActionView::StartClock,
        ),
        (StageView::ReconnectClock, EventView::Done) => (
            StageView::ReconnectCancelCheck,
            ActionView::CheckCancelled,
        ),
        (StageView::ReconnectCancelCheck, EventView::Cancelled(c)) => if c {
            (StageView::Finished, ActionView::Stop)
        } else {
            (StageView::ReconnectDeadline, ActionView::ReadClock)
        },
        (StageView::ReconnectDeadline, EventView::Clock(t)) => if span_nanos(t)
            > reconnect_limit_nanos() {
            (
                StageView::Concluding,
                failure(1, "Reconnect timeout"@, "Unity did not reconnect within 45s"@),
            )
        } else {
            (StageView::ReconnectWait, ActionView::Sleep(500))
        },
        (StageView::ReconnectWait, EventView::Done) => (
            StageView::ReconnectProbe,
            ActionView::QueryConnection,
        ),
        (StageView::ReconnectProbe, EventView::Connection(c)) => if c {
            (StageView::Precompile, note(FlowState::Running, 2, "Pre-compile before test run"@))
        } else {
            (StageView::ReconnectCancelCheck, ActionView::CheckCancelled)
        },
        (StageView::Precompile, EventView::Written(_)) => (
            StageView::PrecompileCancelCheck,
            ActionView::CheckCancelled,
        ),
        (StageView::PrecompileCancelCheck, EventView::Cancelled(c)) => if c {
            (StageView::Finished, ActionView::Stop)
        } else {
            (StageView::Compiling, ActionView::Recompile)
        },
        (StageView::Compiling, EventView::Outcome(r)) => match r {
            Ok(()) => (
                StageView::Launch,
                note(FlowState::Running, 3, "Starting Unity PlayMode tests"@),
            ),
            Err(e) => (StageView::Concluding, failure(2, "Recompile failed"@, e)),
        },
        (StageView::Launch, EventView::Written(_)) => (
            StageView::LaunchCancelCheck,
            ActionView::CheckCancelled,
        ),
        (StageView::LaunchCancelCheck, EventView::Cancelled(c)) => if c {
            (StageView::Aborting, ActionView::CancelTests)
        } else {
            (StageView::Launching, ActionView::StartTests)
        },
        (StageView::Launching, EventView::Outcome(r)) => match r {
            Ok(()) => (
                StageView::AwaitNotice,
                note(FlowState::Running, 4, "Waiting PlayMode test result"@),
            ),
            Err(e) => (StageView::Concluding, failure(3, "Failed to start PlayMode tests"@, e)),
        },
        (StageView::AwaitNotice, EventView::Written(_)) => (
            StageView::PollClock,
            ActionView::StartClock,
        ),
        (StageView::PollClock, EventView::Done) => (
            StageView::PollCancelCheck,
            ActionView::CheckCancelled,
        ),
        (StageView::PollCancelCheck, EventView::Cancelled(c)) => if c {
            (StageView::Aborting, ActionView::CancelTests)
        } else {
            (StageView::PollDeadline, ActionView::ReadClock)
        },
        (StageView::PollDeadline, EventView::Clock(t)) => if span_nanos(t) > test_limit_nanos() {
            (
                StageView::Concluding,
                failure(
                    4,
                    "PlayMode test timeout"@,
                    "PlayMode tests did not finish within 1800s"@,
                ),
            )
        } else {
            (StageView::PollWait, ActionView::Sleep(2000))
        },
        (StageView::PollWait, EventView::Done) => (StageView::Polling, ActionView::PollStatus),
        (StageView::Polling, EventView::Status(r)) => match r {
            Ok(s) => on_status(s),
            Err(e) => (StageView::PollErrorProbe(e), ActionView::QueryConnection),
        },
        (StageView::PollErrorProbe(e), EventView::Connection(c)) => if c {
            (
                StageView::Concluding,
                failure(4, "Failed to poll PlayMode test status"@, e),
            )
        } else {
            (
                StageView::PollReconnectNotice,
                note(
                    FlowState::WaitingReconnect,
                    4,
                    "Unity disconnected while polling test status"@,
                ),
            )
        },
        (StageView::PollReconnectNotice, EventView::Written(_)) => (
            StageView::PollCancelCheck,
            ActionView::CheckCancelled,
        ),
        _ => (StageView::Finished, ActionView::Stop),
    }
}

// ---------------------------------------------------------------------------
// Executable decisions
// ---------------------------------------------------------------------------

/// A progress note update.
fn note_update(state: FlowState, step_index: u32, detail: &str) -> (r: FlowAction)
    ensures
        r@ == note(state, step_index, detail@),
{
    FlowAction::Write(
        StateUpdate {
            state,
            step_index,
            detail: Some(String::from_str(detail)),
            last_error: None,
            stats: None,
        },
    )
}

/// A failure update.
fn failure_update(step_index: u32, detail: &str, error: String) -> (r: FlowAction)
    ensures
        r@ == failure(step_index, detail@, error@),
{
    FlowAction::Write(
        StateUpdate {
            state: FlowState::Failed,
            step_index,
            detail: Some(String::from_str(detail)),
            last_error: Some(error),
            stats: None,
        },
    )
}

/// Where a flow starts: it first looks whether the task was cancelled before it ran.
pub fn flow_start() -> (r: (FlowStage, FlowAction))
    ensures
        r.0@ == StageView::Begin,
        r.1@ == ActionView::CheckCancelled,
{
    (FlowStage::Begin, FlowAction::CheckCancelled)
}

/// What the flow does with a status the runner reported.
fn status_step(s: PlayModeStatus) -> (r: (FlowStage, FlowAction))
    ensures
        (r.0@, r.1@) == on_status(s@),
{
    let word = to_ascii_lower(trim_str(s.state.as_str()));
    if word == String::from_str("finished") {
        let stats = parse_flow_stats(s.summary.as_str());
        let has_failure = match stats {
            Some(st) => st.failed > 0,
            None => false,
        };
        if has_failure {
            (
                FlowStage::Concluding,
                FlowAction::Write(
                    StateUpdate {
                        state: FlowState::Failed,
                        step_index: 5,
                        detail: Some(String::from_str("PlayMode tests completed with failures")),
                        last_error: Some(s.summary),
                        stats,
                    },
                ),
            )
        } else {
            let trimmed = trim_str(s.summary.as_str());
            let detail = if trimmed.unicode_len() == 0 {
                String::from_str("PlayMode tests finished")
            } else {
                concat2("PlayMode tests finished: ", trimmed)
            };
            (
                FlowStage::Concluding,
                FlowAction::Write(
                    StateUpdate {
                        state: FlowState::Succeeded,
                        step_index: 5,
                        detail: Some(detail),
                        last_error: None,
                        stats,
                    },
                ),
            )
        }
    } else if word == String::from_str("failed") {
        let error = if trim_str(s.error.as_str()).unicode_len() == 0 {
            s.summary
        } else {
            s.error
        };
        let stats = parse_flow_stats(error.as_str());
        (
            FlowStage::Concluding,
            FlowAction::Write(
                StateUpdate {
                    state: FlowState::Failed,
                    step_index: 5,
                    detail: Some(String::from_str("PlayMode tests failed")),
                    last_error: Some(error),
                    stats,
                },
            ),
        )
    } else if word == String::from_str("cancelled") {
        (FlowStage::Concluding, note_update(FlowState::Cancelled, 5, "PlayMode tests cancelled"))
    } else {
        (FlowStage::PollCancelCheck, FlowAction::CheckCancelled)
    }
}

/// The flow's next stage and work, given its stage and what the last work gave.
pub fn flow_step(stage: FlowStage, event: FlowEvent) -> (r: (FlowStage, FlowAction))
    ensures
        (r.0@, r.1@) == flow_transition(stage@, event@),
{
    match (stage, event) {
        (FlowStage::Begin, FlowEvent::Cancelled(c)) => if c {
            (FlowStage::Finished, FlowAction::Stop)
        } else {
            (
                FlowStage::MarkRunning,
                note_update(FlowState::Running, 1, "Checking Unity connection"),
            )
        },
        (FlowStage::MarkRunning, FlowEvent::Written(ok)) => if ok {
            (FlowStage::Connecting, FlowAction::QueryConnection)
        } else {
            (FlowStage::Finished, FlowAction::Stop)
        },
        (FlowStage::Connecting, FlowEvent::Connection(c)) => if c {
            (FlowStage::Precompile, note_update(FlowState::Running, 2, "Pre-compile before test run"))
        } else {
            (
                FlowStage::ReconnectNotice,
                note_update(
                    FlowState::WaitingReconnect,
                    1,
                    "Unity disconnected, waiting for reconnect",
                ),
            )
        },
        (FlowStage::ReconnectNotice, FlowEvent::Written(_)) => (
            FlowStage::ReconnectClock,
            FlowAction::StartClock,
        ),
        (FlowStage::ReconnectClock, FlowEvent::Done) => (
            FlowStage::ReconnectCancelCheck,
            FlowAction::CheckCancelled,
        ),
        (FlowStage::ReconnectCancelCheck, FlowEvent::Cancelled(c)) => if c {
            (FlowStage::Finished, FlowAction::Stop)
        } else {
            (FlowStage::ReconnectDeadline, FlowAction::ReadClock)
        },
        (FlowStage::ReconnectDeadline, FlowEvent::Clock(t)) => if span_total_nanos(t)
            > 45_000_000_000 {
            (
                FlowStage::Concluding,
                failure_update(
                    1,
                    "Reconnect timeout",
                    String::from_str("Unity did not reconnect within 45s"),
                ),
            )
        } else {
            (FlowStage::ReconnectWait, FlowAction::Sleep(500))
        },
        (FlowStage::ReconnectWait, FlowEvent::Done) => (
            FlowStage::ReconnectProbe,
            FlowAction::QueryConnection,
        ),
        (FlowStage::ReconnectProbe, FlowEvent::Connection(c)) => if c {
            (FlowStage::Precompile, note_update(FlowState::Running, 2, "Pre-compile before test run"))
        } else {
            (FlowStage::ReconnectCancelCheck, FlowAction::CheckCancelled)
        },
        (FlowStage::Precompile, FlowEvent::Written(_)) => (
            FlowStage::PrecompileCancelCheck,
            FlowAction::CheckCancelled,
        ),
        (FlowStage::PrecompileCancelCheck, FlowEvent::Cancelled(c)) => if c {
            (FlowStage::Finished, FlowAction::Stop)
        } else {
            (FlowStage::Compiling, FlowAction::Recompile)
        },
        (FlowStage::Compiling, FlowEvent::Outcome(r)) => match r {
            Ok(()) => (
                FlowStage::Launch,
                note_update(FlowState::Running, 3, "Starting Unity PlayMode tests"),
            ),
            Err(e) => (FlowStage::Concluding, failure_update(2, "Recompile failed", e)),
        },
        (FlowStage::Launch, FlowEvent::Written(_)) => (
            FlowStage::LaunchCancelCheck,
            FlowAction::CheckCancelled,
        ),
        (FlowStage::LaunchCancelCheck, FlowEvent::Cancelled(c)) => if c {
            (FlowStage::Aborting, FlowAction::CancelTests)
        } else {
            (FlowStage::Launching, FlowAction::StartTests)
        },
        (FlowStage::Launching, FlowEvent::Outcome(r)) => match r {
            Ok(()) => (
                FlowStage::AwaitNotice,
                note_update(FlowState::Running, 4, "Waiting PlayMode test result"),
            ),
            Err(e) => (
                FlowStage::Concluding,
                failure_update(3, "Failed to start PlayMode tests", e),
            ),
        },
        (FlowStage::AwaitNotice, FlowEvent::Written(_)) => (
            FlowStage::PollClock,
            FlowAction::StartClock,
        ),
        (FlowStage::PollClock, FlowEvent::Done) => (
            FlowStage::PollCancelCheck,
            FlowAction::CheckCancelled,
        ),
        (FlowStage::PollCancelCheck, FlowEvent::Cancelled(c)) => if c {
            (FlowStage::Aborting, FlowAction::CancelTests)
        } else {
            (FlowStage::PollDeadline, FlowAction::ReadClock)
        },
        (FlowStage::PollDeadline, FlowEvent::Clock(t)) => if span_total_nanos(t)
            > 1_800_000_000_000 {
            (
                FlowStage::Concluding,
                failure_update(
                    4,
                    "PlayMode test timeout",
                    String::from_str("PlayMode tests did not finish within 1800s"),
                ),
            )
        } else {
            (FlowStage::PollWait, FlowAction::Sleep(2000))
        },
        (FlowStage::PollWait, FlowEvent::Done) => (FlowStage::Polling, FlowAction::PollStatus),
        (FlowStage::Polling, FlowEvent::Status(r)) => match r {
            Ok(s) => status_step(s),
            Err(e) => (FlowStage::PollErrorProbe(e), FlowAction::QueryConnection),
        },
        (FlowStage::PollErrorProbe(e), FlowEvent::Connection(c)) => if c {
            (
                FlowStage::Concluding,
                failure_update(4, "Failed to poll PlayMode test status", e),
            )
        } else {
            (
                FlowStage::PollReconnectNotice,
                note_update(
                    FlowState::WaitingReconnect,
                    4,
                    "Unity disconnected while polling test status",
                ),
            )
        },
        (FlowStage::PollReconnectNotice, FlowEvent::Written(_)) => (
            FlowStage::PollCancelCheck,
            FlowAction::CheckCancelled,
        ),
        _ => (FlowStage::Finished, FlowAction::Stop),
    }
}

} // verus!

verus! {

// ---------------------------------------------------------------------------
// Laws of the flow
// ---------------------------------------------------------------------------

/// The step of the flow a stage belongs to: 1 checking the connection, 2 recompiling,
/// 3 starting the tests, 4 waiting for their result, 5 done.
pub open spec fn stage_step(s: StageView) -> u32 {
    match s {
        StageView::Begin => 0,
        StageView::MarkRunning | StageView::Connecting | StageView::ReconnectNotice
        | StageView::ReconnectClock | StageView::ReconnectCancelCheck
        | StageView::ReconnectDeadline | StageView::ReconnectWait
        | StageView::ReconnectProbe => 1,
        StageView::Precompile | StageView::PrecompileCancelCheck | StageView::Compiling => 2,
        StageView::Launch | StageView::LaunchCancelCheck | StageView::Launching => 3,
        StageView::AwaitNotice | StageView::PollClock | StageView::PollCancelCheck
        | StageView::PollDeadline | StageView::PollWait | StageView::Polling
        | StageView::PollErrorProbe(_) | StageView::PollReconnectNotice => 4,
        StageView::Concluding | StageView::Aborting | StageView::Finished => 5,
    }
}

/// The step indices the flow writes, in order, when the outside work answers `events`.
pub open spec fn run_writes(s: StageView, events: Seq<EventView>) -> Seq<u32>
    decreases events.len(),
{
    if events.len() == 0 {
        Seq::empty()
    } else {
        let (next, action) = flow_transition(s, events[0]);
        let rest = run_writes(next, events.drop_first());
        match action {
            ActionView::Write(u) => seq![u.step_index] + rest,
            _ => rest,
        }
    }
}

/// The stage the flow is in after the outside work answered `events`.
pub open spec fn run_stage(s: StageView, events: Seq<EventView>) -> StageView
    decreases events.len(),
{
    if events.len() == 0 {
        s
    } else {
        run_stage(flow_transition(s, events[0]).0, events.drop_first())
    }
}

/// Each step of the flow moves it forward or keeps it where it is, and what it writes is a
/// running, waiting or final state at a step between the one it leaves and the one it
/// reaches.
pub proof fn flow_step_moves_forward(s: StageView, e: EventView)
    ensures
        stage_step(s) <= stage_step(flow_transition(s, e).0),
        flow_transition(s, e).1 matches ActionView::Write(u) ==> {
            &&& stage_step(s) <= u.step_index <= stage_step(flow_transition(s, e).0)
            &&& 1 <= u.step_index <= 5
            &&& u.state != FlowState::Queued
        },
{
}

/// Over a whole run, the step index written to the task never goes back, and none is below
/// the step the run started at.
pub proof fn written_steps_never_decrease(s: StageView, events: Seq<EventView>)
    ensures
        forall|i: int| 0 <= i < run_writes(s, events).len() ==> stage_step(s)
            <= #[trigger] run_writes(s, events)[i],
        forall|i: int, j: int|
            0 <= i <= j < run_writes(s, events).len() ==> #[trigger] run_writes(s, events)[i]
                <= #[trigger] run_writes(s, events)[j],
    decreases events.len(),
{
    if events.len() > 0 {
        let (next, action) = flow_transition(s, events[0]);
        let rest = events.drop_first();
        flow_step_moves_forward(s, events[0]);
        written_steps_never_decrease(next, rest);
        let w = run_writes(s, events);
        let rw = run_writes(next, rest);
        match action {
            ActionView::Write(u) => {
                assert(w == seq![u.step_index] + rw);
                assert forall|i: int, j: int| 0 <= i <= j < w.len() implies #[trigger] w[i]
                    <= #[trigger] w[j] by {
                    if i == 0 {
                        if j > 0 {
                            assert(w[j] == rw[j - 1]);
                        }
                    } else {
                        assert(w[i] == rw[i - 1]);
                        assert(w[j] == rw[j - 1]);
                    }
                }
                assert forall|i: int| 0 <= i < w.len() implies stage_step(s) <= #[trigger] w[i] by {
                    if i > 0 {
                        assert(w[i] == rw[i - 1]);
                    }
                }
            },
            _ => {
                assert(w == rw);
            },
        }
    }
}

/// Writing a final state is the last thing the flow does: it then stops, whatever it is told.
pub proof fn final_write_ends_flow(s: StageView, e: EventView, e2: EventView)
    requires
        flow_transition(s, e).1 matches ActionView::Write(u) && is_terminal_state(u.state),
    ensures
        flow_transition(s, e).0 == StageView::Concluding,
        flow_transition(StageView::Concluding, e2) == (StageView::Finished, ActionView::Stop),
{
}

/// Once the flow has seen that the task was cancelled it writes nothing more: it stops, at
/// most after asking the test runner to cancel.
pub proof fn cancellation_stops_flow(s: StageView, e2: EventView)
    ensures
        ({
            let (next, action) = flow_transition(s, EventView::Cancelled(true));
            ||| action == ActionView::Stop && next == StageView::Finished
            ||| action == ActionView::CancelTests && next == StageView::Aborting
        }),
        flow_transition(StageView::Aborting, e2) == (StageView::Finished, ActionView::Stop),
{
}

/// A stopped flow stays stopped and writes nothing, whatever it is told.
pub proof fn finished_flow_is_inert(events: Seq<EventView>)
    ensures
        run_stage(StageView::Finished, events) == StageView::Finished,
        run_writes(StageView::Finished, events) == Seq::<u32>::empty(),
    decreases events.len(),
{
    if events.len() > 0 {
        finished_flow_is_inert(events.drop_first());
    }
}

} // verus!

verus! {

/// `e` is the answer to `a`, where every store write succeeds.
pub open spec fn answers(a: ActionView, e: EventView) -> bool {
    match a {
        ActionView::CheckCancelled => e is Cancelled,
        ActionView::Write(_) => e == EventView::Written(true),
        ActionView::QueryConnection => e is Connection,
        ActionView::StartClock => e == EventView::Done,
        ActionView::ReadClock => e is Clock,
        ActionView::Sleep(_) => e == EventView::Done,
        ActionView::Recompile => e is Outcome,
        ActionView::StartTests => e is Outcome,
        ActionView::CancelTests => e == EventView::Done,
        ActionView::PollStatus => e is Status,
        ActionView::Stop => false,
    }
}

/// A write of a running or waiting state.
pub open spec fn is_progress_write(a: ActionView) -> bool {
    a matches ActionView::Write(u) && !is_terminal_state(u.state)
}

/// A write of a final state.
pub open spec fn is_final_write(a: ActionView) -> bool {
    a matches ActionView::Write(u) && is_terminal_state(u.state)
}

/// `a` is the work the flow asks for when it enters stage `s`.
pub open spec fn pending_ok(s: StageView, a: ActionView) -> bool {
    match s {
        StageView::Begin => a == ActionView::CheckCancelled,
        StageView::MarkRunning => is_progress_write(a),
        StageView::Connecting => a == ActionView::QueryConnection,
        StageView::ReconnectNotice => is_progress_write(a),
        StageView::ReconnectClock => a == ActionView::StartClock,
        StageView::ReconnectCancelCheck => a == ActionView::CheckCancelled,
        StageView::ReconnectDeadline => a == ActionView::ReadClock,
        StageView::ReconnectWait => a is Sleep,
        StageView::ReconnectProbe => a == ActionView::QueryConnection,
        StageView::Precompile => is_progress_write(a),
        StageView::PrecompileCancelCheck => a == ActionView::CheckCancelled,
        StageView::Compiling => a == ActionView::Recompile,
        StageView::Launch => is_progress_write(a),
        StageView::LaunchCancelCheck => a == ActionView::CheckCancelled,
        StageView::Launching => a == ActionView::StartTests,
        StageView::AwaitNotice => is_progress_write(a),
        StageView::PollClock => a == ActionView::StartClock,
        StageView::PollCancelCheck => a == ActionView::CheckCancelled,
        StageView::PollDeadline => a == ActionView::ReadClock,
        StageView::PollWait => a is Sleep,
        StageView::Polling => a == ActionView::PollStatus,
        StageView::PollErrorProbe(_) => a == ActionView::QueryConnection,
        StageView::PollReconnectNotice => is_progress_write(a),
        StageView::Concluding => is_final_write(a),
        StageView::Aborting => a == ActionView::CancelTests,
        StageView::Finished => a == ActionView::Stop,
    }
}

/// One answered step keeps the stage and the work it asks for in step, and the flow stops
/// only right after a final write, right after seeing the cancellation, or right after the
/// cancel request that follows it.
pub proof fn flow_stops_only_when_done(s: StageView, a: ActionView, e: EventView)
    requires
        pending_ok(s, a),
        answers(a, e),
    ensures
        pending_ok(flow_transition(s, e).0, flow_transition(s, e).1),
        flow_transition(s, e).1 == ActionView::Stop ==> is_final_write(a) || e
            == EventView::Cancelled(true) || a == ActionView::CancelTests,
        a == ActionView::CancelTests ==> s == StageView::Aborting,
{
}

/// Every event of `events` answers the work the flow asked for just before it.
pub open spec fn well_answered(s: StageView, a: ActionView, events: Seq<EventView>) -> bool
    decreases events.len(),
{
    events.len() == 0 || (answers(a, events[0]) && well_answered(
        flow_transition(s, events[0]).0,
        flow_transition(s, events[0]).1,
        events.drop_first(),
    ))
}

/// The stage and the work the flow asks for after `events`.
pub open spec fn run_to(s: StageView, a: ActionView, events: Seq<EventView>) -> (
    StageView,
    ActionView,
)
    decreases events.len(),
{
    if events.len() == 0 {
        (s, a)
    } else {
        let (s2, a2) = flow_transition(s, events[0]);
        run_to(s2, a2, events.drop_first())
    }
}

/// The flow stopped within `events` only after a final write, or after it saw that the task
/// was cancelled.
pub open spec fn stopped_for_cause(s: StageView, a: ActionView, events: Seq<EventView>) -> bool
    decreases events.len(),
{
    if events.len() == 0 {
        false
    } else {
        let (s2, a2) = flow_transition(s, events[0]);
        if a2 == ActionView::Stop {
            is_final_write(a) || events[0] == EventView::Cancelled(true) || a
                == ActionView::CancelTests
        } else {
            stopped_for_cause(s2, a2, events.drop_first())
        }
    }
}

/// When each piece of outside work is answered as asked and every write succeeds, the flow
/// keeps asking only for work that fits its stage, and if it stops, it stops after writing a
/// final state or after seeing that the task was cancelled (and asking the runner to cancel).
pub proof fn answered_flow_stops_only_when_done(
    s: StageView,
    a: ActionView,
    events: Seq<EventView>,
)
    requires
        pending_ok(s, a),
        a != ActionView::Stop,
        well_answered(s, a, events),
    ensures
        pending_ok(run_to(s, a, events).0, run_to(s, a, events).1),
        run_to(s, a, events).1 == ActionView::Stop ==> stopped_for_cause(s, a, events),
    decreases events.len(),
{
    if events.len() > 0 {
        let (s2, a2) = flow_transition(s, events[0]);
        flow_stops_only_when_done(s, a, events[0]);
        assert(well_answered(s2, a2, events.drop_first()));
        if a2 == ActionView::Stop {
            if events.drop_first().len() > 0 {
                assert(!answers(a2, events.drop_first()[0]));
            }
            assert(events.drop_first().len() == 0);
            assert(run_to(s2, a2, events.drop_first()) == (s2, a2));
        } else {
            answered_flow_stops_only_when_done(s2, a2, events.drop_first());
        }
    }
}

/// A flow started afresh keeps to its stages and stops only for cause, as above.
pub proof fn started_flow_stops_only_when_done(events: Seq<EventView>)
    requires
        well_answered(StageView::Begin, ActionView::CheckCancelled, events),
    ensures
        run_to(StageView::Begin, ActionView::CheckCancelled, events).1 == ActionView::Stop
            ==> stopped_for_cause(StageView::Begin, ActionView::CheckCancelled, events),
{
    answered_flow_stops_only_when_done(StageView::Begin, ActionView::CheckCancelled, events);
}

} // verus!

verus! {

/// A run whose summary reads a failed count above zero is reported as failed, never as
/// succeeded: when the runner says `finished` and the summary's counts show failures, the
/// flow writes `Failed` at step 5 with the summary as its error and the counts as its
/// statistics, and then concludes.
pub proof fn finished_with_failures_is_failed(s: StatusView, st: FlowTaskStats)
    requires
        ascii_lower(trim(s.state)) == "finished"@,
        flow_stats_of(s.summary) == Some(st),
        st.failed > 0,
    ensures
        flow_transition(StageView::Polling, EventView::Status(Ok(s))) == (
            StageView::Concluding,
            ActionView::Write(
                UpdateView {
                    state: FlowState::Failed,
                    step_index: 5,
                    detail: Some("PlayMode tests completed with failures"@),
                    last_error: Some(s.summary),
                    stats: Some(st),
                },
            ),
        ),
{
}

/// The flow writes `Succeeded` only when the runner said `finished` and no count read from its
/// summary shows a failure; the write is at step 5, carries no error and carries the counts.
pub proof fn success_only_without_failures(s: StageView, e: EventView)
    ensures
        match flow_transition(s, e).1 {
            ActionView::Write(u) => u.state == FlowState::Succeeded ==> {
                &&& s == StageView::Polling
                &&& e matches EventView::Status(Ok(st))
                &&& ascii_lower(trim(e->Status_0->Ok_0.state)) == "finished"@
                &&& !(flow_stats_of(e->Status_0->Ok_0.summary) matches Some(c) && c.failed > 0)
                &&& u.stats == flow_stats_of(e->Status_0->Ok_0.summary)
                &&& u.step_index == 5
                &&& u.last_error is None
            },
            _ => true,
        },
{
}

} // verus!

verus! {

/// The flow gives up waiting for the editor exactly when more than 45 s have passed: then it
/// writes `Failed` at step 1; otherwise it sleeps 500 ms and asks again.
pub proof fn reconnect_gives_up_after_45_seconds(t: Span)
    ensures
        t.secs * 1_000_000_000 + t.subsec_nanos > 45_000_000_000 ==> (flow_transition(
            StageView::ReconnectDeadline,
            EventView::Clock(t),
        ).1 matches ActionView::Write(u) && u.state == FlowState::Failed && u.step_index == 1),
        t.secs * 1_000_000_000 + t.subsec_nanos <= 45_000_000_000 ==> flow_transition(
            StageView::ReconnectDeadline,
            EventView::Clock(t),
        ) == (StageView::ReconnectWait, ActionView::Sleep(500)),
{
}

/// The flow gives up on the tests exactly when more than 1800 s have passed: then it writes
/// `Failed` at step 4; otherwise it sleeps 2 s and polls again.
pub proof fn tests_time_out_after_1800_seconds(t: Span)
    ensures
        t.secs * 1_000_000_000 + t.subsec_nanos > 1_800_000_000_000 ==> (flow_transition(
            StageView::PollDeadline,
            EventView::Clock(t),
        ).1 matches ActionView::Write(u) && u.state == FlowState::Failed && u.step_index == 4),
        t.secs * 1_000_000_000 + t.subsec_nanos <= 1_800_000_000_000 ==> flow_transition(
            StageView::PollDeadline,
            EventView::Clock(t),
        ) == (StageView::PollWait, ActionView::Sleep(2000)),
{
}

/// When the runner reports `failed`, the flow writes `Failed` at step 5; the error recorded
/// is the runner's error where that is not blank, else its summary, and the counts are read
/// from that error.
pub proof fn failed_run_records_its_error(s: StatusView)
    requires
        ascii_lower(trim(s.state)) == "failed"@,
    ensures
        flow_transition(StageView::Polling, EventView::Status(Ok(s))).1 matches ActionView::Write(
            u,
        ) && u.state == FlowState::Failed && u.step_index == 5 && (trim(s.error).len() > 0
            ==> u.last_error == Some(s.error)) && (trim(s.error).len() == 0 ==> u.last_error
            == Some(s.summary)) && u.stats == flow_stats_of(u.last_error->0),
{
    reveal_strlit("failed");
    reveal_strlit("finished");
    assert("failed"@ != "finished"@) by {
        assert("failed"@[1] != "finished"@[1]);
    }
}

/// When the runner reports `cancelled`, the flow records the task as cancelled at step 5 and
/// concludes; a `running` report keeps it polling.
pub proof fn runner_cancel_and_running_reports(s: StatusView)
    ensures
        ascii_lower(trim(s.state)) == "cancelled"@ ==> (flow_transition(
            StageView::Polling,
            EventView::Status(Ok(s)),
        ).0 == StageView::Concluding && (flow_transition(
            StageView::Polling,
            EventView::Status(Ok(s)),
        ).1 matches ActionView::Write(u) && u.state == FlowState::Cancelled && u.step_index
            == 5)),
        ascii_lower(trim(s.state)) == "running"@ ==> flow_transition(
            StageView::Polling,
            EventView::Status(Ok(s)),
        ) == (StageView::PollCancelCheck, ActionView::CheckCancelled),
{
    reveal_strlit("failed");
    reveal_strlit("finished");
    reveal_strlit("cancelled");
    reveal_strlit("running");
    assert("cancelled"@ != "finished"@) by {
        assert("cancelled"@[0] != "finished"@[0]);
    }
    assert("cancelled"@ != "failed"@) by {
        assert("cancelled"@[0] != "failed"@[0]);
    }
    assert("running"@ != "finished"@) by {
        assert("running"@[0] != "finished"@[0]);
    }
    assert("running"@ != "failed"@) by {
        assert("running"@[0] != "failed"@[0]);
    }
    assert("running"@ != "cancelled"@) by {
        assert("running"@[0] != "cancelled"@[0]);
    }
}

} // verus!
