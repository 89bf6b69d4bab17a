use unity_flow::flow::FlowState;
use unity_flow::runner::{flow_start, flow_step, FlowAction, FlowEvent, FlowStage, PlayModeStatus};
use unity_flow::store::Span;

fn write_of(a: &FlowAction) -> (FlowState, u32, Option<String>, Option<String>) {
    match a {
        FlowAction::Write(u) => (u.state, u.step_index, u.detail.clone(), u.last_error.clone()),
        other => panic!("expected a write, got {:?}", other),
    }
}

fn drive(events: Vec<FlowEvent>) -> (FlowStage, Vec<FlowAction>) {
    let (mut stage, first) = flow_start();
    let mut actions = vec![first];
    for e in events {
        let (s, a) = flow_step(stage, e);
        stage = s;
        actions.push(a);
    }
    (stage, actions)
}

fn status(state: &str, summary: &str, error: &str) -> FlowEvent {
    FlowEvent::Status(Ok(PlayModeStatus {
        state: state.to_string(),
        summary: summary.to_string(),
        error: error.to_string(),
    }))
}

fn to_polling() -> Vec<FlowEvent> {
    vec![
        FlowEvent::Cancelled(false),
        FlowEvent::Written(true),
        FlowEvent::Connection(true),
        FlowEvent::Written(true),
        FlowEvent::Cancelled(false),
        FlowEvent::Outcome(Ok(())),
        FlowEvent::Written(true),
        FlowEvent::Cancelled(false),
        FlowEvent::Outcome(Ok(())),
        FlowEvent::Written(true),
        FlowEvent::Done,
        FlowEvent::Cancelled(false),
        FlowEvent::Clock(Span { secs: 2, subsec_nanos: 0 }),
        FlowEvent::Done,
    ]
}

#[test]
fn happy_path_writes_steps_in_order() {
    let mut ev = to_polling();
    ev.push(status(" Finished ", " passed=3; failed=0 ", ""));
    ev.push(FlowEvent::Written(true));
    let (stage, actions) = drive(ev);
    assert!(matches!(actions[0], FlowAction::CheckCancelled));
    assert_eq!(write_of(&actions[1]).0, FlowState::Running);
    assert_eq!(write_of(&actions[1]).2.as_deref(), Some("Checking Unity connection"));
    assert!(matches!(actions[2], FlowAction::QueryConnection));
    assert_eq!(write_of(&actions[3]).1, 2);
    assert!(matches!(actions[5], FlowAction::Recompile));
    assert_eq!(write_of(&actions[6]).1, 3);
    assert!(matches!(actions[8], FlowAction::StartTests));
    assert_eq!(write_of(&actions[9]).2.as_deref(), Some("Waiting PlayMode test result"));
    assert!(matches!(actions[13], FlowAction::Sleep(2000)));
    assert!(matches!(actions[14], FlowAction::PollStatus));
    match &actions[15] {
        FlowAction::Write(u) => {
            assert_eq!(u.state, FlowState::Succeeded);
            assert_eq!(u.step_index, 5);
            assert_eq!(u.detail.as_deref(), Some("PlayMode tests finished: passed=3; failed=0"));
            assert!(u.last_error.is_none());
            let s = u.stats.unwrap();
            assert_eq!((s.passed, s.failed, s.skipped), (3, 0, 0));
        }
        other => panic!("{:?}", other),
    }
    assert!(matches!(actions[16], FlowAction::Stop));
    assert!(matches!(stage, FlowStage::Finished));
}

#[test]
fn finished_with_failures_is_a_failure() {
    let mut ev = to_polling();
    ev.push(status("finished", "passed=1; failed=2", ""));
    let (_, actions) = drive(ev);
    match actions.last().unwrap() {
        FlowAction::Write(u) => {
            assert_eq!(u.state, FlowState::Failed);
            assert_eq!(u.detail.as_deref(), Some("PlayMode tests completed with failures"));
            assert_eq!(u.last_error.as_deref(), Some("passed=1; failed=2"));
            assert_eq!(u.stats.unwrap().failed, 2);
        }
        other => panic!("{:?}", other),
    }
}

#[test]
fn finished_with_blank_summary() {
    let mut ev = to_polling();
    ev.push(status("FINISHED", "   ", ""));
    let (_, actions) = drive(ev);
    let (state, step, detail, _) = write_of(actions.last().unwrap());
    assert_eq!((state, step), (FlowState::Succeeded, 5));
    assert_eq!(detail.as_deref(), Some("PlayMode tests finished"));
}

#[test]
fn failed_status_prefers_error_over_summary() {
    let mut ev = to_polling();
    ev.push(status("failed", "passed=1; failed=1", "boom"));
    let (_, actions) = drive(ev);
    let (state, _, detail, err) = write_of(actions.last().unwrap());
    assert_eq!(state, FlowState::Failed);
    assert_eq!(detail.as_deref(), Some("PlayMode tests failed"));
    assert_eq!(err.as_deref(), Some("boom"));

    let mut ev = to_polling();
    ev.push(status("failed", "passed=1; failed=1", "  "));
    let (_, actions) = drive(ev);
    match actions.last().unwrap() {
        FlowAction::Write(u) => {
            assert_eq!(u.last_error.as_deref(), Some("passed=1; failed=1"));
            assert_eq!(u.stats.unwrap().passed, 1);
        }
        other => panic!("{:?}", other),
    }
}

#[test]
fn cancelled_and_running_statuses() {
    let mut ev = to_polling();
    ev.push(status("running", "", ""));
    let (_, actions) = drive(ev);
    assert!(matches!(actions.last().unwrap(), FlowAction::CheckCancelled));

    let mut ev = to_polling();
    ev.push(status("weird", "", ""));
    let (_, actions) = drive(ev);
    assert!(matches!(actions.last().unwrap(), FlowAction::CheckCancelled));

    let mut ev = to_polling();
    ev.push(status("Cancelled", "", ""));
    let (_, actions) = drive(ev);
    let (state, step, detail, _) = write_of(actions.last().unwrap());
    assert_eq!((state, step), (FlowState::Cancelled, 5));
    assert_eq!(detail.as_deref(), Some("PlayMode tests cancelled"));
}

#[test]
fn poll_error_while_connected_fails_and_disconnected_waits() {
    let mut ev = to_polling();
    ev.push(FlowEvent::Status(Err("io".to_string())));
    ev.push(FlowEvent::Connection(true));
    let (_, actions) = drive(ev);
    let (state, step, detail, err) = write_of(actions.last().unwrap());
    assert_eq!((state, step), (FlowState::Failed, 4));
    assert_eq!(detail.as_deref(), Some("Failed to poll PlayMode test status"));
    assert_eq!(err.as_deref(), Some("io"));

    let mut ev = to_polling();
    ev.push(FlowEvent::Status(Err("io".to_string())));
    ev.push(FlowEvent::Connection(false));
    ev.push(FlowEvent::Written(true));
    let (_, actions) = drive(ev);
    let n = actions.len();
    let (state, step, _, _) = write_of(&actions[n - 2]);
    assert_eq!((state, step), (FlowState::WaitingReconnect, 4));
    assert!(matches!(actions[n - 1], FlowAction::CheckCancelled));
}

#[test]
fn test_timeout_after_1800_seconds() {
    let mut ev = to_polling();
    ev.push(status("running", "", ""));
    ev.push(FlowEvent::Cancelled(false));
    ev.push(FlowEvent::Clock(Span { secs: 1800, subsec_nanos: 1 }));
    let (_, actions) = drive(ev);
    let (state, step, detail, err) = write_of(actions.last().unwrap());
    assert_eq!((state, step), (FlowState::Failed, 4));
    assert_eq!(detail.as_deref(), Some("PlayMode test timeout"));
    assert_eq!(err.as_deref(), Some("PlayMode tests did not finish within 1800s"));
}

#[test]
fn reconnect_wait_and_timeout() {
    let ev = vec![
        FlowEvent::Cancelled(false),
        FlowEvent::Written(true),
        FlowEvent::Connection(false),
        FlowEvent::Written(true),
        FlowEvent::Done,
        FlowEvent::Cancelled(false),
        FlowEvent::Clock(Span { secs: 1, subsec_nanos: 0 }),
        FlowEvent::Done,
        FlowEvent::Connection(false),
        FlowEvent::Cancelled(false),
        FlowEvent::Clock(Span { secs: 45, subsec_nanos: 1 }),
    ];
    let (_, actions) = drive(ev);
    let (state, step, detail, _) = write_of(&actions[3]);
    assert_eq!((state, step), (FlowState::WaitingReconnect, 1));
    assert_eq!(detail.as_deref(), Some("Unity disconnected, waiting for reconnect"));
    assert!(matches!(actions[4], FlowAction::StartClock));
    assert!(matches!(actions[7], FlowAction::Sleep(500)));
    let (state, step, detail, err) = write_of(actions.last().unwrap());
    assert_eq!((state, step), (FlowState::Failed, 1));
    assert_eq!(detail.as_deref(), Some("Reconnect timeout"));
    assert_eq!(err.as_deref(), Some("Unity did not reconnect within 45s"));
}

#[test]
fn reconnect_then_continue() {
    let ev = vec![
        FlowEvent::Cancelled(false),
        FlowEvent::Written(true),
        FlowEvent::Connection(false),
        FlowEvent::Written(false),
        FlowEvent::Done,
        FlowEvent::Cancelled(false),
        FlowEvent::Clock(Span { secs: 45, subsec_nanos: 0 }),
        FlowEvent::Done,
        FlowEvent::Connection(true),
    ];
    let (_, actions) = drive(ev);
    let (state, step, _, _) = write_of(actions.last().unwrap());
    assert_eq!((state, step), (FlowState::Running, 2));
}

#[test]
fn cancellation_stops_the_flow() {
    let (stage, actions) = drive(vec![FlowEvent::Cancelled(true)]);
    assert!(matches!(actions[1], FlowAction::Stop));
    assert!(matches!(stage, FlowStage::Finished));

    let mut ev = to_polling();
    ev.push(status("running", "", ""));
    ev.push(FlowEvent::Cancelled(true));
    ev.push(FlowEvent::Done);
    let (_, actions) = drive(ev);
    let n = actions.len();
    assert!(matches!(actions[n - 2], FlowAction::CancelTests));
    assert!(matches!(actions[n - 1], FlowAction::Stop));
}

#[test]
fn failed_first_write_stops() {
    let (_, actions) = drive(vec![FlowEvent::Cancelled(false), FlowEvent::Written(false)]);
    assert!(matches!(actions[2], FlowAction::Stop));
}

#[test]
fn recompile_and_start_failures() {
    let ev = vec![
        FlowEvent::Cancelled(false),
        FlowEvent::Written(true),
        FlowEvent::Connection(true),
        FlowEvent::Written(true),
        FlowEvent::Cancelled(false),
        FlowEvent::Outcome(Err("cs error".to_string())),
    ];
    let (_, actions) = drive(ev);
    let (state, step, detail, err) = write_of(actions.last().unwrap());
    assert_eq!((state, step), (FlowState::Failed, 2));
    assert_eq!(detail.as_deref(), Some("Recompile failed"));
    assert_eq!(err.as_deref(), Some("cs error"));

    let ev = vec![
        FlowEvent::Cancelled(false),
        FlowEvent::Written(true),
        FlowEvent::Connection(true),
        FlowEvent::Written(true),
        FlowEvent::Cancelled(false),
        FlowEvent::Outcome(Ok(())),
        FlowEvent::Written(true),
        FlowEvent::Cancelled(false),
        FlowEvent::Outcome(Err("no runner".to_string())),
    ];
    let (_, actions) = drive(ev);
    let (state, step, detail, _) = write_of(actions.last().unwrap());
    assert_eq!((state, step), (FlowState::Failed, 3));
    assert_eq!(detail.as_deref(), Some("Failed to start PlayMode tests"));
}

#[test]
fn unexpected_event_ends_flow() {
    let (stage, actions) = drive(vec![FlowEvent::Done]);
    assert!(matches!(actions[1], FlowAction::Stop));
    assert!(matches!(stage, FlowStage::Finished));
}

#[test]
fn written_steps_do_not_go_back() {
    let mut ev = to_polling();
    ev.push(FlowEvent::Status(Err("io".to_string())));
    ev.push(FlowEvent::Connection(false));
    ev.push(FlowEvent::Written(true));
    ev.push(FlowEvent::Cancelled(false));
    ev.push(FlowEvent::Clock(Span { secs: 3, subsec_nanos: 0 }));
    ev.push(FlowEvent::Done);
    ev.push(status("finished", "passed=1; failed=0", ""));
    let (_, actions) = drive(ev);
    let steps: Vec<u32> = actions
        .iter()
        .filter_map(|a| match a {
            FlowAction::Write(u) => Some(u.step_index),
            _ => None,
        })
        .collect();
    assert_eq!(steps, vec![1, 2, 3, 4, 4, 5]);
}
