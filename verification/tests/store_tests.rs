use unity_flow::flow::{new_task_record, FlowState, FlowTaskRecord};
use unity_flow::store::{CancelPlan, Span, StateUpdate, TaskTable, WaitStep};

fn record(id: &str, state: FlowState) -> FlowTaskRecord {
    let mut r = new_task_record(id.to_string(), "/p".to_string(), 10);
    r.state = state;
    r
}

fn secs(s: u64) -> Span {
    Span { secs: s, subsec_nanos: 0 }
}

#[test]
fn read_after_write_returns_stored_record() {
    let mut t = TaskTable::new();
    t.upsert_record(record("a", FlowState::Queued));
    t.upsert_record(record("b", FlowState::Running));
    t.upsert_record(record("a", FlowState::Failed));
    assert_eq!(t.get_record("a").unwrap().state, FlowState::Failed);
    assert_eq!(t.get_record("b").unwrap().state, FlowState::Running);
    assert!(t.get_record("c").is_none());
}

#[test]
fn loading_keeps_the_later_record() {
    let t = TaskTable::from_records(&vec![
        record("a", FlowState::Queued),
        record("b", FlowState::Running),
        record("a", FlowState::Succeeded),
    ]);
    assert_eq!(t.get_record("a").unwrap().state, FlowState::Succeeded);
    assert_eq!(t.get_record("b").unwrap().state, FlowState::Running);
}

#[test]
fn lookup_of_missing_task_names_it() {
    let t = TaskTable::new();
    assert_eq!(t.lookup_task("x").unwrap_err(), "Unity flow task 'x' not found");
}

#[test]
fn cancelled_flag_reads_the_stored_state() {
    let mut t = TaskTable::new();
    t.upsert_record(record("a", FlowState::Cancelled));
    t.upsert_record(record("b", FlowState::Running));
    assert!(t.is_task_cancelled("a"));
    assert!(!t.is_task_cancelled("b"));
    assert!(!t.is_task_cancelled("zzz"));
}

#[test]
fn update_replaces_state_fields_only() {
    let mut t = TaskTable::new();
    let mut r = record("a", FlowState::Running);
    r.last_error = Some("old".to_string());
    t.upsert_record(r);
    let u = StateUpdate {
        state: FlowState::WaitingReconnect,
        step_index: 4,
        detail: Some("d".to_string()),
        last_error: None,
        stats: None,
    };
    let n = t.updated_record("a", u, 99).unwrap();
    assert_eq!(n.state, FlowState::WaitingReconnect);
    assert_eq!(n.step_index, 4);
    assert_eq!(n.updated_at_ms, 99);
    assert_eq!(n.created_at_ms, 10);
    assert_eq!(n.detail.as_deref(), Some("d"));
    assert!(n.last_error.is_none());
    let u2 = StateUpdate {
        state: FlowState::Failed,
        step_index: 1,
        detail: None,
        last_error: None,
        stats: None,
    };
    assert_eq!(t.updated_record("zz", u2, 1).unwrap_err(), "Unity flow task 'zz' not found");
}

#[test]
fn cancel_of_running_task_marks_it_cancelled() {
    let mut t = TaskTable::new();
    let mut r = record("a", FlowState::Running);
    r.step_index = 3;
    r.last_error = Some("e".to_string());
    t.upsert_record(r);
    match t.plan_cancel("a", 500).unwrap() {
        CancelPlan::Cancel(n) => {
            assert_eq!(n.state, FlowState::Cancelled);
            assert_eq!(n.step_index, 3);
            assert_eq!(n.updated_at_ms, 500);
            assert_eq!(n.detail.as_deref(), Some("Task cancelled by user"));
            assert!(n.last_error.is_none() && n.stats.is_none());
            t.upsert_record(n);
        }
        other => panic!("unexpected {:?}", other),
    }
    // A second cancel answers the stored record unchanged.
    match t.plan_cancel("a", 900).unwrap() {
        CancelPlan::AlreadyFinished(n) => assert_eq!(n.updated_at_ms, 500),
        other => panic!("unexpected {:?}", other),
    }
}

#[test]
fn cancel_of_finished_or_missing_task() {
    let mut t = TaskTable::new();
    t.upsert_record(record("s", FlowState::Succeeded));
    assert!(matches!(t.plan_cancel("s", 1).unwrap(), CancelPlan::AlreadyFinished(r) if r.state == FlowState::Succeeded));
    assert_eq!(t.plan_cancel("m", 1).unwrap_err(), "Unity flow task 'm' not found");
}

#[test]
fn wait_answers() {
    let mut t = TaskTable::new();
    t.upsert_record(record("run", FlowState::Running));
    t.upsert_record(record("done", FlowState::Failed));
    assert!(matches!(t.wait_step("done", secs(999), secs(1)), WaitStep::Finished(r) if r.state == FlowState::Failed));
    assert!(matches!(t.wait_step("run", secs(120), secs(120)), WaitStep::Sleep(500)));
    match t.wait_step("run", Span { secs: 120, subsec_nanos: 1 }, secs(120)) {
        WaitStep::Failed(e) => assert_eq!(e, "Timed out waiting for Unity flow task 'run' after 120s"),
        other => panic!("unexpected {:?}", other),
    }
    match t.wait_step("nope", secs(0), secs(1)) {
        WaitStep::Failed(e) => assert_eq!(e, "Unity flow task 'nope' not found"),
        other => panic!("unexpected {:?}", other),
    }
}

#[test]
fn wait_after_cancel_returns_cancelled_record() {
    let mut t = TaskTable::new();
    t.upsert_record(record("a", FlowState::Running));
    if let CancelPlan::Cancel(n) = t.plan_cancel("a", 7).unwrap() {
        t.upsert_record(n);
    }
    match t.wait_step("a", secs(0), secs(10)) {
        WaitStep::Finished(r) => {
            assert_eq!(r.state, FlowState::Cancelled);
            assert_eq!(r.updated_at_ms, 7);
        }
        other => panic!("unexpected {:?}", other),
    }
}

#[test]
fn reload_restores_a_task_whose_id_is_unique_among_duplicates() {
    let t = TaskTable::from_records(&vec![
        record("dup", FlowState::Queued),
        record("mine", FlowState::Failed),
        record("dup", FlowState::Running),
    ]);
    assert_eq!(t.get_record("mine").unwrap().state, FlowState::Failed);
    assert_eq!(t.get_record("dup").unwrap().task_id, "dup");
}
