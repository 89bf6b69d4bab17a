use std::path::Path;

use unity_flow::flow::{
    is_task_file_name, millis_of, millis_since_epoch, new_task, new_task_id, normalize_project_path, now_ms, storage_dir_of,
    task_file_path, FlowState, FlowTaskRecord, FlowType,
};
use unity_flow::stats::{parse_flow_stats, parse_named_count};
use unity_flow::text::{decimal_string, parse_i64, to_ascii_lower, trim_str};

#[test]
fn terminal_state_detection_matches_contract() {
    assert!(FlowState::Succeeded.is_terminal());
    assert!(FlowState::Failed.is_terminal());
    assert!(FlowState::Cancelled.is_terminal());
    assert!(!FlowState::Queued.is_terminal());
    assert!(!FlowState::Running.is_terminal());
    assert!(!FlowState::WaitingReconnect.is_terminal());
}

#[test]
fn task_file_path_uses_json_suffix() {
    let root = "C:/Project/Library/Locus/Flows";
    let path = task_file_path(root, "flow-123");
    assert!(Path::new(&path).ends_with("flow-123.json"));
}

#[test]
fn parse_flow_stats_from_summary_line() {
    let stats = parse_flow_stats("state=Passed; passed=7; failed=1; skipped=2").unwrap();
    assert_eq!(stats.passed, 7);
    assert_eq!(stats.failed, 1);
    assert_eq!(stats.skipped, 2);
}

#[test]
fn parse_flow_stats_defaults_skipped_to_zero() {
    let stats = parse_flow_stats("passed=3;failed=0").unwrap();
    assert_eq!((stats.passed, stats.failed, stats.skipped), (3, 0, 0));
}

#[test]
fn parse_flow_stats_needs_passed_and_failed() {
    assert!(parse_flow_stats("passed=3; skipped=1").is_none());
    assert!(parse_flow_stats("failed=3").is_none());
    assert!(parse_flow_stats("").is_none());
}

#[test]
fn parse_named_count_takes_first_readable_segment() {
    assert_eq!(parse_named_count("passed=x; passed=4; passed=5", "passed"), Some(4));
    assert_eq!(parse_named_count("  passed =  9 ;", "passed"), None);
    assert_eq!(parse_named_count("passed=  -12  ", "passed"), Some(-12));
    assert_eq!(parse_named_count("xpassed=1", "passed"), None);
    assert_eq!(parse_named_count("\u{3000}passed=+8\t", "passed"), Some(8));
    assert_eq!(parse_named_count("passed=9223372036854775808", "passed"), None);
    assert_eq!(parse_named_count("passed=-9223372036854775808", "passed"), Some(i64::MIN));
}

#[test]
fn stated_count_round_trip() {
    for n in [0u64, 7, 10, 99, 1234567, i64::MAX as u64] {
        let summary = format!("failed={}", decimal_string(n));
        assert_eq!(parse_named_count(&summary, "failed"), Some(n as i64));
    }
}

#[test]
fn parse_i64_matches_std() {
    for s in ["0", "-0", "+5", "-", "+", "", " 1", "1 ", "12a", "0009", "-9223372036854775808",
        "9223372036854775807", "9223372036854775808", "١٢", "99999999999999999999999"]
    {
        assert_eq!(parse_i64(s), s.parse::<i64>().ok(), "input {:?}", s);
    }
}

#[test]
fn decimal_string_matches_std() {
    for n in [0u64, 9, 10, 42, 1000, u64::MAX] {
        assert_eq!(decimal_string(n), n.to_string());
    }
}

#[test]
fn trim_matches_std() {
    for s in ["", "  ", " a b ", "\u{2003}x\u{85}", "\u{200b}y", "\nz\r\n"] {
        assert_eq!(trim_str(s), s.trim());
    }
}

#[test]
fn lowercase_only_touches_ascii() {
    assert_eq!(to_ascii_lower("RuNNing ÄÖ"), "running ÄÖ");
}

#[test]
fn normalize_project_path_trims_and_uses_slashes() {
    assert_eq!(normalize_project_path("  C:\\Users\\me\\Game \n"), "C:/Users/me/Game");
    let once = normalize_project_path(" a\\b ");
    assert_eq!(normalize_project_path(&once), once);
}

#[test]
fn storage_dir_is_under_library_locus_flows() {
    let dir = storage_dir_of("/home/me/Game");
    assert!(Path::new(&dir).ends_with("Library/Locus/Flows"));
    assert!(dir.starts_with("/home/me/Game"));
}

#[test]
fn task_files_are_json_files() {
    assert!(is_task_file_name("flow-1.json"));
    assert!(is_task_file_name("a.b.json"));
    assert!(!is_task_file_name(".json"));
    assert!(!is_task_file_name("flow-1.json.bak"));
    assert!(!is_task_file_name("json"));
    assert!(!is_task_file_name("flow.JSON"));
    for name in ["x.json", ".json", "a.", "..json", "noext", "b..json"] {
        let std_says = Path::new(name).extension().and_then(|e| e.to_str()) == Some("json");
        assert_eq!(is_task_file_name(name), std_says, "name {:?}", name);
    }
}

#[test]
fn task_ids_are_flow_prefixed_uuids() {
    let a = new_task_id();
    let b = new_task_id();
    assert!(a.starts_with("flow-"));
    assert_eq!(a.len(), 41);
    assert_eq!(&a[5 + 14..5 + 15], "4");
    assert_ne!(a, b);
}

#[test]
fn new_task_is_queued_with_created_detail() {
    let (record, start) = new_task("/p", 1234);
    assert_eq!(record.state, FlowState::Queued);
    assert_eq!(record.flow_type, FlowType::RunPlayModeTests);
    assert_eq!(record.step_index, 0);
    assert_eq!(record.created_at_ms, 1234);
    assert_eq!(record.updated_at_ms, 1234);
    assert_eq!(record.detail.as_deref(), Some("Task created"));
    assert_eq!(record.project_path, "/p");
    assert!(record.last_error.is_none() && record.stats.is_none());
    assert_eq!(start.task_id, record.task_id);
    assert_eq!(start.state, FlowState::Queued);
    let copy: FlowTaskRecord = record.clone();
    assert_eq!(copy.task_id, record.task_id);
}

#[test]
fn clock_reads_after_2020() {
    assert!(now_ms() > 1_577_836_800_000);
}

#[test]
fn trimming_twice_is_trimming_once() {
    for s in ["  a  ", "\t\n", "x", " \u{3000}y z\u{2029} "] {
        let once = trim_str(s);
        assert_eq!(trim_str(once), once);
    }
}

#[test]
fn task_file_lies_in_the_storage_dir() {
    let path = task_file_path("/data/Flows", "flow-9");
    assert!(path == "/data/Flows/flow-9.json" || path == "/data/Flows\\flow-9.json");
    let p = Path::new(&path);
    assert_eq!(p.file_name().and_then(|n| n.to_str()), Some("flow-9.json"));
    assert_eq!(p.parent(), Some(Path::new("/data/Flows")));
    assert_eq!(task_file_path("", "a"), "a.json");
    assert!(is_task_file_name("flow-9.json"));
}

#[test]
fn storage_dir_joins_each_name() {
    let dir = storage_dir_of("/home/me/Game");
    assert!(dir == "/home/me/Game/Library/Locus/Flows" || dir == "/home/me/Game\\Library\\Locus\\Flows");
}

#[test]
fn clock_agrees_with_system_time() {
    let before = std::time::SystemTime::now()
        .duration_since(std::time::UNIX_EPOCH)
        .unwrap()
        .as_millis() as u64;
    let now = now_ms();
    let after = std::time::SystemTime::now()
        .duration_since(std::time::UNIX_EPOCH)
        .unwrap()
        .as_millis() as u64;
    assert!(before <= now && now <= after);
}

#[test]
fn whole_millis_of_a_duration() {
    assert_eq!(millis_of(2, 345_678_901), 2345);
    assert_eq!(millis_of(0, 999_999), 0);
    let d = std::time::Duration::new(u64::MAX, 999_999_999);
    assert_eq!(millis_of(d.as_secs(), d.subsec_nanos()), d.as_millis());
}

#[test]
fn millis_since_epoch_of_clock_parts() {
    assert_eq!(millis_since_epoch(None), 0);
    assert_eq!(millis_since_epoch(Some((1, 999_999_999))), 1999);
    assert_eq!(millis_since_epoch(Some((u64::MAX, 0))), (u64::MAX as u128 * 1000) as u64);
}

#[test]
fn paths_with_question_marks_and_colons_join() {
    let dir = storage_dir_of("/tmp/a?b");
    assert!(dir == "/tmp/a?b/Library/Locus/Flows" || dir == "/tmp/a?b\\Library\\Locus\\Flows");
    let path = task_file_path("/tmp/a?b", "flow:1");
    assert!(path == "/tmp/a?b/flow:1.json" || path == "/tmp/a?b\\flow:1.json");
}
