use unity_flow::tools::{
    connection_check, editor_status_check, execute_request, execute_result, intercepted_unity_yaml_tool,
    is_known_editor_status, is_play_mode_status, playmode_request, recompile_check,
    recompile_request, recompile_result, run_states_request, run_states_result, step_failure,
    unity_asset_search, unity_ref_search, unity_yaml_list, unity_yaml_read, unity_yaml_search,
    PlaymodeRequest,
};

#[test]
fn execute_request_checks_arguments_in_order() {
    let e = execute_request(None, Some("editing"), Some("/p")).unwrap_err();
    assert_eq!(e.output, "Missing required parameter: code");
    assert!(e.is_error);
    let e = execute_request(Some("x"), Some("   "), Some("/p")).unwrap_err();
    assert_eq!(e.output, "Missing required parameter: request_editor_status");
    let e = execute_request(Some("x"), Some(" disconnected "), Some("/p")).unwrap_err();
    assert_eq!(
        e.output,
        "Invalid request_editor_status: 'disconnected'. Allowed values: editing, playing, playing_paused."
    );
    let e = execute_request(Some("x"), Some("compiling"), Some("/p")).unwrap_err();
    assert!(e.output.starts_with("Invalid request_editor_status: 'compiling'"));
    let e = execute_request(Some("x"), Some("editing"), Some("  ")).unwrap_err();
    assert_eq!(e.output, "Tool 'unity_execute' requires a selected Unity project working directory.");
    let r = execute_request(Some("code()"), Some(" playing "), Some(" /proj ")).unwrap();
    assert_eq!((r.code.as_str(), r.requested_status.as_str(), r.project_path.as_str()), ("code()", "playing", "/proj"));
}

#[test]
fn status_check_messages() {
    let e = editor_status_check("unity_execute", false, "editing", "editing").unwrap();
    assert_eq!(e.output, "Unity Editor not connected");
    let e = editor_status_check("unity_execute", true, "playing", "editing").unwrap();
    assert_eq!(e.output, "Unity Editor status is \"playing\". `unity_execute` requires \"editing\".");
    assert!(editor_status_check("unity_run_states", true, "editing", "editing").is_none());
}

#[test]
fn execute_result_trims_output() {
    let r = execute_result(Ok("  hi \n".to_string()));
    assert_eq!((r.output.as_str(), r.is_error), ("hi", false));
    let r = execute_result(Ok(" \n".to_string()));
    assert_eq!(r.output, "Code executed successfully (no output).");
    let r = execute_result(Err("bad".to_string()));
    assert_eq!((r.output.as_str(), r.is_error), ("bad", true));
}

#[test]
fn run_states_arguments_and_result() {
    let e = run_states_request(Some(" "), Some("editing")).unwrap_err();
    assert_eq!(e.output, "Tool 'unity_run_states' requires a selected Unity project working directory.");
    let e = run_states_request(Some("/p"), None).unwrap_err();
    assert_eq!(e.output, "Missing required parameter: request_editor_status");
    let r = run_states_request(Some(" /p "), Some(" anything ")).unwrap();
    assert_eq!(r.project_path, " /p ");
    assert_eq!(r.requested_status, "anything");
    let r = run_states_result(Ok(" out ".to_string()));
    assert_eq!((r.output.as_str(), r.is_error), ("out", false));
    let r = step_failure("compile".to_string());
    assert_eq!((r.output.as_str(), r.is_error), ("compile", true));
}

#[test]
fn recompile_arguments_checks_and_result() {
    let e = recompile_request(None, Some("/p")).unwrap_err();
    assert!(e.output.starts_with("Missing required parameter: editor_status."));
    let e = recompile_request(Some(" editing"), Some("/p")).unwrap_err();
    assert!(e.output.starts_with("Invalid editor_status: \" editing\". Allowed values: "));
    let e = recompile_request(Some("editing"), Some(" ")).unwrap_err();
    assert_eq!(e.output, "Missing required parameter: project_path");
    let r = recompile_request(Some("editing"), Some(" /p ")).unwrap();
    assert_eq!((r.claimed_status.as_str(), r.project_path.as_str()), ("editing", "/p"));

    let e = recompile_check("editing", "playing").unwrap();
    assert_eq!(e.output, "editor_status mismatch: you claimed \"editing\", but the actual editor status is \"playing\". Re-read the current editor state and try again.");
    let e = recompile_check("disconnected", "disconnected").unwrap();
    assert_eq!(e.output, "Unity Editor status is \"disconnected\". `unity_recompile` is unavailable until the Editor reconnects.");
    let e = recompile_check("playing_paused", "playing_paused").unwrap();
    assert_eq!(e.output, "Unity Editor status is \"playing_paused\". Exit Play Mode before calling `unity_recompile`.");
    assert!(recompile_check("editing", "editing").is_none());

    let r = recompile_result(Ok("done".to_string()));
    assert_eq!((r.output.as_str(), r.is_error), ("done", false));
    let r = recompile_result(Err("CS1002".to_string()));
    assert_eq!((r.output.as_str(), r.is_error), ("Compilation failed:\nCS1002", true));
}

#[test]
fn editor_status_vocabulary() {
    for s in ["editing", "playing", "playing_paused", "disconnected"] {
        assert!(is_known_editor_status(s));
    }
    assert!(!is_known_editor_status("Editing"));
    assert!(is_play_mode_status("playing") && is_play_mode_status("playing_paused"));
    assert!(!is_play_mode_status("editing"));
}

#[test]
fn playmode_request_dispatch() {
    let e = playmode_request(None, Some("/p"), None, None, None).unwrap_err();
    assert_eq!(e.output, "Missing required parameter: action");
    let e = playmode_request(Some(" start "), Some(" "), Some(""), None, None).unwrap_err();
    assert_eq!(e.output, "Missing required parameter: project_path");
    match playmode_request(Some(" start "), None, Some(" /wd "), None, None).unwrap() {
        PlaymodeRequest::Start { project_path } => assert_eq!(project_path, "/wd"),
        other => panic!("{:?}", other),
    }
    let e = playmode_request(Some("status"), Some("/p"), None, None, None).unwrap_err();
    assert_eq!(e.output, "Missing required parameter: task_id (for action=status)");
    match playmode_request(Some("wait"), Some("/p"), Some("/wd"), Some(" t1 "), None).unwrap() {
        PlaymodeRequest::Wait { project_path, task_id, timeout_secs } => {
            assert_eq!((project_path.as_str(), task_id.as_str(), timeout_secs), ("/p", "t1", 120));
        }
        other => panic!("{:?}", other),
    }
    match playmode_request(Some("cancel"), Some("/p"), None, Some("t2"), Some(5)).unwrap() {
        PlaymodeRequest::Cancel { task_id, .. } => assert_eq!(task_id, "t2"),
        other => panic!("{:?}", other),
    }
    let e = playmode_request(Some("stop"), Some("/p"), None, None, None).unwrap_err();
    assert_eq!(e.output, "Invalid action. Allowed values: start, status, wait, cancel");
}

#[test]
fn intercepted_tools_refuse_direct_execution() {
    for (tool, name) in [
        (unity_yaml_list(), "unity_yaml_list"),
        (unity_yaml_search(), "unity_yaml_search"),
        (unity_yaml_read(), "unity_yaml_read"),
        (unity_ref_search(), "unity_ref_search"),
        (unity_asset_search(), "unity_asset_search"),
        (intercepted_unity_yaml_tool("x_tool"), "x_tool"),
    ] {
        assert_eq!(tool.name, name);
        let r = tool.execute();
        assert!(r.is_error);
        assert_eq!(r.output, format!("Error: {} should be intercepted by agent loop, not executed directly", name));
    }
}

#[test]
fn connection_check_answers_only_when_disconnected() {
    assert!(connection_check(true).is_none());
    let r = connection_check(false).unwrap();
    assert_eq!((r.output.as_str(), r.is_error), ("Unity Editor not connected", true));
}
