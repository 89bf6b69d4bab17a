use vstd::prelude::*;

use crate::text::{concat2, concat3, trim, trim_str};

verus! {

// ---------------------------------------------------------------------------
// Tool answers
// ---------------------------------------------------------------------------

/// What a tool answers the agent.
#[derive(Debug)]
pub struct ToolResult {
    pub output: String,
    pub is_error: bool,
}

/// A tool answer as text and error flag.
pub open spec fn answer(r: ToolResult) -> (Seq<char>, bool) {
    (r.output@, r.is_error)
}

/// An error answer.
pub open spec fn error_answer(msg: Seq<char>) -> (Seq<char>, bool) {
    (msg, true)
}

fn tool_error(output: String) -> (r: ToolResult)
    ensures
        answer(r) == error_answer(output@),
{
    ToolResult { output, is_error: true }
}

/// Whether `a` and `b` hold the same text.
pub fn same_text(a: &str, b: &str) -> (r: bool)
    ensures
        r == (a@ == b@),
{
    String::from_str(a) == String::from_str(b)
}

/// The text of an optional string argument.
pub open spec fn arg(o: Option<&str>) -> Option<Seq<char>> {
    match o {
        Some(s) => Some(s@),
        None => None,
    }
}

/// An argument that is given and not blank, trimmed.
pub open spec fn nonblank(o: Option<Seq<char>>) -> Option<Seq<char>> {
    match o {
        Some(s) => if trim(s).len() > 0 {
            Some(trim(s))
        } else {
            None
        },
        None => None,
    }
}

/// The argument `o` trimmed, where it is given and not blank.
pub fn nonblank_arg(o: Option<&str>) -> (r: Option<String>)
    ensures
        match r {
            Some(s) => nonblank(arg(o)) == Some(s@),
            None => nonblank(arg(o)) is None,
        },
{
    match o {
        Some(s) => {
            let t = trim_str(s);
            if t.unicode_len() == 0 {
                None
            } else {
                Some(String::from_str(t))
            }
        },
        None => None,
    }
}

// ---------------------------------------------------------------------------
// Editor status
//
// The statuses come from the Unity editor bridge, which lies outside this library. The
// vocabulary below is the one that the tools' own messages use: `editing`, `playing`,
// `playing_paused` and `disconnected`, with `playing` and `playing_paused` as Play Mode, and
// the list of them as the schema text that messages show. It is assumed to match what the
// bridge reports; nothing here checks it against the bridge.
// ---------------------------------------------------------------------------

/// The status the Unity bridge reports for an editor that is not connected.
pub open spec fn disconnected_status() -> Seq<char> {
    "disconnected"@
}

/// The statuses the Unity editor reports.
pub open spec fn is_known_status(s: Seq<char>) -> bool {
    s == "editing"@ || s == "playing"@ || s == "playing_paused"@ || s == disconnected_status()
}

/// The statuses of an editor in Play Mode.
pub open spec fn is_play_mode(s: Seq<char>) -> bool {
    s == "playing"@ || s == "playing_paused"@
}

/// The list of editor statuses, as tool messages show it (assumed; see above).
pub open spec fn status_schema() -> Seq<char> {
    "editing, playing, playing_paused, disconnected"@
}

/// Whether `s` is a status the Unity editor reports.
pub fn is_known_editor_status(s: &str) -> (r: bool)
    ensures
        r == is_known_status(s@),
{
    same_text(s, "editing") || same_text(s, "playing") || same_text(s, "playing_paused")
        || same_text(s, "disconnected")
}

/// Whether `s` is the status of an editor in Play Mode.
pub fn is_play_mode_status(s: &str) -> (r: bool)
    ensures
        r == is_play_mode(s@),
{
    same_text(s, "playing") || same_text(s, "playing_paused")
}

/// `Unity Editor status is "<actual>". `<tool>` requires "<requested>".`
pub open spec fn status_mismatch_text(tool: Seq<char>, actual: Seq<char>, requested: Seq<char>) -> Seq<
    char,
> {
    "Unity Editor status is \""@ + actual + "\". `"@ + tool + "` requires \""@ + requested + "\"."@
}

/// What a tool that needs the editor in status `requested` answers after asking the editor:
/// nothing where it may go on.
pub open spec fn status_check(
    tool: Seq<char>,
    connected: bool,
    actual: Seq<char>,
    requested: Seq<char>,
) -> Option<(Seq<char>, bool)> {
    if !connected {
        Some(error_answer("Unity Editor not connected"@))
    } else if actual != requested {
        Some(error_answer(status_mismatch_text(tool, actual, requested)))
    } else {
        None
    }
}

/// What a tool that needs a connected editor answers after asking the editor: nothing where
/// it may go on.
pub fn connection_check(connected: bool) -> (r: Option<ToolResult>)
    ensures
        match r {
            Some(t) => !connected && answer(t) == error_answer("Unity Editor not connected"@),
            None => connected,
        },
{
    if connected {
        None
    } else {
        Some(tool_error(String::from_str("Unity Editor not connected")))
    }
}

/// The check of the editor's status that `unity_execute` and `unity_run_states` make.
pub fn editor_status_check(tool: &str, connected: bool, actual: &str, requested: &str) -> (r:
    Option<ToolResult>)
    ensures
        match r {
            Some(t) => status_check(tool@, connected, actual@, requested@) == Some(answer(t)),
            None => status_check(tool@, connected, actual@, requested@) is None,
        },
{
    if !connected {
        return connection_check(connected);
    }
    if !same_text(actual, requested) {
        let mut msg = concat3("Unity Editor status is \"", actual, "\". `");
        msg.append(tool);
        msg.append("` requires \"");
        msg.append(requested);
        msg.append("\".");
        return Some(tool_error(msg));
    }
    None
}

// ---------------------------------------------------------------------------
// unity_execute
// ---------------------------------------------------------------------------

/// A valid `unity_execute` call.
#[derive(Debug)]
pub struct ExecuteRequest {
    pub code: String,
    pub requested_status: String,
    pub project_path: String,
}

/// How `unity_execute` reads its arguments: the code, the status the editor must be in (not
/// `disconnected`), and the project from the working directory.
pub open spec fn execute_request_spec(
    code: Option<Seq<char>>,
    status: Option<Seq<char>>,
    working_dir: Option<Seq<char>>,
) -> Result<(Seq<char>, Seq<char>, Seq<char>), (Seq<char>, bool)> {
    match code {
        None => Err(error_answer("Missing required parameter: code"@)),
        Some(c) => match nonblank(status) {
            None => Err(error_answer("Missing required parameter: request_editor_status"@)),
            Some(st) => if st == disconnected_status() || !is_known_status(st) {
                Err(
                    error_answer(
                        "Invalid request_editor_status: '"@ + st
                            + "'. Allowed values: editing, playing, playing_paused."@,
                    ),
                )
            } else {
                match nonblank(working_dir) {
                    None => Err(
                        error_answer(
                            "Tool 'unity_execute' requires a selected Unity project working directory."@,
                        ),
                    ),
                    Some(p) => Ok((c, st, p)),
                }
            },
        },
    }
}

pub open spec fn execute_request_view(r: Result<ExecuteRequest, ToolResult>) -> Result<
    (Seq<char>, Seq<char>, Seq<char>),
    (Seq<char>, bool),
> {
    match r {
        Ok(q) => Ok((q.code@, q.requested_status@, q.project_path@)),
        Err(t) => Err(answer(t)),
    }
}

/// Reads the arguments of `unity_execute`.
pub fn execute_request(
    code: Option<&str>,
    request_editor_status: Option<&str>,
    working_dir: Option<&str>,
) -> (r: Result<ExecuteRequest, ToolResult>)
    ensures
        execute_request_view(r) == execute_request_spec(
            arg(code),
            arg(request_editor_status),
            arg(working_dir),
        ),
{
    let code = match code {
        Some(c) => String::from_str(c),
        None => {
            return Err(tool_error(String::from_str("Missing required parameter: code")));
        },
    };
    let status = match nonblank_arg(request_editor_status) {
        Some(s) => s,
        None => {
            return Err(
                tool_error(String::from_str("Missing required parameter: request_editor_status")),
            );
        },
    };
    if same_text(status.as_str(), "disconnected") || !is_known_editor_status(status.as_str()) {
        return Err(
            tool_error(
                concat3(
                    "Invalid request_editor_status: '",
                    status.as_str(),
                    "'. Allowed values: editing, playing, playing_paused.",
                ),
            ),
        );
    }
    let project_path = match nonblank_arg(working_dir) {
        Some(p) => p,
        None => {
            return Err(
                tool_error(
                    String::from_str(
                        "Tool 'unity_execute' requires a selected Unity project working directory.",
                    ),
                ),
            );
        },
    };
    Ok(ExecuteRequest { code, requested_status: status, project_path })
}

/// What `unity_execute` answers for the editor's output or error.
pub open spec fn execute_result_spec(r: Result<Seq<char>, Seq<char>>) -> (Seq<char>, bool) {
    match r {
        Ok(out) => if trim(out).len() == 0 {
            ("Code executed successfully (no output)."@, false)
        } else {
            (trim(out), false)
        },
        Err(e) => error_answer(e),
    }
}

pub open spec fn text_result(r: Result<String, String>) -> Result<Seq<char>, Seq<char>> {
    match r {
        Ok(s) => Ok(s@),
        Err(e) => Err(e@),
    }
}

/// The answer of `unity_execute` once the editor ran the code.
pub fn execute_result(outcome: Result<String, String>) -> (r: ToolResult)
    ensures
        answer(r) == execute_result_spec(text_result(outcome)),
{
    match outcome {
        Ok(output) => {
            let t = trim_str(output.as_str());
            if t.unicode_len() == 0 {
                ToolResult {
                    output: String::from_str("Code executed successfully (no output)."),
                    is_error: false,
                }
            } else {
                ToolResult { output: String::from_str(t), is_error: false }
            }
        },
        Err(e) => tool_error(e),
    }
}

// ---------------------------------------------------------------------------
// unity_run_states
// ---------------------------------------------------------------------------

/// A valid `unity_run_states` call: the project directory as given, and the status the
/// editor must be in.
#[derive(Debug)]
pub struct RunStatesRequest {
    pub project_path: String,
    pub requested_status: String,
}

/// How `unity_run_states` reads its arguments: a working directory that is not blank (kept as
/// given), then a status that is not blank (trimmed).
pub open spec fn run_states_request_spec(
    working_dir: Option<Seq<char>>,
    status: Option<Seq<char>>,
) -> Result<(Seq<char>, Seq<char>), (Seq<char>, bool)> {
    match working_dir {
        Some(p) if trim(p).len() > 0 => match nonblank(status) {
            Some(st) => Ok((p, st)),
            None => Err(error_answer("Missing required parameter: request_editor_status"@)),
        },
        _ => Err(
            error_answer(
                "Tool 'unity_run_states' requires a selected Unity project working directory."@,
            ),
        ),
    }
}

pub open spec fn run_states_request_view(r: Result<RunStatesRequest, ToolResult>) -> Result<
    (Seq<char>, Seq<char>),
    (Seq<char>, bool),
> {
    match r {
        Ok(q) => Ok((q.project_path@, q.requested_status@)),
        Err(t) => Err(answer(t)),
    }
}

/// Reads the arguments of `unity_run_states`.
pub fn run_states_request(working_dir: Option<&str>, request_editor_status: Option<&str>) -> (r:
    Result<RunStatesRequest, ToolResult>)
    ensures
        run_states_request_view(r) == run_states_request_spec(
            arg(working_dir),
            arg(request_editor_status),
        ),
{
    let project_path = match working_dir {
        Some(p) => {
            if trim_str(p).unicode_len() == 0 {
                return Err(
                    tool_error(
                        String::from_str(
                            "Tool 'unity_run_states' requires a selected Unity project working directory.",
                        ),
                    ),
                );
            }
            String::from_str(p)
        },
        None => {
            return Err(
                tool_error(
                    String::from_str(
                        "Tool 'unity_run_states' requires a selected Unity project working directory.",
                    ),
                ),
            );
        },
    };
    match nonblank_arg(request_editor_status) {
        Some(st) => Ok(RunStatesRequest { project_path, requested_status: st }),
        None => Err(
            tool_error(String::from_str("Missing required parameter: request_editor_status")),
        ),
    }
}

/// What `unity_run_states` answers for the states' output or error: the output trimmed, or
/// the error.
pub open spec fn run_states_result_spec(r: Result<Seq<char>, Seq<char>>) -> (Seq<char>, bool) {
    match r {
        Ok(out) => (trim(out), false),
        Err(e) => error_answer(e),
    }
}

/// The answer of `unity_run_states` once the states ran.
pub fn run_states_result(outcome: Result<String, String>) -> (r: ToolResult)
    ensures
        answer(r) == run_states_result_spec(text_result(outcome)),
{
    match outcome {
        Ok(output) => ToolResult {
            output: String::from_str(trim_str(output.as_str())),
            is_error: false,
        },
        Err(e) => tool_error(e),
    }
}

/// The answer of a tool whose preparatory step failed with `e`.
pub fn step_failure(e: String) -> (r: ToolResult)
    ensures
        answer(r) == error_answer(e@),
{
    tool_error(e)
}

// ---------------------------------------------------------------------------
// unity_recompile
// ---------------------------------------------------------------------------

/// A valid `unity_recompile` call.
#[derive(Debug)]
pub struct RecompileRequest {
    pub claimed_status: String,
    pub project_path: String,
}

/// How `unity_recompile` reads its arguments: the editor status the agent claims (a known
/// status, as given), then the project path (not blank, trimmed).
pub open spec fn recompile_request_spec(
    editor_status: Option<Seq<char>>,
    project_path: Option<Seq<char>>,
) -> Result<(Seq<char>, Seq<char>), (Seq<char>, bool)> {
    match editor_status {
        None => Err(
            error_answer(
                "Missing required parameter: editor_status. You must pass the current Unity Editor status ("@
                    + status_schema() + ") exactly as shown in the Environment section."@,
            ),
        ),
        Some(claimed) => if !is_known_status(claimed) {
            Err(
                error_answer(
                    "Invalid editor_status: \""@ + claimed + "\". Allowed values: "@
                        + status_schema() + "."@,
                ),
            )
        } else {
            match nonblank(project_path) {
                None => Err(error_answer("Missing required parameter: project_path"@)),
                Some(p) => Ok((claimed, p)),
            }
        },
    }
}

pub open spec fn recompile_request_view(r: Result<RecompileRequest, ToolResult>) -> Result<
    (Seq<char>, Seq<char>),
    (Seq<char>, bool),
> {
    match r {
        Ok(q) => Ok((q.claimed_status@, q.project_path@)),
        Err(t) => Err(answer(t)),
    }
}

/// Reads the arguments of `unity_recompile`.
pub fn recompile_request(editor_status: Option<&str>, project_path: Option<&str>) -> (r: Result<
    RecompileRequest,
    ToolResult,
>)
    ensures
        recompile_request_view(r) == recompile_request_spec(arg(editor_status), arg(project_path)),
{
    let schema = "editing, playing, playing_paused, disconnected";
    let claimed = match editor_status {
        Some(s) => s,
        None => {
            return Err(
                tool_error(
                    concat3(
                        "Missing required parameter: editor_status. You must pass the current Unity Editor status (",
                        schema,
                        ") exactly as shown in the Environment section.",
                    ),
                ),
            );
        },
    };
    if !is_known_editor_status(claimed) {
        let mut msg = concat3("Invalid editor_status: \"", claimed, "\". Allowed values: ");
        msg.append(schema);
        msg.append(".");
        return Err(tool_error(msg));
    }
    match nonblank_arg(project_path) {
        Some(p) => Ok(RecompileRequest { claimed_status: String::from_str(claimed), project_path: p }),
        None => Err(tool_error(String::from_str("Missing required parameter: project_path"))),
    }
}

/// What `unity_recompile` answers after asking the editor its status: nothing where it may
/// recompile.
pub open spec fn recompile_check_spec(claimed: Seq<char>, actual: Seq<char>) -> Option<
    (Seq<char>, bool),
> {
    if claimed != actual {
        Some(
            error_answer(
                "editor_status mismatch: you claimed \""@ + claimed
                    + "\", but the actual editor status is \""@ + actual
                    + "\". Re-read the current editor state and try again."@,
            ),
        )
    } else if actual == disconnected_status() {
        Some(
            error_answer(
                "Unity Editor status is \"disconnected\". `unity_recompile` is unavailable until the Editor reconnects."@,
            ),
        )
    } else if is_play_mode(actual) {
        Some(
            error_answer(
                "Unity Editor status is \""@ + actual
                    + "\". Exit Play Mode before calling `unity_recompile`."@,
            ),
        )
    } else {
        None
    }
}

/// The check `unity_recompile` makes of the editor's actual status.
pub fn recompile_check(claimed: &str, actual: &str) -> (r: Option<ToolResult>)
    ensures
        match r {
            Some(t) => recompile_check_spec(claimed@, actual@) == Some(answer(t)),
            None => recompile_check_spec(claimed@, actual@) is None,
        },
{
    if !same_text(claimed, actual) {
        let mut msg = concat3(
            "editor_status mismatch: you claimed \"",
            claimed,
            "\", but the actual editor status is \"",
        );
        msg.append(actual);
        msg.append("\". Re-read the current editor state and try again.");
        return Some(tool_error(msg));
    }
    if same_text(actual, "disconnected") {
        return Some(
            tool_error(
                String::from_str(
                    "Unity Editor status is \"disconnected\". `unity_recompile` is unavailable until the Editor reconnects.",
                ),
            ),
        );
    }
    if is_play_mode_status(actual) {
        return Some(
            tool_error(
                concat3(
                    "Unity Editor status is \"",
                    actual,
                    "\". Exit Play Mode before calling `unity_recompile`.",
                ),
            ),
        );
    }
    None
}

/// What `unity_recompile` answers once the recompile ended.
pub open spec fn recompile_result_spec(r: Result<Seq<char>, Seq<char>>) -> (Seq<char>, bool) {
    match r {
        Ok(msg) => (msg, false),
        Err(e) => error_answer("Compilation failed:\n"@ + e),
    }
}

/// The answer of `unity_recompile` once the recompile ended.
pub fn recompile_result(outcome: Result<String, String>) -> (r: ToolResult)
    ensures
        answer(r) == recompile_result_spec(text_result(outcome)),
{
    match outcome {
        Ok(msg) => ToolResult { output: msg, is_error: false },
        Err(e) => tool_error(concat2("Compilation failed:\n", e.as_str())),
    }
}

} // verus!

verus! {

// ---------------------------------------------------------------------------
// run_playmode_tests
// ---------------------------------------------------------------------------

/// A valid `run_playmode_tests` call.
#[derive(Debug)]
pub enum PlaymodeRequest {
    Start { project_path: String },
    Status { project_path: String, task_id: String },
    Wait { project_path: String, task_id: String, timeout_secs: u64 },
    Cancel { project_path: String, task_id: String },
}

pub enum PlaymodeRequestView {
    Start { project_path: Seq<char> },
    Status { project_path: Seq<char>, task_id: Seq<char> },
    Wait { project_path: Seq<char>, task_id: Seq<char>, timeout_secs: u64 },
    Cancel { project_path: Seq<char>, task_id: Seq<char> },
}

pub open spec fn playmode_request_view(r: Result<PlaymodeRequest, ToolResult>) -> Result<
    PlaymodeRequestView,
    (Seq<char>, bool),
> {
    match r {
        Ok(PlaymodeRequest::Start { project_path }) => Ok(
            PlaymodeRequestView::Start { project_path: project_path@ },
        ),
        Ok(PlaymodeRequest::Status { project_path, task_id }) => Ok(
            PlaymodeRequestView::Status { project_path: project_path@, task_id: task_id@ },
        ),
        Ok(PlaymodeRequest::Wait { project_path, task_id, timeout_secs }) => Ok(
            PlaymodeRequestView::Wait {
                project_path: project_path@,
                task_id: task_id@,
                timeout_secs,
            },
        ),
        Ok(PlaymodeRequest::Cancel { project_path, task_id }) => Ok(
            PlaymodeRequestView::Cancel { project_path: project_path@, task_id: task_id@ },
        ),
        Err(t) => Err(answer(t)),
    }
}

/// `Missing required parameter: task_id (for action=<action>)`.
pub open spec fn missing_task_id_text(action: Seq<char>) -> Seq<char> {
    "Missing required parameter: task_id (for action="@ + action + ")"@
}

/// How `run_playmode_tests` reads its arguments: the action (trimmed), the project (the
/// `project_path` argument, else the working directory, trimmed), and for `status`, `wait`
/// and `cancel` the task id (trimmed) and for `wait` a timeout of 120 s unless given.
pub open spec fn playmode_request_spec(
    action: Option<Seq<char>>,
    project_path: Option<Seq<char>>,
    working_dir: Option<Seq<char>>,
    task_id: Option<Seq<char>>,
    timeout_sec: Option<u64>,
) -> Result<PlaymodeRequestView, (Seq<char>, bool)> {
    let act = match action {
        Some(a) => trim(a),
        None => Seq::empty(),
    };
    if act.len() == 0 {
        Err(error_answer("Missing required parameter: action"@))
    } else {
        let project = match nonblank(project_path) {
            Some(p) => Some(p),
            None => nonblank(working_dir),
        };
        match project {
            None => Err(error_answer("Missing required parameter: project_path"@)),
            Some(p) => if act == "start"@ {
                Ok(PlaymodeRequestView::Start { project_path: p })
            } else if act == "status"@ || act == "wait"@ || act == "cancel"@ {
                match task_id {
                    None => Err(error_answer(missing_task_id_text(act))),
                    Some(id) => if act == "status"@ {
                        Ok(PlaymodeRequestView::Status { project_path: p, task_id: trim(id) })
                    } else if act == "wait"@ {
                        Ok(
                            PlaymodeRequestView::Wait {
                                project_path: p,
                                task_id: trim(id),
                                timeout_secs: match timeout_sec {
                                    Some(t) => t,
                                    None => 120,
                                },
                            },
                        )
                    } else {
                        Ok(PlaymodeRequestView::Cancel { project_path: p, task_id: trim(id) })
                    },
                }
            } else {
                Err(error_answer("Invalid action. Allowed values: start, status, wait, cancel"@))
            },
        }
    }
}

/// Reads the arguments of `run_playmode_tests`.
pub fn playmode_request(
    action: Option<&str>,
    project_path: Option<&str>,
    working_dir: Option<&str>,
    task_id: Option<&str>,
    timeout_sec: Option<u64>,
) -> (r: Result<PlaymodeRequest, ToolResult>)
    ensures
        playmode_request_view(r) == playmode_request_spec(
            arg(action),
            arg(project_path),
            arg(working_dir),
            arg(task_id),
            timeout_sec,
        ),
{
    let act: &str = match action {
        Some(a) => trim_str(a),
        None => "",
    };
    proof {
        reveal_strlit("");
    }
    if act.unicode_len() == 0 {
        return Err(tool_error(String::from_str("Missing required parameter: action")));
    }
    let project = match nonblank_arg(project_path) {
        Some(p) => p,
        None => match nonblank_arg(working_dir) {
            Some(p) => p,
            None => {
                return Err(tool_error(String::from_str("Missing required parameter: project_path")));
            },
        },
    };
    if same_text(act, "start") {
        return Ok(PlaymodeRequest::Start { project_path: project });
    }
    if same_text(act, "status") || same_text(act, "wait") || same_text(act, "cancel") {
        let id = match task_id {
            Some(id) => String::from_str(trim_str(id)),
            None => {
                return Err(tool_error(concat3("Missing required parameter: task_id (for action=", act, ")")));
            },
        };
        if same_text(act, "status") {
            return Ok(PlaymodeRequest::Status { project_path: project, task_id: id });
        }
        if same_text(act, "wait") {
            let timeout_secs = match timeout_sec {
                Some(t) => t,
                None => 120,
            };
            return Ok(PlaymodeRequest::Wait { project_path: project, task_id: id, timeout_secs });
        }
        return Ok(PlaymodeRequest::Cancel { project_path: project, task_id: id });
    }
    Err(tool_error(String::from_str("Invalid action. Allowed values: start, status, wait, cancel")))
}

// ---------------------------------------------------------------------------
// Tools that the agent loop answers itself
// ---------------------------------------------------------------------------

/// A tool that the agent loop intercepts; executing it directly is an error.
#[derive(Debug)]
pub struct InterceptedTool {
    pub name: String,
}

/// `Error: <tool> should be intercepted by agent loop, not executed directly`.
pub open spec fn intercepted_text(name: Seq<char>) -> Seq<char> {
    "Error: "@ + name + " should be intercepted by agent loop, not executed directly"@
}

impl InterceptedTool {
    /// What executing the tool directly answers.
    pub fn execute(&self) -> (r: ToolResult)
        ensures
            answer(r) == error_answer(intercepted_text(self.name@)),
    {
        tool_error(
            concat3(
                "Error: ",
                self.name.as_str(),
                " should be intercepted by agent loop, not executed directly",
            ),
        )
    }
}

/// An intercepted Unity tool of the given name.
pub fn intercepted_unity_yaml_tool(name: &str) -> (t: InterceptedTool)
    ensures
        t.name@ == name@,
{
    InterceptedTool { name: String::from_str(name) }
}

/// `unity_ref_search`, which the agent loop answers.
pub fn unity_ref_search() -> (t: InterceptedTool)
    ensures
        t.name@ == "unity_ref_search"@,
{
    intercepted_unity_yaml_tool("unity_ref_search")
}

/// `unity_asset_search`, which the agent loop answers.
pub fn unity_asset_search() -> (t: InterceptedTool)
    ensures
        t.name@ == "unity_asset_search"@,
{
    intercepted_unity_yaml_tool("unity_asset_search")
}

/// `unity_yaml_list`, which the agent loop answers.
pub fn unity_yaml_list() -> (t: InterceptedTool)
    ensures
        t.name@ == "unity_yaml_list"@,
{
    intercepted_unity_yaml_tool("unity_yaml_list")
}

/// `unity_yaml_search`, which the agent loop answers.
pub fn unity_yaml_search() -> (t: InterceptedTool)
    ensures
        t.name@ == "unity_yaml_search"@,
{
    intercepted_unity_yaml_tool("unity_yaml_search")
}

/// `unity_yaml_read`, which the agent loop answers.
pub fn unity_yaml_read() -> (t: InterceptedTool)
    ensures
        t.name@ == "unity_yaml_read"@,
{
    intercepted_unity_yaml_tool("unity_yaml_read")
}

} // verus!

verus! {

/// A `wait` request waits as long as asked: the given `timeout_sec`, and 120 s only when none
/// is given; the task id is trimmed and the project is the one given.
pub proof fn wait_uses_given_timeout(
    action: Seq<char>,
    project_path: Seq<char>,
    task_id: Seq<char>,
    timeout_sec: Option<u64>,
)
    requires
        trim(action) == "wait"@,
        trim(project_path).len() > 0,
    ensures
        playmode_request_spec(
            Some(action),
            Some(project_path),
            None,
            Some(task_id),
            timeout_sec,
        ) == Ok::<PlaymodeRequestView, (Seq<char>, bool)>(
            PlaymodeRequestView::Wait {
                project_path: trim(project_path),
                task_id: trim(task_id),
                timeout_secs: match timeout_sec {
                    Some(t) => t,
                    None => 120,
                },
            },
        ),
        timeout_sec matches Some(t) ==> playmode_request_spec(
            Some(action),
            Some(project_path),
            None,
            Some(task_id),
            timeout_sec,
        ) matches Ok(PlaymodeRequestView::Wait { timeout_secs, .. }) && timeout_secs == t,
{
    reveal_strlit("wait");
    reveal_strlit("start");
    reveal_strlit("status");
    assert(trim(action) != "start"@);
    assert(trim(action) != "status"@);
}

} // verus!

verus! {

proof fn lemma_status_words_differ()
    ensures
        "editing"@ != "playing"@,
        "editing"@ != "playing_paused"@,
        "editing"@ != "disconnected"@,
        "playing"@ != "playing_paused"@,
        "playing"@ != "disconnected"@,
        "playing_paused"@ != "disconnected"@,
{
    reveal_strlit("editing");
    reveal_strlit("playing");
    reveal_strlit("playing_paused");
    reveal_strlit("disconnected");
    assert("editing"@[0] != "playing"@[0]);
    assert("editing"@[0] != "playing_paused"@[0]);
    assert("editing"@[0] != "disconnected"@[0]);
    assert("playing"@.len() != "playing_paused"@.len());
    assert("playing"@[0] != "disconnected"@[0]);
    assert("playing_paused"@[0] != "disconnected"@[0]);
}

/// `unity_execute` runs code only for an editor status of `editing`, `playing` or
/// `playing_paused` (trimmed).
pub proof fn execute_runs_only_for_live_statuses(
    code: Option<Seq<char>>,
    status: Option<Seq<char>>,
    working_dir: Option<Seq<char>>,
)
    ensures
        match execute_request_spec(code, status, working_dir) {
            Ok((_, st, _)) => st == "editing"@ || st == "playing"@ || st == "playing_paused"@,
            Err(_) => true,
        },
{
    lemma_status_words_differ();
}

/// With code, an editor status of `editing`, `playing` or `playing_paused` (trimmed) and a
/// project, `unity_execute` always goes on, with the status and project trimmed.
pub proof fn execute_accepts_live_statuses(code: Seq<char>, status: Seq<char>, working_dir: Seq<char>)
    requires
        trim(status) == "editing"@ || trim(status) == "playing"@ || trim(status)
            == "playing_paused"@,
        trim(working_dir).len() > 0,
    ensures
        execute_request_spec(Some(code), Some(status), Some(working_dir)) == Ok::<
            (Seq<char>, Seq<char>, Seq<char>),
            (Seq<char>, bool),
        >((code, trim(status), trim(working_dir))),
{
    lemma_status_words_differ();
    reveal_strlit("editing");
    reveal_strlit("playing");
    reveal_strlit("playing_paused");
}

/// `unity_recompile` goes ahead exactly when the claimed status is the actual one and the
/// editor is neither disconnected nor in Play Mode.
pub proof fn recompile_goes_ahead_only_when_editing(claimed: Seq<char>, actual: Seq<char>)
    ensures
        recompile_check_spec(claimed, actual) is None <==> (claimed == actual && actual
            != "disconnected"@ && actual != "playing"@ && actual != "playing_paused"@),
{
}

/// `status` and `cancel` requests name the task (trimmed) in the project given, and any
/// action other than `start`, `status`, `wait` and `cancel` is refused.
pub proof fn playmode_actions_dispatch(
    action: Seq<char>,
    project_path: Seq<char>,
    task_id: Seq<char>,
    timeout_sec: Option<u64>,
)
    requires
        trim(project_path).len() > 0,
    ensures
        trim(action) == "status"@ ==> playmode_request_spec(
            Some(action),
            Some(project_path),
            None,
            Some(task_id),
            timeout_sec,
        ) == Ok::<PlaymodeRequestView, (Seq<char>, bool)>(
            PlaymodeRequestView::Status {
                project_path: trim(project_path),
                task_id: trim(task_id),
            },
        ),
        trim(action) == "cancel"@ ==> playmode_request_spec(
            Some(action),
            Some(project_path),
            None,
            Some(task_id),
            timeout_sec,
        ) == Ok::<PlaymodeRequestView, (Seq<char>, bool)>(
            PlaymodeRequestView::Cancel {
                project_path: trim(project_path),
                task_id: trim(task_id),
            },
        ),
        trim(action).len() > 0 && trim(action) != "start"@ && trim(action) != "status"@ && trim(
            action,
        ) != "wait"@ && trim(action) != "cancel"@ ==> playmode_request_spec(
            Some(action),
            Some(project_path),
            None,
            Some(task_id),
            timeout_sec,
        ) == Err::<PlaymodeRequestView, (Seq<char>, bool)>(
            error_answer("Invalid action. Allowed values: start, status, wait, cancel"@),
        ),
{
    reveal_strlit("start");
    reveal_strlit("status");
    reveal_strlit("wait");
    reveal_strlit("cancel");
    assert("status"@ != "start"@) by {
        assert("status"@[3] != "start"@[3]);
    }
    assert("cancel"@ != "start"@) by {
        assert("cancel"@[0] != "start"@[0]);
    }
    assert("cancel"@ != "status"@) by {
        assert("cancel"@[0] != "status"@[0]);
    }
    assert("cancel"@ != "wait"@) by {
        assert("cancel"@[0] != "wait"@[0]);
    }
}

} // verus!
