use vstd::prelude::*;

use crate::stats::FlowTaskStats;
use crate::text::{
    char_vec, concat2, is_white_space, lemma_trim_of_trimmed, lemma_trim_shape, push_char,
    string_of, trim, trim_is_idempotent, trim_range,
};

verus! {

/// The kinds of flow that the orchestrator runs.
#[derive(Debug, Clone, Copy, PartialEq, Eq, Structural)]
pub enum FlowType {
    RunPlayModeTests,
}

/// Where a flow task stands.
#[derive(Debug, Clone, Copy, PartialEq, Eq, Structural)]
pub enum FlowState {
    Queued,
    Running,
    WaitingReconnect,
    Succeeded,
    Failed,
    Cancelled,
}

/// The states after which a task never runs again.
pub open spec fn is_terminal_state(s: FlowState) -> bool {
    s == FlowState::Succeeded || s == FlowState::Failed || s == FlowState::Cancelled
}

impl FlowState {
    /// Whether the task has finished: succeeded, failed or was cancelled.
    pub fn is_terminal(self) -> (b: bool)
        ensures
            b == is_terminal_state(self),
    {
        match self {
            FlowState::Succeeded | FlowState::Failed | FlowState::Cancelled => true,
            _ => false,
        }
    }
}

/// The durable record of one flow task.
#[derive(Debug)]
pub struct FlowTaskRecord {
    pub task_id: String,
    pub flow_type: FlowType,
    pub project_path: String,
    pub state: FlowState,
    pub step_index: u32,
    pub updated_at_ms: u64,
    pub created_at_ms: u64,
    pub last_error: Option<String>,
    pub detail: Option<String>,
    pub stats: Option<FlowTaskStats>,
}

/// A copy of an optional string.
pub fn copy_opt_string(o: &Option<String>) -> (r: Option<String>)
    ensures
        r == *o,
{
    match o {
        Some(s) => Some(s.clone()),
        None => None,
    }
}

impl Clone for FlowTaskRecord {
    fn clone(&self) -> (r: Self)
        ensures
            r == *self,
    {
        FlowTaskRecord {
            task_id: self.task_id.clone(),
            flow_type: self.flow_type,
            project_path: self.project_path.clone(),
            state: self.state,
            step_index: self.step_index,
            updated_at_ms: self.updated_at_ms,
            created_at_ms: self.created_at_ms,
            last_error: copy_opt_string(&self.last_error),
            detail: copy_opt_string(&self.detail),
            stats: self.stats,
        }
    }
}

/// What starting a flow answers.
#[derive(Debug)]
pub struct FlowStartResult {
    pub task_id: String,
    pub state: FlowState,
}

// ---------------------------------------------------------------------------
// Paths
// ---------------------------------------------------------------------------

/// `c`, with a backslash turned into a slash.
pub open spec fn slash_char(c: char) -> char {
    if c == '\\' {
        '/'
    } else {
        c
    }
}

/// The key under which a project's store is kept: the path trimmed, with forward slashes.
pub open spec fn normalized_path(p: Seq<char>) -> Seq<char> {
    trim(p).map_values(|c: char| slash_char(c))
}

/// Trims `project_path` and turns each backslash into a slash.
pub fn normalize_project_path(project_path: &str) -> (r: String)
    ensures
        r@ == normalized_path(project_path@),
{
    let v = char_vec(project_path);
    let (a, b) = trim_range(&v, 0, v.len());
    assert(v@.subrange(0, v@.len() as int) =~= project_path@);
    let ghost t = v@.subrange(a as int, b as int);
    let mut r = String::new();
    let mut i = a;
    while i < b
        invariant
            a <= i <= b <= v@.len(),
            t == v@.subrange(a as int, b as int),
            r@ == v@.subrange(a as int, i as int).map_values(|c: char| slash_char(c)),
        decreases b - i,
    {
        let c = v[i];
        let d = if c == '\\' {
            '/'
        } else {
            c
        };
        push_char(&mut r, d);
        assert(v@.subrange(a as int, i + 1).map_values(|c: char| slash_char(c)) =~= v@.subrange(
            a as int,
            i as int,
        ).map_values(|c: char| slash_char(c)).push(slash_char(c)));
        i = i + 1;
    }
    r
}

/// The name of the file that holds a task: the task id followed by `.json`.
pub open spec fn task_file_name(task_id: Seq<char>) -> Seq<char> {
    task_id + ".json"@
}

/// An ASCII letter, as a drive letter is.
pub open spec fn is_drive_letter(c: char) -> bool {
    ('a' <= c <= 'z') || ('A' <= c <= 'Z')
}

/// A file name that `Path::join` appends to a directory rather than putting in its place:
/// not empty, starting with no separator (no root, no UNC or device prefix), and not
/// drive-qualified (`C:...`).
pub open spec fn is_plain_file_name(name: Seq<char>) -> bool {
    &&& name.len() > 0
    &&& name[0] != '/'
    &&& name[0] != '\\'
    &&& !(name.len() >= 2 && is_drive_letter(name[0]) && name[1] == ':')
}

/// `base` starts with the verbatim prefix `\\?\`.
pub open spec fn has_verbatim_prefix(base: Seq<char>) -> bool {
    &&& base.len() >= 4
    &&& base[0] == '\\'
    &&& base[1] == '\\'
    &&& base[2] == '?'
    &&& base[3] == '\\'
}

/// `s` starts with `\\?`: it is a verbatim prefix, or becomes one when a separator is joined
/// onto it.
pub open spec fn starts_like_verbatim(s: Seq<char>) -> bool {
    &&& s.len() >= 3
    &&& s[0] == '\\'
    &&& s[1] == '\\'
    &&& s[2] == '?'
}

/// What joining a plain relative name onto `base` can give: the name appended, after one
/// separator or none.
pub open spec fn appended_path(base: Seq<char>, name: Seq<char>, r: Seq<char>) -> bool {
    ||| r == base + name
    ||| r == base + seq!['/'] + name
    ||| r == base + seq!['\\'] + name
}

/// `base` ends in a path separator or in a drive colon.
pub open spec fn ends_in_separator_or_colon(base: Seq<char>) -> bool {
    base.len() > 0 && (base.last() == '/' || base.last() == '\\' || base.last() == ':')
}

/// `r` is `base` with the plain relative name `name` joined onto it: the name itself for an
/// empty base; the base, one separator and the name for a base that ends in neither a
/// separator nor a colon; otherwise the name appended after one separator or none.
pub open spec fn joined_path(base: Seq<char>, name: Seq<char>, r: Seq<char>) -> bool {
    if base.len() == 0 {
        r == name
    } else if ends_in_separator_or_colon(base) {
        appended_path(base, name, r)
    } else {
        r == base + seq!['/'] + name || r == base + seq!['\\'] + name
    }
}

/// A join is always an append.
pub proof fn lemma_joined_is_appended(base: Seq<char>, name: Seq<char>, r: Seq<char>)
    requires
        joined_path(base, name, r),
    ensures
        appended_path(base, name, r),
{
    if base.len() == 0 {
        assert(base + name =~= name);
    }
}

/// `Path::join` of `name` onto `base`, as a string.
///
/// Trusted: where `name` is a plain relative name and `base` has no verbatim prefix,
/// `std::path::Path::join` extends `base` with it: an empty base gives the name, a
/// base that does not end in a separator gets one separator before the name (`/` or `\`,
/// by platform). After a base that ends in a separator or a colon, only "one separator or
/// none" is stated, since a drive-only base such as `C:` takes none on one platform and one
/// on another. What it gives for other names is left unsaid.
#[verifier::external_body]
fn join_path(base: &str, name: &str) -> (r: String)
    ensures
        is_plain_file_name(name@) && !has_verbatim_prefix(base@) ==> joined_path(base@, name@, r@),
{
    std::path::Path::new(base).join(name).to_string_lossy().into_owned()
}

/// The path of the file that holds task `task_id` in `storage_dir`: the directory joined
/// with `<task_id>.json`.
pub fn task_file_path(storage_dir: &str, task_id: &str) -> (r: String)
    ensures
        is_plain_file_name(task_file_name(task_id@)) && !has_verbatim_prefix(storage_dir@)
            ==> joined_path(storage_dir@, task_file_name(task_id@), r@),
{
    let name = concat2(task_id, ".json");
    join_path(storage_dir, name.as_str())
}

// ---------------------------------------------------------------------------
// Clock and identifiers
// ---------------------------------------------------------------------------

#[verifier::external_type_specification]
#[verifier::external_body]
pub struct ExSystemTime(std::time::SystemTime);

/// The system clock's current time.
///
/// Trusted: calls `std::time::SystemTime::now`. Its value depends on the clock, so nothing is
/// said of it.
#[verifier::external_body]
fn system_time_now() -> (r: std::time::SystemTime) {
    std::time::SystemTime::now()
}

/// How long after the Unix epoch `t` is, or nothing for a time before it.
///
/// Trusted: calls `SystemTime::duration_since(UNIX_EPOCH)` and keeps the `Ok` value. The
/// duration is opaque here, so nothing is said of it.
#[verifier::external_body]
fn since_unix_epoch(t: &std::time::SystemTime) -> (r: Option<core::time::Duration>) {
    t.duration_since(std::time::UNIX_EPOCH).ok()
}

/// The whole seconds of `d`.
///
/// Trusted: calls `Duration::as_secs`. The duration is opaque here, so nothing is said of it.
#[verifier::external_body]
fn duration_secs(d: &core::time::Duration) -> (r: u64) {
    d.as_secs()
}

/// The nanoseconds of `d` beyond its whole seconds.
///
/// Trusted: calls `Duration::subsec_nanos`, which the documentation bounds below one second.
#[verifier::external_body]
fn duration_subsec_nanos(d: &core::time::Duration) -> (r: u32)
    ensures
        r < 1_000_000_000,
{
    d.subsec_nanos()
}

/// A clock reading in milliseconds as a `u64` (truncated), and zero for a clock before the
/// epoch.
pub open spec fn millis_u64(ms: Option<u128>) -> u64 {
    match ms {
        Some(m) => (m % 0x1_0000_0000_0000_0000) as u64,
        None => 0,
    }
}

pub fn millis_to_u64(ms: Option<u128>) -> (r: u64)
    ensures
        r == millis_u64(ms),
{
    match ms {
        Some(m) => (m % 0x1_0000_0000_0000_0000) as u64,
        None => 0,
    }
}

/// The whole milliseconds of a duration of `secs` seconds and `subsec_nanos` nanoseconds.
pub open spec fn whole_millis(secs: u64, subsec_nanos: u32) -> int {
    secs * 1000 + subsec_nanos / 1_000_000
}

/// The whole milliseconds of a duration (`Duration::as_millis`).
pub fn millis_of(secs: u64, subsec_nanos: u32) -> (r: u128)
    ensures
        r == whole_millis(secs, subsec_nanos),
{
    (secs as u128) * 1000 + (subsec_nanos / 1_000_000) as u128
}

/// The clock reading, in milliseconds truncated to `u64`, of a time `parts` (whole seconds
/// and nanoseconds) after the Unix epoch; zero for a time before it.
pub open spec fn epoch_millis(parts: Option<(u64, u32)>) -> u64 {
    match parts {
        Some((secs, nanos)) => millis_u64(Some(whole_millis(secs, nanos) as u128)),
        None => 0,
    }
}

/// Milliseconds since the Unix epoch, truncated to `u64`, of a time that lies `parts` after
/// it; zero where the time lies before the epoch.
pub fn millis_since_epoch(parts: Option<(u64, u32)>) -> (r: u64)
    ensures
        r == epoch_millis(parts),
{
    match parts {
        Some((secs, nanos)) => millis_to_u64(Some(millis_of(secs, nanos))),
        None => 0,
    }
}

/// The current time in milliseconds since the Unix epoch (truncated to `u64`), or zero where
/// the clock reads earlier.
pub fn now_ms() -> (r: u64)
    ensures
        exists|parts: Option<(u64, u32)>| r == epoch_millis(parts),
{
    let now = system_time_now();
    let parts = match since_unix_epoch(&now) {
        Some(d) => Some((duration_secs(&d), duration_subsec_nanos(&d))),
        None => None,
    };
    millis_since_epoch(parts)
}

pub open spec fn is_lower_hex(c: char) -> bool {
    ('0' <= c <= '9') || ('a' <= c <= 'f')
}

/// The hyphenated lower-case form of a version 4 UUID, `xxxxxxxx-xxxx-4xxx-yxxx-xxxxxxxxxxxx`.
pub open spec fn is_v4_uuid_text(s: Seq<char>) -> bool {
    &&& s.len() == 36
    &&& forall|i: int|
        0 <= i < 36 ==> (if i == 8 || i == 13 || i == 18 || i == 23 {
            s[i] == '-'
        } else {
            is_lower_hex(#[trigger] s[i])
        })
    &&& s[14] == '4'
}

/// A fresh random UUID (version 4) in its hyphenated lower-case form.
///
/// Trusted: calls `uuid::Uuid::new_v4` and formats it with `to_string`, which writes the 16
/// bytes as hyphenated lower-case hex with version nibble 4. The value itself is random.
#[verifier::external_body]
fn new_uuid_v4() -> (r: String)
    ensures
        is_v4_uuid_text(r@),
{
    uuid::Uuid::new_v4().to_string()
}

/// The id of a flow task made from a UUID text.
pub open spec fn task_id_of(uuid: Seq<char>) -> Seq<char> {
    "flow-"@ + uuid
}

/// A fresh task id: `flow-` followed by a random version 4 UUID.
pub fn new_task_id() -> (r: String)
    ensures
        exists|u: Seq<char>| is_v4_uuid_text(u) && r@ == task_id_of(u),
{
    let u = new_uuid_v4();
    concat2("flow-", u.as_str())
}

/// The record of a task that was just created.
pub open spec fn created_record(
    task_id: String,
    project_path: String,
    created_at_ms: u64,
    detail: String,
) -> FlowTaskRecord {
    FlowTaskRecord {
        task_id,
        flow_type: FlowType::RunPlayModeTests,
        project_path,
        state: FlowState::Queued,
        step_index: 0,
        updated_at_ms: created_at_ms,
        created_at_ms,
        last_error: None,
        detail: Some(detail),
        stats: None,
    }
}

/// A new PlayMode-tests task, queued at step 0 with detail `Task created`.
pub fn new_task_record(task_id: String, project_path: String, created_at_ms: u64) -> (r:
    FlowTaskRecord)
    ensures
        r.detail matches Some(d) && d@ == "Task created"@,
        r == created_record(task_id, project_path, created_at_ms, r.detail->0),
{
    FlowTaskRecord {
        task_id,
        flow_type: FlowType::RunPlayModeTests,
        project_path,
        state: FlowState::Queued,
        step_index: 0,
        updated_at_ms: created_at_ms,
        created_at_ms,
        last_error: None,
        detail: Some(String::from_str("Task created")),
        stats: None,
    }
}

} // verus!

verus! {

/// Normalizing a project path twice gives what normalizing it once gives, and a normalized
/// path holds no backslash: every spelling of a project maps to one store key.
pub proof fn normalize_is_idempotent(p: Seq<char>)
    ensures
        normalized_path(normalized_path(p)) == normalized_path(p),
        !normalized_path(p).contains('\\'),
{
    let t = trim(p);
    let q = normalized_path(p);
    lemma_trim_shape(p);
    assert(q.len() == t.len());
    if q.len() > 0 {
        assert(q[0] == slash_char(t[0]));
        assert(q.last() == slash_char(t.last()));
    }
    lemma_trim_of_trimmed(q);
    assert(q.map_values(|c: char| slash_char(c)) =~= q);
    if q.contains('\\') {
        let i = choose|i: int| 0 <= i < q.len() && q[i] == '\\';
        assert(q[i] == slash_char(t[i]));
    }
}

} // verus!

verus! {

/// `dir` is `project_path` with `Library`, `Locus` and `Flows` joined onto it in turn.
pub open spec fn is_flows_dir(project_path: Seq<char>, dir: Seq<char>) -> bool {
    exists|a: Seq<char>, b: Seq<char>|
        #[trigger] joined_path(project_path, "Library"@, a) && #[trigger] joined_path(
            a,
            "Locus"@,
            b,
        ) && joined_path(b, "Flows"@, dir)
}

/// Joining a name whose first three characters hold no `?` keeps a path from starting like a
/// verbatim prefix.
proof fn lemma_join_not_verbatim(base: Seq<char>, name: Seq<char>, r: Seq<char>)
    requires
        joined_path(base, name, r),
        !starts_like_verbatim(base),
        name.len() >= 3,
        name[0] != '?' && name[1] != '?' && name[2] != '?',
    ensures
        !starts_like_verbatim(r),
{
    lemma_joined_is_appended(base, name, r);
    if base.len() >= 3 {
        assert(r[0] == base[0] && r[1] == base[1] && r[2] == base[2]);
    } else if r == base + name {
        assert(r[2] == name[2 - base.len()]);
    } else if r == base + seq!['/'] + name {
        if base.len() < 2 {
            assert(r[2] == name[1 - base.len()]);
        }
    } else {
        if base.len() < 2 {
            assert(r[2] == name[1 - base.len()]);
        }
    }
}

/// The directory that holds a project's task files: `<project>/Library/Locus/Flows`.
pub fn storage_dir_of(project_path: &str) -> (r: String)
    ensures
        !starts_like_verbatim(project_path@) ==> is_flows_dir(project_path@, r@),
{
    proof {
        reveal_strlit("Library");
        reveal_strlit("Locus");
        reveal_strlit("Flows");
    }
    let a = join_path(project_path, "Library");
    proof {
        if !starts_like_verbatim(project_path@) {
            lemma_join_not_verbatim(project_path@, "Library"@, a@);
        }
    }
    let b = join_path(a.as_str(), "Locus");
    proof {
        if !starts_like_verbatim(project_path@) {
            lemma_join_not_verbatim(a@, "Locus"@, b@);
        }
    }
    let r = join_path(b.as_str(), "Flows");
    proof {
        if !starts_like_verbatim(project_path@) {
            assert(joined_path(b@, "Flows"@, r@));
        }
    }
    r
}

/// The index of the last `.` in `s`, or -1 where there is none.
pub open spec fn last_dot(s: Seq<char>) -> int
    decreases s.len(),
{
    if s.len() == 0 {
        -1
    } else if s.last() == '.' {
        s.len() - 1
    } else {
        last_dot(s.drop_last())
    }
}

/// The extension of a file name as `Path::extension` gives it: what follows the last `.`,
/// where that `.` is not the name's first character.
pub open spec fn extension_of(name: Seq<char>) -> Option<Seq<char>> {
    if last_dot(name) > 0 {
        Some(name.skip(last_dot(name) + 1))
    } else {
        None
    }
}

/// Whether a directory entry named `file_name` is a task file: its extension is `json`.
pub fn is_task_file_name(file_name: &str) -> (b: bool)
    ensures
        b == (extension_of(file_name@) == Some("json"@)),
{
    let v = char_vec(file_name);
    let mut k = v.len();
    assert(v@.take(k as int) =~= v@);
    while k > 0 && v[k - 1] != '.'
        invariant
            k <= v@.len(),
            v@ == file_name@,
            last_dot(v@) == last_dot(v@.take(k as int)),
        decreases k,
    {
        assert(v@.take(k as int).drop_last() =~= v@.take(k - 1));
        k = k - 1;
    }
    assert(v@.take(v@.len() as int) =~= v@);
    if k <= 1 {
        if k == 1 {
            assert(v@.take(1).last() == '.');
        }
        return false;
    }
    assert(v@.take(k as int).last() == '.');
    let ext = string_of(&v, k, v.len());
    assert(v@.subrange(k as int, v@.len() as int) =~= v@.skip(k as int));
    ext == String::from_str("json")
}

/// A new queued task for the project `project_path`, created at `created_at_ms`, under a fresh
/// id, and what starting it answers.
pub fn new_task(project_path: &str, created_at_ms: u64) -> (r: (FlowTaskRecord, FlowStartResult))
    ensures
        exists|u: Seq<char>| is_v4_uuid_text(u) && r.0.task_id@ == task_id_of(u),
        r.0.detail matches Some(d) && d@ == "Task created"@,
        r.0 == created_record(r.0.task_id, r.0.project_path, created_at_ms, r.0.detail->0),
        r.0.project_path@ == project_path@,
        r.1.task_id@ == r.0.task_id@,
        r.1.state == FlowState::Queued,
{
    let task_id = new_task_id();
    let record = new_task_record(task_id.clone(), String::from_str(project_path), created_at_ms);
    (record, FlowStartResult { task_id, state: FlowState::Queued })
}

} // verus!

verus! {

/// A path separator, on one platform or another.
pub open spec fn is_separator(c: char) -> bool {
    c == '/' || c == '\\'
}

/// The storage directory of a project whose path is not empty and ends in neither a separator
/// nor a colon is `<project>/Library/Locus/Flows`, each name after one separator.
pub proof fn flows_dir_shape(project_path: Seq<char>, dir: Seq<char>)
    requires
        project_path.len() > 0,
        !ends_in_separator_or_colon(project_path),
        is_flows_dir(project_path, dir),
    ensures
        exists|s1: char, s2: char, s3: char|
            is_separator(s1) && is_separator(s2) && is_separator(s3) && dir == project_path
                + seq![s1] + "Library"@ + seq![s2] + "Locus"@ + seq![s3] + "Flows"@,
{
    reveal_strlit("Library");
    reveal_strlit("Locus");
    reveal_strlit("Flows");
    let (a, b) = choose|a: Seq<char>, b: Seq<char>|
        #[trigger] joined_path(project_path, "Library"@, a) && #[trigger] joined_path(
            a,
            "Locus"@,
            b,
        ) && joined_path(b, "Flows"@, dir);
    let s1 = if a == project_path + seq!['/'] + "Library"@ {
        '/'
    } else {
        '\\'
    };
    assert(a == project_path + seq![s1] + "Library"@);
    assert(a.last() == 'y');
    let s2 = if b == a + seq!['/'] + "Locus"@ {
        '/'
    } else {
        '\\'
    };
    assert(b == a + seq![s2] + "Locus"@);
    assert(b.last() == 's');
    let s3 = if dir == b + seq!['/'] + "Flows"@ {
        '/'
    } else {
        '\\'
    };
    assert(dir == b + seq![s3] + "Flows"@);
    assert(dir == project_path + seq![s1] + "Library"@ + seq![s2] + "Locus"@ + seq![s3]
        + "Flows"@);
}

/// The file of a task with a non-empty id is recognised as a task file: its extension is
/// `json`.
pub proof fn task_file_name_is_recognised(task_id: Seq<char>)
    requires
        task_id.len() > 0,
    ensures
        extension_of(task_file_name(task_id)) == Some("json"@),
{
    reveal_strlit(".json");
    reveal_strlit("json");
    let s = task_file_name(task_id);
    let n = task_id.len() as int;
    assert(s.len() == n + 5);
    assert(s[n] == '.' && s[n + 1] == 'j' && s[n + 2] == 's' && s[n + 3] == 'o' && s[n + 4]
        == 'n');
    assert(s.drop_last() =~= s.take(n + 4));
    assert(s.take(n + 4).drop_last() =~= s.take(n + 3));
    assert(s.take(n + 3).drop_last() =~= s.take(n + 2));
    assert(s.take(n + 2).drop_last() =~= s.take(n + 1));
    assert(last_dot(s.take(n + 1)) == n);
    assert(last_dot(s.take(n + 2)) == n);
    assert(last_dot(s.take(n + 3)) == n);
    assert(last_dot(s.take(n + 4)) == n);
    assert(last_dot(s) == n);
    assert(s.skip(n + 1) =~= "json"@);
}

} // verus!

verus! {

/// White space around a project path does not change its store key.
pub proof fn normalize_ignores_surrounding_space(p: Seq<char>)
    ensures
        normalized_path(trim(p)) == normalized_path(p),
{
    trim_is_idempotent(p);
}

/// A path without surrounding white space and without backslashes is its own key.
pub proof fn normalize_keeps_clean_paths(p: Seq<char>)
    requires
        !p.contains('\\'),
        p.len() == 0 || (!is_white_space(p[0]) && !is_white_space(p.last())),
    ensures
        normalized_path(p) == p,
{
    lemma_trim_of_trimmed(p);
    assert(p.map_values(|c: char| slash_char(c)) =~= p) by {
        assert forall|i: int| 0 <= i < p.len() implies slash_char(p[i]) == p[i] by {
            if p[i] == '\\' {
                assert(p.contains('\\'));
            }
        }
    }
}

} // verus!
