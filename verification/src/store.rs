use vstd::prelude::*;

use crate::flow::{
    FlowState, FlowTaskRecord, ends_in_separator_or_colon, extension_of, is_plain_file_name,
    is_separator, is_terminal_state, joined_path, task_file_name, task_file_name_is_recognised,
};
use crate::stats::FlowTaskStats;
use crate::text::{concat3, decimal, push_decimal};

verus! {

/// The tasks that `records` describe, keyed by task id; of two records with one id the later
/// one counts.
pub open spec fn table_map(records: Seq<FlowTaskRecord>) -> Map<Seq<char>, FlowTaskRecord>
    decreases records.len(),
{
    if records.len() == 0 {
        Map::empty()
    } else {
        table_map(records.drop_last()).insert(records.last().task_id@, records.last())
    }
}

/// The in-memory task table of one project's flow store.
#[derive(Debug)]
pub struct TaskTable {
    records: Vec<FlowTaskRecord>,
}

/// No two records share a task id.
pub open spec fn unique_ids(records: Seq<FlowTaskRecord>) -> bool {
    forall|i: int, j: int|
        0 <= i < records.len() && 0 <= j < records.len() && i != j ==> records[i].task_id@
            != records[j].task_id@
}

proof fn lemma_table_map_dom(records: Seq<FlowTaskRecord>, k: Seq<char>)
    ensures
        table_map(records).contains_key(k) <==> exists|i: int|
            0 <= i < records.len() && #[trigger] records[i].task_id@ == k,
    decreases records.len(),
{
    if records.len() > 0 {
        lemma_table_map_dom(records.drop_last(), k);
        if table_map(records).contains_key(k) && records.last().task_id@ != k {
            let i = choose|i: int|
                0 <= i < records.drop_last().len() && #[trigger] records.drop_last()[i].task_id@
                    == k;
            assert(records[i].task_id@ == k);
        }
        if exists|i: int| 0 <= i < records.len() && #[trigger] records[i].task_id@ == k {
            let i = choose|i: int| 0 <= i < records.len() && #[trigger] records[i].task_id@ == k;
            if i < records.len() - 1 {
                assert(records.drop_last()[i].task_id@ == k);
            }
        }
    }
}

proof fn lemma_table_map_at(records: Seq<FlowTaskRecord>, i: int)
    requires
        unique_ids(records),
        0 <= i < records.len(),
    ensures
        table_map(records).contains_key(records[i].task_id@),
        table_map(records)[records[i].task_id@] == records[i],
    decreases records.len(),
{
    if i < records.len() - 1 {
        assert(records.drop_last()[i] == records[i]);
        lemma_table_map_at(records.drop_last(), i);
    }
}

proof fn lemma_table_map_update(records: Seq<FlowTaskRecord>, i: int, r: FlowTaskRecord)
    requires
        unique_ids(records),
        0 <= i < records.len(),
        records[i].task_id@ == r.task_id@,
    ensures
        table_map(records.update(i, r)) == table_map(records).insert(r.task_id@, r),
    decreases records.len(),
{
    let s = records.update(i, r);
    if i == records.len() - 1 {
        assert(s.drop_last() =~= records.drop_last());
        lemma_table_map_dom(records.drop_last(), r.task_id@);
        if table_map(records.drop_last()).contains_key(r.task_id@) {
            let j = choose|j: int|
                0 <= j < records.drop_last().len() && #[trigger] records.drop_last()[j].task_id@
                    == r.task_id@;
            assert(records[j].task_id@ == r.task_id@);
        }
        assert(table_map(s) =~= table_map(records).insert(r.task_id@, r));
    } else {
        assert(s.drop_last() =~= records.drop_last().update(i, r));
        lemma_table_map_update(records.drop_last(), i, r);
        assert(records.last().task_id@ != r.task_id@);
        assert(table_map(s) =~= table_map(records).insert(r.task_id@, r));
    }
}

/// The record that `tasks` holds under `task_id`, if any.
pub open spec fn lookup(tasks: Map<Seq<char>, FlowTaskRecord>, task_id: Seq<char>) -> Option<
    FlowTaskRecord,
> {
    if tasks.contains_key(task_id) {
        Some(tasks[task_id])
    } else {
        None
    }
}

impl TaskTable {
    #[verifier::type_invariant]
    spec fn well_formed(self) -> bool {
        unique_ids(self.records@)
    }

    /// The tasks of the table, keyed by task id.
    pub closed spec fn view(&self) -> Map<Seq<char>, FlowTaskRecord> {
        table_map(self.records@)
    }

    /// An empty table.
    pub fn new() -> (t: Self)
        ensures
            t.view() == Map::<Seq<char>, FlowTaskRecord>::empty(),
    {
        TaskTable { records: Vec::new() }
    }

    /// The index of the record of `task_id`, if there is one.
    fn position(&self, task_id: &str) -> (r: Option<usize>)
        ensures
            match r {
                Some(i) => i < self.records@.len() && self.records@[i as int].task_id@ == task_id@,
                None => forall|i: int|
                    0 <= i < self.records@.len() ==> #[trigger] self.records@[i].task_id@
                        != task_id@,
            },
    {
        let key = String::from_str(task_id);
        let mut i: usize = 0;
        while i < self.records.len()
            invariant
                i <= self.records@.len(),
                key@ == task_id@,
                forall|j: int| 0 <= j < i ==> #[trigger] self.records@[j].task_id@ != task_id@,
            decreases self.records.len() - i,
        {
            if self.records[i].task_id == key {
                return Some(i);
            }
            i = i + 1;
        }
        None
    }

    /// A copy of the record of `task_id`, if the table holds one.
    pub fn get_record(&self, task_id: &str) -> (r: Option<FlowTaskRecord>)
        ensures
            r == lookup(self.view(), task_id@),
    {
        proof {
            use_type_invariant(self);
        }
        match self.position(task_id) {
            Some(i) => {
                proof {
                    lemma_table_map_at(self.records@, i as int);
                }
                Some(self.records[i].clone())
            },
            None => {
                proof {
                    lemma_table_map_dom(self.records@, task_id@);
                }
                None
            },
        }
    }

    /// Stores `record` under its task id, in place of any record with that id.
    pub fn upsert_record(&mut self, record: FlowTaskRecord)
        ensures
            final(self).view() == old(self).view().insert(record.task_id@, record),
    {
        proof {
            use_type_invariant(&*self);
        }
        let ghost old_records = self.records@;
        match self.position(record.task_id.as_str()) {
            Some(i) => {
                proof {
                    lemma_table_map_update(old_records, i as int, record);
                }
                let mut records: Vec<FlowTaskRecord> = Vec::new();
                std::mem::swap(&mut records, &mut self.records);
                records.set(i, record);
                self.records = records;
            },
            None => {
                proof {
                    assert(old_records.push(record).drop_last() =~= old_records);
                }
                let mut records: Vec<FlowTaskRecord> = Vec::new();
                std::mem::swap(&mut records, &mut self.records);
                records.push(record);
                self.records = records;
            },
        }
    }
}

} // verus!

verus! {

impl TaskTable {
    /// The table that loading `records` in order gives: of two records with one id the later
    /// one stays.
    pub fn from_records(records: &Vec<FlowTaskRecord>) -> (t: Self)
        ensures
            t.view() == table_map(records@),
    {
        let mut t = TaskTable::new();
        let mut i: usize = 0;
        while i < records.len()
            invariant
                i <= records@.len(),
                t.view() == table_map(records@.take(i as int)),
            decreases records.len() - i,
        {
            let r = records[i].clone();
            t.upsert_record(r);
            assert(records@.take(i + 1).drop_last() =~= records@.take(i as int));
            i = i + 1;
        }
        assert(records@.take(records@.len() as int) =~= records@);
        t
    }

    /// Whether the table holds `task_id` and that task was cancelled.
    pub fn is_task_cancelled(&self, task_id: &str) -> (b: bool)
        ensures
            b == (lookup(self.view(), task_id@) matches Some(r) && r.state == FlowState::Cancelled),
    {
        match self.get_record(task_id) {
            Some(record) => record.state == FlowState::Cancelled,
            None => false,
        }
    }
}

} // verus!

verus! {

/// The message for a task that the store does not hold.
pub open spec fn not_found_text(task_id: Seq<char>) -> Seq<char> {
    "Unity flow task '"@ + task_id + "' not found"@
}

/// `Unity flow task '<task_id>' not found`.
pub fn not_found_message(task_id: &str) -> (r: String)
    ensures
        r@ == not_found_text(task_id@),
{
    concat3("Unity flow task '", task_id, "' not found")
}

/// A new state for a task, as the flow writes it.
#[derive(Debug)]
pub struct StateUpdate {
    pub state: FlowState,
    pub step_index: u32,
    pub detail: Option<String>,
    pub last_error: Option<String>,
    pub stats: Option<FlowTaskStats>,
}

/// `record` after `update` at time `now_ms`: state, step, detail, error and statistics are
/// replaced and the update time set; id, type, project and creation time stay.
pub open spec fn applied(record: FlowTaskRecord, update: StateUpdate, now_ms: u64) -> FlowTaskRecord {
    FlowTaskRecord {
        task_id: record.task_id,
        flow_type: record.flow_type,
        project_path: record.project_path,
        state: update.state,
        step_index: update.step_index,
        updated_at_ms: now_ms,
        created_at_ms: record.created_at_ms,
        last_error: update.last_error,
        detail: update.detail,
        stats: update.stats,
    }
}

/// How the store answers a cancel request.
#[derive(Debug)]
pub enum CancelPlan {
    /// The task had already finished; it is answered unchanged.
    AlreadyFinished(FlowTaskRecord),
    /// The task is to be stored as cancelled, and the running tests stopped.
    Cancel(FlowTaskRecord),
}

/// `new` is `old` cancelled by the user at `now_ms`.
pub open spec fn is_cancellation_of(new: FlowTaskRecord, old: FlowTaskRecord, now_ms: u64) -> bool {
    &&& new.task_id == old.task_id
    &&& new.flow_type == old.flow_type
    &&& new.project_path == old.project_path
    &&& new.step_index == old.step_index
    &&& new.created_at_ms == old.created_at_ms
    &&& new.state == FlowState::Cancelled
    &&& new.updated_at_ms == now_ms
    &&& new.detail matches Some(d) && d@ == "Task cancelled by user"@
    &&& new.last_error is None
    &&& new.stats is None
}

/// What a cancel request for a task whose record is `found` may be answered.
pub open spec fn cancel_answer(
    found: Option<FlowTaskRecord>,
    task_id: Seq<char>,
    now_ms: u64,
    r: Result<CancelPlan, String>,
) -> bool {
    match found {
        None => r matches Err(e) && e@ == not_found_text(task_id),
        Some(old) => if is_terminal_state(old.state) {
            r == Ok::<CancelPlan, String>(CancelPlan::AlreadyFinished(old))
        } else {
            r matches Ok(CancelPlan::Cancel(new)) && is_cancellation_of(new, old, now_ms)
        },
    }
}

/// A length of time, as `std::time::Duration` holds it.
#[derive(Debug, Clone, Copy)]
pub struct Span {
    pub secs: u64,
    pub subsec_nanos: u32,
}

pub open spec fn span_nanos(s: Span) -> int {
    s.secs * 1_000_000_000 + s.subsec_nanos
}

/// The length of `s` in nanoseconds.
pub fn span_total_nanos(s: Span) -> (r: u128)
    ensures
        r == span_nanos(s),
{
    (s.secs as u128) * 1_000_000_000 + (s.subsec_nanos as u128)
}

/// What a waiter does next.
#[derive(Debug)]
pub enum WaitStep {
    /// The task has finished: answer its record.
    Finished(FlowTaskRecord),
    /// Give up with this error.
    Failed(String),
    /// Sleep this many milliseconds, then look again.
    Sleep(u64),
}

/// The message for a wait that ran out of time.
pub open spec fn wait_timeout_text(task_id: Seq<char>, secs: u64) -> Seq<char> {
    "Timed out waiting for Unity flow task '"@ + task_id + "' after "@ + decimal(secs as nat)
        + "s"@
}

/// What a waiter on a task whose record is `found`, after `elapsed` of at most `timeout`,
/// does next.
pub open spec fn wait_answer(
    found: Option<FlowTaskRecord>,
    task_id: Seq<char>,
    elapsed: Span,
    timeout: Span,
    r: WaitStep,
) -> bool {
    match found {
        None => r matches WaitStep::Failed(e) && e@ == not_found_text(task_id),
        Some(rec) => if is_terminal_state(rec.state) {
            r == WaitStep::Finished(rec)
        } else if span_nanos(elapsed) > span_nanos(timeout) {
            r matches WaitStep::Failed(e) && e@ == wait_timeout_text(task_id, timeout.secs)
        } else {
            r == WaitStep::Sleep(500)
        },
    }
}

impl TaskTable {
    /// The record of `task_id`, or the not-found error.
    pub fn lookup_task(&self, task_id: &str) -> (r: Result<FlowTaskRecord, String>)
        ensures
            match lookup(self.view(), task_id@) {
                Some(rec) => r == Ok::<FlowTaskRecord, String>(rec),
                None => r matches Err(e) && e@ == not_found_text(task_id@),
            },
    {
        match self.get_record(task_id) {
            Some(rec) => Ok(rec),
            None => Err(not_found_message(task_id)),
        }
    }

    /// The record of `task_id` after `update` at `now_ms`, ready to be stored; the
    /// not-found error where the table holds no such task.
    pub fn updated_record(&self, task_id: &str, update: StateUpdate, now_ms: u64) -> (r: Result<
        FlowTaskRecord,
        String,
    >)
        ensures
            match lookup(self.view(), task_id@) {
                Some(rec) => r == Ok::<FlowTaskRecord, String>(applied(rec, update, now_ms)),
                None => r matches Err(e) && e@ == not_found_text(task_id@),
            },
    {
        match self.get_record(task_id) {
            Some(rec) => Ok(
                FlowTaskRecord {
                    task_id: rec.task_id,
                    flow_type: rec.flow_type,
                    project_path: rec.project_path,
                    state: update.state,
                    step_index: update.step_index,
                    updated_at_ms: now_ms,
                    created_at_ms: rec.created_at_ms,
                    last_error: update.last_error,
                    detail: update.detail,
                    stats: update.stats,
                },
            ),
            None => Err(not_found_message(task_id)),
        }
    }

    /// How to answer a request to cancel `task_id` at `now_ms`: a finished task is answered
    /// unchanged; any other is to be stored as cancelled by the user.
    pub fn plan_cancel(&self, task_id: &str, now_ms: u64) -> (r: Result<CancelPlan, String>)
        ensures
            cancel_answer(lookup(self.view(), task_id@), task_id@, now_ms, r),
    {
        let rec = match self.get_record(task_id) {
            Some(rec) => rec,
            None => {
                return Err(not_found_message(task_id));
            },
        };
        if rec.state.is_terminal() {
            return Ok(CancelPlan::AlreadyFinished(rec));
        }
        Ok(
            CancelPlan::Cancel(
                FlowTaskRecord {
                    task_id: rec.task_id,
                    flow_type: rec.flow_type,
                    project_path: rec.project_path,
                    state: FlowState::Cancelled,
                    step_index: rec.step_index,
                    updated_at_ms: now_ms,
                    created_at_ms: rec.created_at_ms,
                    last_error: None,
                    detail: Some(String::from_str("Task cancelled by user")),
                    stats: None,
                },
            ),
        )
    }

    /// What a waiter on `task_id` does after waiting `elapsed` with the limit `timeout`.
    pub fn wait_step(&self, task_id: &str, elapsed: Span, timeout: Span) -> (r: WaitStep)
        ensures
            wait_answer(lookup(self.view(), task_id@), task_id@, elapsed, timeout, r),
    {
        let rec = match self.get_record(task_id) {
            Some(rec) => rec,
            None => {
                return WaitStep::Failed(not_found_message(task_id));
            },
        };
        if rec.state.is_terminal() {
            return WaitStep::Finished(rec);
        }
        if span_total_nanos(elapsed) > span_total_nanos(timeout) {
            let mut msg = concat3("Timed out waiting for Unity flow task '", task_id, "' after ");
            push_decimal(&mut msg, timeout.secs);
            msg.append("s");
            return WaitStep::Failed(msg);
        }
        WaitStep::Sleep(500)
    }
}

} // verus!

verus! {

/// Reading a task back after storing it gives what was stored, and storing one task leaves
/// every other task as it was.
pub proof fn read_after_write(
    before: Map<Seq<char>, FlowTaskRecord>,
    record: FlowTaskRecord,
    other: Seq<char>,
)
    ensures
        lookup(before.insert(record.task_id@, record), record.task_id@) == Some(record),
        other != record.task_id@ ==> lookup(before.insert(record.task_id@, record), other)
            == lookup(before, other),
{
}

/// Cancelling is idempotent: once a cancellation is stored, a second request is answered
/// with the stored record, unchanged, whatever the time.
pub proof fn cancel_is_idempotent(
    before: Map<Seq<char>, FlowTaskRecord>,
    old: FlowTaskRecord,
    new: FlowTaskRecord,
    now_ms: u64,
    later_ms: u64,
    second: Result<CancelPlan, String>,
)
    requires
        is_cancellation_of(new, old, now_ms),
        cancel_answer(
            lookup(before.insert(new.task_id@, new), new.task_id@),
            new.task_id@,
            later_ms,
            second,
        ),
    ensures
        second == Ok::<CancelPlan, String>(CancelPlan::AlreadyFinished(new)),
{
    read_after_write(before, new, new.task_id@);
}

/// A cancel request never leaves a task unfinished: the record it answers is in a final
/// state, and a finished task is answered as it was.
pub proof fn cancel_finishes_task(
    found: Option<FlowTaskRecord>,
    task_id: Seq<char>,
    now_ms: u64,
    r: Result<CancelPlan, String>,
)
    requires
        cancel_answer(found, task_id, now_ms, r),
    ensures
        r matches Ok(CancelPlan::Cancel(new)) ==> is_terminal_state(new.state) && new.state
            == FlowState::Cancelled,
        r matches Ok(CancelPlan::AlreadyFinished(rec)) ==> found == Some(rec)
            && is_terminal_state(rec.state),
        r is Err <==> found is None,
{
}

/// Waiting ends with a record only once the task has finished, and then with the stored
/// record itself; it sleeps only while the task runs and time is left.
pub proof fn wait_returns_finished_tasks(
    found: Option<FlowTaskRecord>,
    task_id: Seq<char>,
    elapsed: Span,
    timeout: Span,
    r: WaitStep,
)
    requires
        wait_answer(found, task_id, elapsed, timeout, r),
    ensures
        r matches WaitStep::Finished(rec) ==> found == Some(rec) && is_terminal_state(rec.state),
        r matches WaitStep::Sleep(_) ==> found matches Some(rec) && !is_terminal_state(rec.state)
            && span_nanos(elapsed) <= span_nanos(timeout),
{
}

} // verus!

verus! {

/// Reloading the task files restores every task: loading records with distinct ids, in any
/// order, gives a table that holds exactly those ids, each with its record.
pub proof fn reload_restores_tasks(records: Seq<FlowTaskRecord>)
    requires
        unique_ids(records),
    ensures
        forall|i: int|
            0 <= i < records.len() ==> lookup(table_map(records), #[trigger] records[i].task_id@)
                == Some(records[i]),
        forall|k: Seq<char>|
            #[trigger] table_map(records).contains_key(k) <==> exists|i: int|
                0 <= i < records.len() && records[i].task_id@ == k,
{
    assert forall|i: int| 0 <= i < records.len() implies lookup(
        table_map(records),
        #[trigger] records[i].task_id@,
    ) == Some(records[i]) by {
        lemma_table_map_at(records, i);
    }
    assert forall|k: Seq<char>| #[trigger] table_map(records).contains_key(k) <==> exists|i: int|
        0 <= i < records.len() && records[i].task_id@ == k by {
        lemma_table_map_dom(records, k);
    }
}

} // verus!

verus! {

/// Once a cancellation is stored, waiting on the task ends at once with the stored record.
pub proof fn wait_after_cancel_finishes(
    before: Map<Seq<char>, FlowTaskRecord>,
    old: FlowTaskRecord,
    new: FlowTaskRecord,
    now_ms: u64,
    elapsed: Span,
    timeout: Span,
    r: WaitStep,
)
    requires
        is_cancellation_of(new, old, now_ms),
        wait_answer(
            lookup(before.insert(new.task_id@, new), new.task_id@),
            new.task_id@,
            elapsed,
            timeout,
            r,
        ),
    ensures
        r == WaitStep::Finished(new),
{
    read_after_write(before, new, new.task_id@);
}

/// Updating a task changes neither its id, its type, its project nor its creation time.
pub proof fn update_keeps_identity(record: FlowTaskRecord, update: StateUpdate, now_ms: u64)
    ensures
        applied(record, update, now_ms).task_id == record.task_id,
        applied(record, update, now_ms).flow_type == record.flow_type,
        applied(record, update, now_ms).project_path == record.project_path,
        applied(record, update, now_ms).created_at_ms == record.created_at_ms,
        applied(record, update, now_ms).updated_at_ms == now_ms,
{
}

} // verus!

verus! {

/// A task persisted to its file is found again on reload: the file lies directly in the
/// storage directory, its name is recognised as a task file, and loading the stored records
/// (distinct ids) gives the task back.
pub proof fn persisted_task_is_reloaded(
    storage_dir: Seq<char>,
    records: Seq<FlowTaskRecord>,
    i: int,
    path: Seq<char>,
)
    requires
        0 <= i < records.len(),
        only_carrier(records, i),
        records[i].task_id@.len() > 0,
        is_plain_file_name(task_file_name(records[i].task_id@)),
        storage_dir.len() > 0,
        !ends_in_separator_or_colon(storage_dir),
        joined_path(storage_dir, task_file_name(records[i].task_id@), path),
    ensures
        exists|sep: char|
            is_separator(sep) && path == storage_dir + seq![sep] + task_file_name(
                records[i].task_id@,
            ),
        extension_of(task_file_name(records[i].task_id@)) == Some("json"@),
        lookup(table_map(records), records[i].task_id@) == Some(records[i]),
{
    let name = task_file_name(records[i].task_id@);
    if path == storage_dir + seq!['/'] + name {
        assert(is_separator('/'));
    } else {
        assert(is_separator('\\'));
    }
    task_file_name_is_recognised(records[i].task_id@);
    lemma_table_map_sole(records, i);
}

} // verus!

verus! {

/// `records[i]` is the only record that carries its id.
pub open spec fn only_carrier(records: Seq<FlowTaskRecord>, i: int) -> bool {
    forall|j: int|
        0 <= j < records.len() && j != i ==> #[trigger] records[j].task_id@ != records[i].task_id@
}

/// A record that alone carries its id is what loading gives for that id.
proof fn lemma_table_map_sole(records: Seq<FlowTaskRecord>, i: int)
    requires
        0 <= i < records.len(),
        only_carrier(records, i),
    ensures
        lookup(table_map(records), records[i].task_id@) == Some(records[i]),
    decreases records.len(),
{
    if i < records.len() - 1 {
        let rest = records.drop_last();
        assert(rest[i] == records[i]);
        assert forall|j: int| 0 <= j < rest.len() && j != i implies #[trigger] rest[j].task_id@
            != rest[i].task_id@ by {
            assert(rest[j] == records[j]);
        }
        assert(records.last() == records[records.len() - 1]);
        lemma_table_map_sole(rest, i);
    }
}

/// Every task in a loaded table is stored under its own id.
pub proof fn table_map_ids_match(records: Seq<FlowTaskRecord>, task_id: Seq<char>)
    ensures
        lookup(table_map(records), task_id) matches Some(r) ==> r.task_id@ == task_id,
    decreases records.len(),
{
    if records.len() > 0 {
        table_map_ids_match(records.drop_last(), task_id);
    }
}

/// Reloading restores a task whose record alone carries its id, whatever the other records
/// hold.
pub proof fn reload_restores_sole_task(records: Seq<FlowTaskRecord>, i: int)
    requires
        0 <= i < records.len(),
        only_carrier(records, i),
    ensures
        lookup(table_map(records), records[i].task_id@) == Some(records[i]),
{
    lemma_table_map_sole(records, i);
}

impl TaskTable {
    /// The table holds every task under that task's own id.
    pub proof fn lemma_ids_match(&self, task_id: Seq<char>)
        ensures
            lookup(self.view(), task_id) matches Some(r) ==> r.task_id@ == task_id,
    {
        table_map_ids_match(self.records@, task_id);
    }
}

/// Cancelling is idempotent, for the task as looked up under any id: once a cancellation of
/// the task stored under `task_id` is stored, a second request for `task_id` is answered
/// with the stored record, unchanged, whatever the time.
pub proof fn cancel_is_idempotent_for_id(
    table: TaskTable,
    task_id: Seq<char>,
    new: FlowTaskRecord,
    now_ms: u64,
    later_ms: u64,
    second: Result<CancelPlan, String>,
)
    requires
        lookup(table.view(), task_id) matches Some(old) && is_cancellation_of(new, old, now_ms),
        cancel_answer(
            lookup(table.view().insert(new.task_id@, new), task_id),
            task_id,
            later_ms,
            second,
        ),
    ensures
        second == Ok::<CancelPlan, String>(CancelPlan::AlreadyFinished(new)),
{
    table.lemma_ids_match(task_id);
    read_after_write(table.view(), new, task_id);
}

} // verus!

verus! {

/// The final states are exactly succeeded, failed and cancelled.
pub proof fn terminal_states_are_the_final_three(s: FlowState)
    ensures
        is_terminal_state(s) <==> (s == FlowState::Succeeded || s == FlowState::Failed || s
            == FlowState::Cancelled),
{
}

/// A task that has succeeded, failed or been cancelled is answered as it is: nothing is
/// stored, and its state and error stay. Only a queued, running or waiting task is planned
/// for cancellation.
pub proof fn cancel_leaves_finished_tasks(
    old: FlowTaskRecord,
    task_id: Seq<char>,
    now_ms: u64,
    r: Result<CancelPlan, String>,
)
    requires
        cancel_answer(Some(old), task_id, now_ms, r),
    ensures
        old.state == FlowState::Succeeded || old.state == FlowState::Failed || old.state
            == FlowState::Cancelled ==> r == Ok::<CancelPlan, String>(
            CancelPlan::AlreadyFinished(old),
        ),
        r matches Ok(CancelPlan::Cancel(_)) ==> old.state == FlowState::Queued || old.state
            == FlowState::Running || old.state == FlowState::WaitingReconnect,
{
}

/// A waiter on a task that is queued, running or waiting for the editor keeps sleeping for
/// 500 ms while the time waited is within the limit; the time-out error comes only once the
/// time waited exceeds the limit.
pub proof fn wait_sleeps_within_limit(
    found: Option<FlowTaskRecord>,
    task_id: Seq<char>,
    elapsed: Span,
    timeout: Span,
    r: WaitStep,
)
    requires
        wait_answer(found, task_id, elapsed, timeout, r),
    ensures
        found matches Some(rec) && (rec.state == FlowState::Queued || rec.state
            == FlowState::Running || rec.state == FlowState::WaitingReconnect) && elapsed.secs
            * 1_000_000_000 + elapsed.subsec_nanos <= timeout.secs * 1_000_000_000
            + timeout.subsec_nanos ==> r == WaitStep::Sleep(500),
        r matches WaitStep::Failed(_) ==> found is None || (elapsed.secs * 1_000_000_000
            + elapsed.subsec_nanos > timeout.secs * 1_000_000_000 + timeout.subsec_nanos),
{
}

/// An update sets what it carries: the stored record then has the update's state, step,
/// detail, error and statistics, and reading the task back gives them.
pub proof fn update_sets_what_it_carries(
    tasks: Map<Seq<char>, FlowTaskRecord>,
    record: FlowTaskRecord,
    update: StateUpdate,
    now_ms: u64,
)
    ensures
        lookup(
            tasks.insert(record.task_id@, applied(record, update, now_ms)),
            record.task_id@,
        ) matches Some(r) && {
            &&& r.state == update.state
            &&& r.step_index == update.step_index
            &&& r.detail == update.detail
            &&& r.last_error == update.last_error
            &&& r.stats == update.stats
            &&& r.updated_at_ms == now_ms
        },
{
}

} // verus!
