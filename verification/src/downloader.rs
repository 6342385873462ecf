//! The download orchestrator's decisions: which queued tasks start (FIFO up
//! to the concurrency limit), what pause / resume / remove do to task
//! states, how a task's name, folder, connection count and cells are
//! chosen, and how a snapshot merges persisted and live progress.
use vstd::prelude::*;
use crate::storage::{Status, ChunkRow, TaskRow, status_name};
use crate::text::{
    opt_view, str_eq, chars_of, string_of, owned, has_sub, has_char, has_prefix, append, append_str,
    contains, starts_with, trim, trim_by, Strip, strip, eq_lit, dec, dec_u64, dec_int, dec_i64,
    vec_eq, path_extension, ext_rule, plain_name, parse_u64, parse_u64_spec,
};
use crate::catalog::{
    lower_ext, lower_extension, compressed_ext, is_compressed_ext, program_ext, is_program_ext,
    video_ext, is_video_ext, music_ext, is_music_ext, document_ext, is_document_ext, picture_ext,
    is_picture_ext,
};
use crate::probe::{url_basename, infer_ok, inferred_name, sanitize_name, safe_name};
use crate::worker::{Cell, UNKNOWN_END, DriveOutcome, cell_of_row, row_of, cells_from_rows, cells_from_split};
use crate::storage::{default_chunks_n, split_rows_ok, lemma_split_rows_in_range};
use crate::probe::{parse_url, parsed_url};

verus! {

/// The orchestrator's live view of one task.
#[derive(Clone, Debug)]
pub struct TaskState {
    pub id: String,
    pub status: Status,
    pub created_at: i64,
    pub error: Option<String>,
    /// a run (worker set) is attached to the task
    pub running: bool,
}

pub struct TaskView {
    pub id: Seq<char>,
    pub status: Status,
    pub created_at: i64,
    pub error: Option<Seq<char>>,
    pub running: bool,
}

impl View for TaskState {
    type V = TaskView;

    open spec fn view(&self) -> TaskView {
        TaskView {
            id: self.id@,
            status: self.status,
            created_at: self.created_at,
            error: opt_view(self.error),
            running: self.running,
        }
    }
}

pub open spec fn views(ts: Seq<TaskState>) -> Seq<TaskView> {
    Seq::new(ts.len(), |i: int| ts[i]@)
}

/// Task states plus the two concurrency settings.
pub struct Scheduler {
    pub tasks: Vec<TaskState>,
    /// most tasks downloading at once
    pub max_active: u64,
    /// most connections per task
    pub max_conns: u64,
}

/// A task counts against the limit while it connects or downloads.
pub open spec fn occupies_slot(s: Status) -> bool {
    s == Status::Downloading || s == Status::Connecting
}

/// A task that a pause stops: connecting, downloading or waiting its turn.
pub open spec fn is_active(s: Status) -> bool {
    s == Status::Downloading || s == Status::Connecting || s == Status::Queued
}

pub open spec fn running_count(ts: Seq<TaskView>) -> nat
    decreases ts.len(),
{
    if ts.len() == 0 {
        0
    } else {
        running_count(ts.drop_last()) + (if occupies_slot(ts.last().status) {
            1nat
        } else {
            0nat
        })
    }
}

pub open spec fn queued_count(ts: Seq<TaskView>) -> nat
    decreases ts.len(),
{
    if ts.len() == 0 {
        0
    } else {
        queued_count(ts.drop_last()) + (if ts.last().status == Status::Queued {
            1nat
        } else {
            0nat
        })
    }
}

/// Task `i` was created before task `j` (index order breaks ties).
pub open spec fn older(ts: Seq<TaskView>, i: int, j: int) -> bool {
    ts[i].created_at < ts[j].created_at || (ts[i].created_at == ts[j].created_at && i < j)
}

/// Task `i` is the queued task that waited longest.
pub open spec fn oldest_queued(ts: Seq<TaskView>, i: int) -> bool {
    &&& 0 <= i < ts.len()
    &&& ts[i].status == Status::Queued
    &&& forall|j: int|
        0 <= j < ts.len() && j != i && (#[trigger] ts[j]).status == Status::Queued ==> older(
            ts,
            i,
            j,
        )
}

/// What starting a queued task makes of it.
pub open spec fn started(t: TaskView) -> TaskView {
    TaskView { status: Status::Connecting, running: true, ..t }
}

pub open spec fn unique_ids(ts: Seq<TaskView>) -> bool {
    forall|i: int, j: int|
        0 <= i < ts.len() && 0 <= j < ts.len() && i != j ==> (#[trigger] ts[i]).id != (
        #[trigger] ts[j]).id
}

/// Task `i` was started by a pump that took `ts` to `ts2`.
pub open spec fn promoted(ts: Seq<TaskView>, ts2: Seq<TaskView>, i: int) -> bool {
    ts[i].status == Status::Queued && ts2[i].status == Status::Connecting
}

/// The pump's outcome: queued tasks start oldest first until the limit is
/// reached or none is left waiting; nothing else changes.
pub open spec fn pumped(ts: Seq<TaskView>, ts2: Seq<TaskView>, max: nat) -> bool {
    &&& ts2.len() == ts.len()
    &&& forall|i: int|
        0 <= i < ts.len() && (#[trigger] ts[i]).status != Status::Queued ==> ts2[i] == ts[i]
    &&& forall|i: int|
        0 <= i < ts.len() && (#[trigger] ts[i]).status == Status::Queued ==> ts2[i] == ts[i]
            || ts2[i] == started(ts[i])
    &&& forall|i: int, j: int|
        #![trigger promoted(ts, ts2, i), ts2[j]]
        0 <= i < ts.len() && 0 <= j < ts.len() && promoted(ts, ts2, i) && ts2[j].status
            == Status::Queued ==> older(ts, i, j)
    &&& running_count(ts) < max ==> running_count(ts2) == (if running_count(ts) + queued_count(ts)
        < max {
        running_count(ts) + queued_count(ts)
    } else {
        max
    })
    &&& running_count(ts2) + queued_count(ts2) == running_count(ts) + queued_count(ts)
    &&& running_count(ts) >= max ==> ts2 == ts
}

/// The started tasks, oldest first, each with whether a run must be spawned for it.
pub open spec fn start_list(ts: Seq<TaskView>, ts2: Seq<TaskView>, r: Seq<(usize, bool)>) -> bool {
    &&& forall|k: int|
        0 <= k < r.len() ==> {
            &&& 0 <= (#[trigger] r[k]).0 < ts.len()
            &&& promoted(ts, ts2, r[k].0 as int)
            &&& r[k].1 == !ts[r[k].0 as int].running
        }
    &&& forall|i: int|
        0 <= i < ts.len() && promoted(ts, ts2, i) ==> exists|k: int|
            0 <= k < r.len() && (#[trigger] r[k]).0 == i
    &&& forall|k1: int, k2: int|
        0 <= k1 < k2 < r.len() ==> older(ts, (#[trigger] r[k1]).0 as int, (#[trigger] r[k2]).0 as int)
}

proof fn lemma_counts_update(ts: Seq<TaskView>, i: int, x: TaskView)
    requires
        0 <= i < ts.len(),
    ensures
        running_count(ts.update(i, x)) + (if occupies_slot(ts[i].status) {
            1nat
        } else {
            0nat
        }) == running_count(ts) + (if occupies_slot(x.status) {
            1nat
        } else {
            0nat
        }),
        queued_count(ts.update(i, x)) + (if ts[i].status == Status::Queued {
            1nat
        } else {
            0nat
        }) == queued_count(ts) + (if x.status == Status::Queued {
            1nat
        } else {
            0nat
        }),
    decreases ts.len(),
{
    let u = ts.update(i, x);
    if i == ts.len() - 1 {
        assert(u.drop_last() =~= ts.drop_last());
    } else {
        lemma_counts_update(ts.drop_last(), i, x);
        assert(u.drop_last() =~= ts.drop_last().update(i, x));
    }
}

proof fn lemma_queued_exists(ts: Seq<TaskView>)
    requires
        queued_count(ts) > 0,
    ensures
        exists|i: int| 0 <= i < ts.len() && (#[trigger] ts[i]).status == Status::Queued,
    decreases ts.len(),
{
    if ts.last().status != Status::Queued {
        lemma_queued_exists(ts.drop_last());
        let i = choose|i: int|
            0 <= i < ts.drop_last().len() && (#[trigger] ts.drop_last()[i]).status == Status::Queued;
        assert(ts[i] == ts.drop_last()[i]);
    } else {
        assert(ts[ts.len() - 1] == ts.last());
    }
}

/// A pump never fills more slots than the limit allows.
pub proof fn lemma_pump_within_limit(ts: Seq<TaskView>, ts2: Seq<TaskView>, max: nat)
    requires
        pumped(ts, ts2, max),
        running_count(ts) <= max,
    ensures
        running_count(ts2) <= max,
{
}

/// After a pump no slot stays idle while a task waits.
pub proof fn lemma_pump_leaves_no_idle_slot(ts: Seq<TaskView>, ts2: Seq<TaskView>, max: nat)
    requires
        pumped(ts, ts2, max),
    ensures
        running_count(ts2) < max ==> queued_count(ts2) == 0,
{
}

/// A pump starts queued tasks in creation order: every task it started is
/// older than every task it left waiting.
pub proof fn lemma_pump_first_in_first_out(
    ts: Seq<TaskView>,
    ts2: Seq<TaskView>,
    max: nat,
    i: int,
    j: int,
)
    requires
        pumped(ts, ts2, max),
        0 <= i < ts.len(),
        0 <= j < ts.len(),
        promoted(ts, ts2, i),
        ts2[j].status == Status::Queued,
    ensures
        older(ts, i, j),
{
}

/// `i` is the first task with the given id.
pub open spec fn first_with_id(ts: Seq<TaskView>, id: Seq<char>, i: int) -> bool {
    &&& 0 <= i < ts.len()
    &&& ts[i].id == id
    &&& forall|j: int| 0 <= j < i ==> (#[trigger] ts[j]).id != id
}

/// The task a command names, if any.
pub open spec fn find_task(ts: Seq<TaskView>, id: Seq<char>) -> Option<int> {
    if exists|i: int| first_with_id(ts, id, i) {
        Some(choose|i: int| first_with_id(ts, id, i))
    } else {
        None
    }
}

proof fn lemma_find_task(ts: Seq<TaskView>, id: Seq<char>, i: int)
    requires
        first_with_id(ts, id, i),
    ensures
        find_task(ts, id) == Some(i),
{
    let k = choose|k: int| first_with_id(ts, id, k);
    assert(first_with_id(ts, id, k));
    if k < i {
        assert(ts[k].id != id);
    } else if i < k {
        assert(ts[i].id != id);
    }
}

proof fn lemma_find_none(ts: Seq<TaskView>, id: Seq<char>)
    requires
        forall|j: int| 0 <= j < ts.len() ==> (#[trigger] ts[j]).id != id,
    ensures
        find_task(ts, id) is None,
{
}

/// The task list with task `i` in status `s`.
pub open spec fn with_status(ts: Seq<TaskView>, i: int, s: Status) -> Seq<TaskView> {
    ts.update(i, TaskView { status: s, ..ts[i] })
}

/// A pause of `id` changes something: the task exists and is connecting,
/// downloading or queued.
pub open spec fn pause_applies_to(ts: Seq<TaskView>, id: Seq<char>) -> bool {
    match find_task(ts, id) {
        Some(i) => is_active(ts[i].status),
        None => false,
    }
}

/// What a resume of `id` is answered: `Ok(false)` when the task is
/// already connecting, downloading or queued (nothing to do), an error for
/// a completed task, else `Ok(true)` (the task is queued again).
pub open spec fn resume_verdict(ts: Seq<TaskView>, id: Seq<char>) -> Result<bool, SchedError> {
    match find_task(ts, id) {
        Some(i) => if is_active(ts[i].status) {
            Ok(false)
        } else if ts[i].status == Status::Completed {
            Err(SchedError::AlreadyCompleted)
        } else {
            Ok(true)
        },
        None => Ok(true),
    }
}

/// A task queued again, its last error forgotten.
pub open spec fn requeue_view(t: TaskView) -> TaskView {
    TaskView { status: Status::Queued, error: None, ..t }
}

/// The task list with the task named `id` (if any) queued again.
pub open spec fn requeued(ts: Seq<TaskView>, id: Seq<char>) -> Seq<TaskView> {
    match find_task(ts, id) {
        Some(i) => ts.update(i, requeue_view(ts[i])),
        None => ts,
    }
}

/// A task after "pause everything": active tasks are paused.
pub open spec fn pause_view(t: TaskView) -> TaskView {
    if is_active(t.status) {
        TaskView { status: Status::Paused, ..t }
    } else {
        t
    }
}

/// A task after "resume everything": paused and failed tasks are queued again.
pub open spec fn revive_view(t: TaskView) -> TaskView {
    if t.status == Status::Paused || t.status == Status::Error {
        requeue_view(t)
    } else {
        t
    }
}

/// The indices `r` lists, in increasing order, are exactly those whose task
/// satisfies `p`.
pub open spec fn lists_exactly(ts: Seq<TaskView>, r: Seq<usize>, p: spec_fn(TaskView) -> bool) -> bool {
    &&& forall|k: int| 0 <= k < r.len() ==> (#[trigger] r[k]) < ts.len() && p(ts[r[k] as int])
    &&& forall|i: int| 0 <= i < ts.len() && p(#[trigger] ts[i]) ==> exists|k: int|
        0 <= k < r.len() && r[k] == i
    &&& forall|k1: int, k2: int| 0 <= k1 < k2 < r.len() ==> (#[trigger] r[k1]) < (#[trigger] r[k2])
}

/// The tasks that are not completed, in order.
pub open spec fn without_completed(ts: Seq<TaskView>) -> Seq<TaskView>
    decreases ts.len(),
{
    if ts.len() == 0 {
        ts
    } else if ts.last().status == Status::Completed {
        without_completed(ts.drop_last())
    } else {
        without_completed(ts.drop_last()).push(ts.last())
    }
}

/// The ids of the completed tasks, in order.
pub open spec fn completed_ids(ts: Seq<TaskView>) -> Seq<Seq<char>>
    decreases ts.len(),
{
    if ts.len() == 0 {
        Seq::empty()
    } else if ts.last().status == Status::Completed {
        completed_ids(ts.drop_last()).push(ts.last().id)
    } else {
        completed_ids(ts.drop_last())
    }
}

/// What a run's end makes of its task.
pub enum RunEnd {
    /// the run settled the task in this status
    Settled(Status),
    /// the run failed with this message
    Failed(String),
    /// the run was stopped (the task was removed)
    Stopped,
}

pub open spec fn end_view(t: TaskView, e: RunEnd) -> TaskView {
    match e {
        RunEnd::Settled(s) => TaskView { status: s, running: false, ..t },
        RunEnd::Failed(m) => TaskView { status: Status::Error, error: Some(m@), running: false, ..t },
        RunEnd::Stopped => TaskView { running: false, ..t },
    }
}

/// A task as it is restored at start-up: no run is attached, nothing has
/// failed yet, and what was active is paused.
pub open spec fn restored_view(t: TaskView) -> TaskView {
    TaskView {
        status: if is_active(t.status) {
            Status::Paused
        } else {
            t.status
        },
        error: None,
        running: false,
        ..t
    }
}

/// A new task as it is added: queued, with no run and no error.
pub open spec fn added_view(t: TaskView) -> TaskView {
    TaskView { status: Status::Queued, error: None, running: false, ..t }
}

/// What a removal did.
pub struct RemoveEffect {
    /// the task existed and is gone
    pub removed: bool,
    /// its run must be told to stop
    pub signal_stop: bool,
    /// the tasks started afterwards, as `pump` reports them
    pub started: Vec<(usize, bool)>,
}

/// `n` kept within `lo..=hi`.
pub open spec fn clamp(n: u64, lo: u64, hi: u64) -> u64 {
    if n < lo {
        lo
    } else if n > hi {
        hi
    } else {
        n
    }
}

/// A task with the id exists, so a first one does.
proof fn lemma_first_exists(ts: Seq<TaskView>, id: Seq<char>, i: int)
    requires
        0 <= i < ts.len(),
        ts[i].id == id,
    ensures
        find_task(ts, id) is Some,
    decreases i,
{
    if exists|j: int| 0 <= j < i && ts[j].id == id {
        let j = choose|j: int| 0 <= j < i && ts[j].id == id;
        lemma_first_exists(ts, id, j);
    } else {
        assert(first_with_id(ts, id, i));
    }
}

/// What a pause did.
pub struct PauseEffect {
    /// the task was connecting, downloading or queued and is now paused
    pub paused: bool,
    /// its run must be told to pause
    pub signal_run: bool,
    /// the tasks the freed slot let start, as `pump` reports them
    pub started: Vec<(usize, bool)>,
}

/// Why a command was refused.
#[derive(Clone, Copy, Debug, PartialEq, Eq, Structural)]
pub enum SchedError {
    /// a completed download cannot be resumed
    AlreadyCompleted,
    /// a download needs a non-empty URL
    EmptyUrl,
    /// the text is not an HTTP(S) link
    InvalidUrl,
}

impl SchedError {
    pub fn message(&self) -> (r: &'static str)
        ensures
            r@ == sched_error_text(*self),
    {
        match self {
            SchedError::AlreadyCompleted => "already completed",
            SchedError::EmptyUrl => "URL cannot be empty",
            SchedError::InvalidUrl => "Please provide a valid HTTP or HTTPS URL",
        }
    }
}

pub open spec fn sched_error_text(e: SchedError) -> Seq<char> {
    match e {
        SchedError::AlreadyCompleted => "already completed"@,
        SchedError::EmptyUrl => "URL cannot be empty"@,
        SchedError::InvalidUrl => "Please provide a valid HTTP or HTTPS URL"@,
    }
}

impl Scheduler {
    pub open spec fn tv(&self) -> Seq<TaskView> {
        views(self.tasks@)
    }

    pub open spec fn wf(&self) -> bool {
        unique_ids(self.tv())
    }

    fn count_running(&self) -> (r: u64)
        ensures
            r == running_count(self.tv()),
    {
        let ghost ts = self.tv();
        let mut n: u64 = 0;
        for i in 0..self.tasks.len()
            invariant
                ts == self.tv(),
                n == running_count(ts.take(i as int)),
                n <= i,
        {
            assert(ts.take(i + 1).drop_last() =~= ts.take(i as int));
            assert(ts.take(i + 1).last() == ts[i as int]);
            let s = self.tasks[i].status;
            if s == Status::Downloading || s == Status::Connecting {
                n = n + 1;
            }
        }
        assert(ts.take(self.tasks.len() as int) =~= ts);
        n
    }

    fn find_oldest_queued(&self) -> (r: Option<usize>)
        ensures
            match r {
                Some(i) => oldest_queued(self.tv(), i as int),
                None => forall|j: int|
                    0 <= j < self.tv().len() ==> (#[trigger] self.tv()[j]).status != Status::Queued,
            },
    {
        let ghost ts = self.tv();
        let mut best: Option<usize> = None;
        for i in 0..self.tasks.len()
            invariant
                ts == self.tv(),
                match best {
                    Some(b) => {
                        &&& b < i
                        &&& ts[b as int].status == Status::Queued
                        &&& forall|j: int|
                            0 <= j < i && j != b && (#[trigger] ts[j]).status == Status::Queued
                                ==> older(ts, b as int, j)
                    },
                    None => forall|j: int| 0 <= j < i ==> (#[trigger] ts[j]).status != Status::Queued,
                },
        {
            assert(ts[i as int] == self.tasks[i as int]@);
            if self.tasks[i].status == Status::Queued {
                match best {
                    Some(b) => {
                        assert(ts[b as int] == self.tasks[b as int]@);
                        if self.tasks[i].created_at < self.tasks[b].created_at {
                            best = Some(i);
                        }
                    },
                    None => {
                        best = Some(i);
                    },
                }
            }
        }
        best
    }

    fn find_index(&self, id: &str) -> (r: Option<usize>)
        ensures
            match r {
                Some(i) => first_with_id(self.tv(), id@, i as int) && find_task(self.tv(), id@) == Some(
                    i as int,
                ),
                None => find_task(self.tv(), id@) is None,
            },
    {
        for i in 0..self.tasks.len()
            invariant
                forall|j: int| 0 <= j < i ==> (#[trigger] self.tv()[j]).id != id@,
        {
            assert(self.tv()[i as int] == self.tasks[i as int]@);
            if str_eq(self.tasks[i].id.as_str(), id) {
                proof {
                    lemma_find_task(self.tv(), id@, i as int);
                }
                return Some(i);
            }
        }
        proof {
            lemma_find_none(self.tv(), id@);
        }
        None
    }

    fn set_status_at(&mut self, i: usize, s: Status)
        requires
            i < old(self).tasks.len(),
        ensures
            final(self).tv() == with_status(old(self).tv(), i as int, s),
            final(self).max_active == old(self).max_active,
            final(self).max_conns == old(self).max_conns,
            old(self).wf() ==> final(self).wf(),
    {
        let ghost ts = self.tv();
        let mut t = self.tasks.remove(i);
        t.status = s;
        self.tasks.insert(i, t);
        proof {
            assert(self.tv() =~= with_status(ts, i as int, s));
            if unique_ids(ts) {
                let ts2 = self.tv();
                assert forall|a: int, b: int|
                    0 <= a < ts2.len() && 0 <= b < ts2.len() && a != b implies (#[trigger] ts2[a]).id
                    != (#[trigger] ts2[b]).id by {
                    assert(ts2[a].id == ts[a].id);
                    assert(ts2[b].id == ts[b].id);
                }
            }
        }
    }

    /// Whether a pause of `id` changes anything: the task exists and is
    /// connecting, downloading or queued.
    pub fn pause_applies(&self, id: &str) -> (r: bool)
        ensures
            r == pause_applies_to(self.tv(), id@),
    {
        match self.find_index(id) {
            Some(i) => {
                assert(self.tv()[i as int] == self.tasks[i as int]@);
                let s = self.tasks[i].status;
                s == Status::Downloading || s == Status::Connecting || s == Status::Queued
            },
            None => false,
        }
    }

    /// Pause a connecting, downloading or queued task; its slot goes to the
    /// oldest queued task. Any other task, or an unknown id, is left as it is.
    pub fn pause(&mut self, id: &str) -> (r: PauseEffect)
        ensures
            final(self).max_active == old(self).max_active,
            final(self).max_conns == old(self).max_conns,
            r.paused == pause_applies_to(old(self).tv(), id@),
            r.paused ==> {
                let i = find_task(old(self).tv(), id@)->0;
                let mid = with_status(old(self).tv(), i, Status::Paused);
                &&& r.signal_run == old(self).tv()[i].running
                &&& pumped(mid, final(self).tv(), old(self).max_active as nat)
                &&& start_list(mid, final(self).tv(), r.started@)
                &&& final(self).tv()[i].status == Status::Paused
            },
            !r.paused ==> !r.signal_run && r.started@.len() == 0 && final(self).tv() == old(self).tv(),
            old(self).wf() ==> final(self).wf(),
    {
        let ghost ts = self.tv();
        match self.find_index(id) {
            Some(i) => {
                assert(self.tv()[i as int] == self.tasks[i as int]@);
                let s = self.tasks[i].status;
                if s == Status::Downloading || s == Status::Connecting || s == Status::Queued {
                    let signal = self.tasks[i].running;
                    self.set_status_at(i, Status::Paused);
                    let ghost mid = self.tv();
                    let started = self.pump();
                    proof {
                        assert(mid[i as int].status == Status::Paused);
                        assert(self.tv()[i as int] == mid[i as int]);
                    }
                    PauseEffect { paused: true, signal_run: signal, started }
                } else {
                    PauseEffect { paused: false, signal_run: false, started: Vec::new() }
                }
            },
            None => PauseEffect { paused: false, signal_run: false, started: Vec::new() },
        }
    }

    fn requeue_at(&mut self, i: usize)
        requires
            i < old(self).tasks.len(),
        ensures
            final(self).tv() == old(self).tv().update(i as int, requeue_view(old(self).tv()[i as int])),
            final(self).max_active == old(self).max_active,
            final(self).max_conns == old(self).max_conns,
            old(self).wf() ==> final(self).wf(),
    {
        let ghost ts = self.tv();
        let mut t = self.tasks.remove(i);
        t.status = Status::Queued;
        t.error = None;
        self.tasks.insert(i, t);
        proof {
            assert(self.tv() =~= ts.update(i as int, requeue_view(ts[i as int])));
            if unique_ids(ts) {
                let ts2 = self.tv();
                assert forall|a: int, b: int|
                    0 <= a < ts2.len() && 0 <= b < ts2.len() && a != b implies (#[trigger] ts2[a]).id
                    != (#[trigger] ts2[b]).id by {
                    assert(ts2[a].id == ts[a].id);
                    assert(ts2[b].id == ts[b].id);
                }
            }
        }
    }

    /// How a resume of `id` would be answered (see `resume_verdict`).
    pub fn resume_check(&self, id: &str) -> (r: Result<bool, SchedError>)
        ensures
            r == resume_verdict(self.tv(), id@),
    {
        match self.find_index(id) {
            Some(i) => {
                assert(self.tv()[i as int] == self.tasks[i as int]@);
                let s = self.tasks[i].status;
                if s == Status::Downloading || s == Status::Connecting || s == Status::Queued {
                    Ok(false)
                } else if s == Status::Completed {
                    Err(SchedError::AlreadyCompleted)
                } else {
                    Ok(true)
                }
            },
            None => Ok(true),
        }
    }

    /// Queue a paused or failed task again (forgetting its error) and pump.
    /// A task that is already active is left alone; a completed one is refused.
    pub fn resume(&mut self, id: &str) -> (r: Result<Vec<(usize, bool)>, SchedError>)
        ensures
            final(self).max_active == old(self).max_active,
            final(self).max_conns == old(self).max_conns,
            match resume_verdict(old(self).tv(), id@) {
                Err(e) => r == Err::<Vec<(usize, bool)>, SchedError>(e) && final(self).tv() == old(
                    self,
                ).tv(),
                Ok(false) => r is Ok && r->Ok_0@.len() == 0 && final(self).tv() == old(self).tv(),
                Ok(true) => {
                    let mid = requeued(old(self).tv(), id@);
                    &&& r is Ok
                    &&& pumped(mid, final(self).tv(), old(self).max_active as nat)
                    &&& start_list(mid, final(self).tv(), r->Ok_0@)
                },
            },
            resume_verdict(old(self).tv(), id@) == Ok::<bool, SchedError>(true) ==> match find_task(
                old(self).tv(),
                id@,
            ) {
                Some(i) => final(self).tv()[i].status == Status::Queued || final(self).tv()[i].status
                    == Status::Connecting,
                None => true,
            },
            old(self).wf() ==> final(self).wf(),
    {
        let ghost ts = self.tv();
        match self.find_index(id) {
            Some(i) => {
                assert(self.tv()[i as int] == self.tasks[i as int]@);
                let s = self.tasks[i].status;
                if s == Status::Downloading || s == Status::Connecting || s == Status::Queued {
                    Ok(Vec::new())
                } else if s == Status::Completed {
                    Err(SchedError::AlreadyCompleted)
                } else {
                    self.requeue_at(i);
                    let ghost mid = self.tv();
                    assert(mid == requeued(ts, id@));
                    let begun = self.pump();
                    proof {
                        assert(mid[i as int].status == Status::Queued);
                        let f = self.tv()[i as int];
                        assert(f == mid[i as int] || f == started(mid[i as int]));
                    }
                    Ok(begun)
                }
            },
            None => {
                let started = self.pump();
                Ok(started)
            },
        }
    }

    /// Pause every connecting, downloading or queued task. Returns the
    /// paused tasks (by index, in order), each with whether its run must be
    /// told to pause.
    pub fn pause_all(&mut self) -> (r: Vec<(usize, bool)>)
        ensures
            final(self).tv() == old(self).tv().map_values(|t: TaskView| pause_view(t)),
            lists_exactly(old(self).tv(), r@.map_values(|p: (usize, bool)| p.0), |t: TaskView| is_active(t.status)),
            forall|k: int| 0 <= k < r@.len() ==> (#[trigger] r@[k]).1 == old(self).tv()[r@[k].0 as int].running,
            final(self).max_active == old(self).max_active,
            final(self).max_conns == old(self).max_conns,
            old(self).wf() ==> final(self).wf(),
    {
        let ghost ts = self.tv();
        let mut r: Vec<(usize, bool)> = Vec::new();
        let n = self.tasks.len();
        for i in 0..n
            invariant
                n == ts.len(),
                ts == old(self).tv(),
                self.tv().len() == n,
                self.max_active == old(self).max_active,
                self.max_conns == old(self).max_conns,
                old(self).wf() ==> self.wf(),
                forall|j: int| 0 <= j < i ==> (#[trigger] self.tv()[j]) == pause_view(ts[j]),
                forall|j: int| i <= j < n ==> (#[trigger] self.tv()[j]) == ts[j],
                forall|k: int|
                    0 <= k < r@.len() ==> (#[trigger] r@[k]).0 < i && is_active(ts[r@[k].0 as int].status)
                        && r@[k].1 == ts[r@[k].0 as int].running,
                forall|j: int|
                    0 <= j < i && is_active((#[trigger] ts[j]).status) ==> exists|k: int|
                        0 <= k < r@.len() && r@[k].0 == j,
                forall|k1: int, k2: int|
                    0 <= k1 < k2 < r@.len() ==> (#[trigger] r@[k1]).0 < (#[trigger] r@[k2]).0,
        {
            assert(self.tv()[i as int] == self.tasks[i as int]@);
            let s = self.tasks[i].status;
            if s == Status::Downloading || s == Status::Connecting || s == Status::Queued {
                let run = self.tasks[i].running;
                let ghost before = self.tv();
                self.set_status_at(i, Status::Paused);
                let ghost old_r = r@;
                r.push((i, run));
                proof {
                    assert forall|j: int|
                        0 <= j < i + 1 && is_active((#[trigger] ts[j]).status) implies exists|k: int|
                        0 <= k < r@.len() && r@[k].0 == j by {
                        if j == i {
                            assert(r@[r@.len() - 1].0 == j);
                        } else {
                            let k = choose|k: int| 0 <= k < old_r.len() && old_r[k].0 == j;
                            assert(r@[k] == old_r[k]);
                        }
                    }
                }
            }
        }
        proof {
            let rs = r@.map_values(|p: (usize, bool)| p.0);
            assert(self.tv() =~= ts.map_values(|t: TaskView| pause_view(t)));
            assert forall|i: int| 0 <= i < ts.len() && is_active(#[trigger] ts[i].status) implies exists|k: int|
                0 <= k < rs.len() && rs[k] == i by {
                let k = choose|k: int| 0 <= k < r@.len() && r@[k].0 == i;
                assert(rs[k] == r@[k].0);
            }
            assert forall|k1: int, k2: int| 0 <= k1 < k2 < rs.len() implies (#[trigger] rs[k1]) < (
            #[trigger] rs[k2]) by {
                assert(rs[k1] == r@[k1].0);
                assert(rs[k2] == r@[k2].0);
            }
        }
        r
    }

    /// Queue every paused or failed task again and pump. Returns the
    /// re-queued tasks (by index, in order) and the tasks the pump started.
    pub fn resume_all(&mut self) -> (r: (Vec<usize>, Vec<(usize, bool)>))
        ensures
            lists_exactly(
                old(self).tv(),
                r.0@,
                |t: TaskView| t.status == Status::Paused || t.status == Status::Error,
            ),
            pumped(
                old(self).tv().map_values(|t: TaskView| revive_view(t)),
                final(self).tv(),
                old(self).max_active as nat,
            ),
            start_list(old(self).tv().map_values(|t: TaskView| revive_view(t)), final(self).tv(), r.1@),
            final(self).max_active == old(self).max_active,
            final(self).max_conns == old(self).max_conns,
            old(self).wf() ==> final(self).wf(),
    {
        let ghost ts = self.tv();
        let mut r: Vec<usize> = Vec::new();
        let n = self.tasks.len();
        for i in 0..n
            invariant
                n == ts.len(),
                ts == old(self).tv(),
                self.tv().len() == n,
                self.max_active == old(self).max_active,
                self.max_conns == old(self).max_conns,
                old(self).wf() ==> self.wf(),
                forall|j: int| 0 <= j < i ==> (#[trigger] self.tv()[j]) == revive_view(ts[j]),
                forall|j: int| i <= j < n ==> (#[trigger] self.tv()[j]) == ts[j],
                forall|k: int|
                    0 <= k < r@.len() ==> (#[trigger] r@[k]) < i && (ts[r@[k] as int].status
                        == Status::Paused || ts[r@[k] as int].status == Status::Error),
                forall|j: int|
                    0 <= j < i && ((#[trigger] ts[j]).status == Status::Paused || ts[j].status
                        == Status::Error) ==> exists|k: int| 0 <= k < r@.len() && r@[k] == j,
                forall|k1: int, k2: int| 0 <= k1 < k2 < r@.len() ==> (#[trigger] r@[k1]) < (#[trigger] r@[k2]),
        {
            assert(self.tv()[i as int] == self.tasks[i as int]@);
            let s = self.tasks[i].status;
            if s == Status::Paused || s == Status::Error {
                self.requeue_at(i);
                let ghost old_r = r@;
                r.push(i);
                proof {
                    assert forall|j: int|
                        0 <= j < i + 1 && ((#[trigger] ts[j]).status == Status::Paused || ts[j].status
                            == Status::Error) implies exists|k: int| 0 <= k < r@.len() && r@[k] == j by {
                        if j == i {
                            assert(r@[r@.len() - 1] == j);
                        } else {
                            let k = choose|k: int| 0 <= k < old_r.len() && old_r[k] == j;
                            assert(r@[k] == old_r[k]);
                        }
                    }
                }
            }
        }
        proof {
            assert(self.tv() =~= ts.map_values(|t: TaskView| revive_view(t)));
        }
        let started = self.pump();
        (r, started)
    }

    /// Remove a task (its run is told to stop) and pump; an unknown id only pumps.
    pub fn remove(&mut self, id: &str) -> (r: RemoveEffect)
        ensures
            final(self).max_active == old(self).max_active,
            final(self).max_conns == old(self).max_conns,
            r.removed == (find_task(old(self).tv(), id@) is Some),
            match find_task(old(self).tv(), id@) {
                Some(i) => {
                    let mid = old(self).tv().remove(i);
                    &&& r.signal_stop == old(self).tv()[i].running
                    &&& pumped(mid, final(self).tv(), old(self).max_active as nat)
                    &&& start_list(mid, final(self).tv(), r.started@)
                },
                None => {
                    &&& !r.signal_stop
                    &&& pumped(old(self).tv(), final(self).tv(), old(self).max_active as nat)
                    &&& start_list(old(self).tv(), final(self).tv(), r.started@)
                },
            },
            old(self).wf() ==> final(self).wf(),
    {
        let ghost ts = self.tv();
        match self.find_index(id) {
            Some(i) => {
                assert(self.tv()[i as int] == self.tasks[i as int]@);
                let t = self.tasks.remove(i);
                proof {
                    assert(self.tv() =~= ts.remove(i as int));
                    if unique_ids(ts) {
                        let ts2 = self.tv();
                        assert forall|a: int, b: int|
                            0 <= a < ts2.len() && 0 <= b < ts2.len() && a != b implies (
                            #[trigger] ts2[a]).id != (#[trigger] ts2[b]).id by {
                            let a0 = if a < i { a } else { a + 1 };
                            let b0 = if b < i { b } else { b + 1 };
                            assert(ts2[a] == ts[a0]);
                            assert(ts2[b] == ts[b0]);
                        }
                    }
                }
                let started = self.pump();
                RemoveEffect { removed: true, signal_stop: t.running, started }
            },
            None => {
                let started = self.pump();
                RemoveEffect { removed: false, signal_stop: false, started }
            },
        }
    }

    /// Drop every completed task and pump. Returns the removed ids, in
    /// order, and the tasks the pump started.
    pub fn clear_completed(&mut self) -> (r: (Vec<String>, Vec<(usize, bool)>))
        ensures
            r.0.deep_view() == completed_ids(old(self).tv()),
            pumped(without_completed(old(self).tv()), final(self).tv(), old(self).max_active as nat),
            start_list(without_completed(old(self).tv()), final(self).tv(), r.1@),
            final(self).max_active == old(self).max_active,
            final(self).max_conns == old(self).max_conns,
    {
        let ghost ts = self.tv();
        let mut rest: Vec<TaskState> = Vec::new();
        std::mem::swap(&mut rest, &mut self.tasks);
        let ghost n = rest@.len();
        assert(views(rest@) == ts);
        let mut removed: Vec<String> = Vec::new();
        while rest.len() > 0
            invariant
                n == ts.len(),
                rest@.len() <= n,
                views(rest@) == ts.skip(n - rest@.len()),
                self.tv() == without_completed(ts.take(n - rest@.len())),
                removed.deep_view() == completed_ids(ts.take(n - rest@.len())),
                self.max_active == old(self).max_active,
                self.max_conns == old(self).max_conns,
            decreases rest@.len(),
        {
            let ghost k = n - rest@.len();
            let t = rest.remove(0);
            proof {
                assert(views(rest@) =~= ts.skip(k + 1)) by {
                    assert forall|j: int| 0 <= j < rest@.len() implies views(rest@)[j] == ts.skip(k + 1)[j] by {
                        assert(views(rest@)[j] == rest@[j]@);
                        assert(ts.skip(k + 1)[j] == ts.skip(k)[j + 1]);
                    }
                }
                assert(t@ == ts[k]) by {
                    assert(ts.skip(k)[0] == ts[k]);
                }
                assert(ts.take(k + 1).drop_last() =~= ts.take(k));
                assert(ts.take(k + 1).last() == ts[k]);
            }
            if t.status == Status::Completed {
                let ghost before = removed.deep_view();
                removed.push(t.id);
                proof {
                    assert(removed.deep_view() =~= before.push(ts[k].id));
                }
            } else {
                let ghost before = self.tv();
                self.tasks.push(t);
                proof {
                    assert(self.tv() =~= before.push(ts[k]));
                }
            }
        }
        proof {
            assert(ts.take(n as int) =~= ts);
        }
        let started = self.pump();
        (removed, started)
    }

    /// Record a status the engine reached for a task (no pump).
    pub fn mark(&mut self, id: &str, s: Status) -> (r: bool)
        ensures
            r == (find_task(old(self).tv(), id@) is Some),
            final(self).tv() == match find_task(old(self).tv(), id@) {
                Some(i) => with_status(old(self).tv(), i, s),
                None => old(self).tv(),
            },
            final(self).max_active == old(self).max_active,
            final(self).max_conns == old(self).max_conns,
            old(self).wf() ==> final(self).wf(),
    {
        match self.find_index(id) {
            Some(i) => {
                self.set_status_at(i, s);
                true
            },
            None => false,
        }
    }

    /// A task's run ended: its run is detached, its status and error follow
    /// `end`, and the freed slot is pumped.
    pub fn finish_run(&mut self, id: &str, end: RunEnd) -> (r: Vec<(usize, bool)>)
        ensures
            final(self).max_active == old(self).max_active,
            final(self).max_conns == old(self).max_conns,
            ({
                let mid = match find_task(old(self).tv(), id@) {
                    Some(i) => old(self).tv().update(i, end_view(old(self).tv()[i], end)),
                    None => old(self).tv(),
                };
                &&& pumped(mid, final(self).tv(), old(self).max_active as nat)
                &&& start_list(mid, final(self).tv(), r@)
            }),
            old(self).wf() ==> final(self).wf(),
    {
        let ghost ts = self.tv();
        match self.find_index(id) {
            Some(i) => {
                let mut t = self.tasks.remove(i);
                t.running = false;
                match end {
                    RunEnd::Settled(s) => {
                        t.status = s;
                    },
                    RunEnd::Failed(m) => {
                        t.status = Status::Error;
                        t.error = Some(m);
                    },
                    RunEnd::Stopped => {},
                }
                self.tasks.insert(i, t);
                proof {
                    assert(self.tv() =~= ts.update(i as int, end_view(ts[i as int], end)));
                    if unique_ids(ts) {
                        let ts2 = self.tv();
                        assert forall|a: int, b: int|
                            0 <= a < ts2.len() && 0 <= b < ts2.len() && a != b implies (
                            #[trigger] ts2[a]).id != (#[trigger] ts2[b]).id by {
                            assert(ts2[a].id == ts[a].id);
                            assert(ts2[b].id == ts[b].id);
                        }
                    }
                }
            },
            None => {},
        }
        self.pump()
    }

    /// The scheduler over the stored tasks at start-up: what was active is
    /// paused (an interrupted download waits for the user). Returns the
    /// scheduler and the indices of the tasks whose stored status changed.
    pub fn restore(tasks: Vec<TaskState>, max_active: u64, max_conns: u64) -> (r: (Scheduler, Vec<usize>))
        ensures
            r.0.tv() == views(tasks@).map_values(|t: TaskView| restored_view(t)),
            lists_exactly(views(tasks@), r.1@, |t: TaskView| is_active(t.status)),
            r.0.max_active == max_active,
            r.0.max_conns == max_conns,
            unique_ids(views(tasks@)) ==> r.0.wf(),
    {
        let ghost ts = views(tasks@);
        let mut rest = tasks;
        let mut out: Vec<TaskState> = Vec::new();
        let mut changed: Vec<usize> = Vec::new();
        let n: usize = rest.len();
        let mut i: usize = 0;
        while rest.len() > 0
            invariant
                n == ts.len(),
                out@.len() == i,
                i + rest@.len() == n,
                views(rest@) == ts.skip(i as int),
                views(out@) == ts.take(i as int).map_values(|t: TaskView| restored_view(t)),
                forall|k: int|
                    0 <= k < changed@.len() ==> (#[trigger] changed@[k]) < i && is_active(
                        ts[changed@[k] as int].status,
                    ),
                forall|j: int|
                    0 <= j < i && is_active((#[trigger] ts[j]).status) ==> exists|k: int|
                        0 <= k < changed@.len() && changed@[k] == j,
                forall|k1: int, k2: int|
                    0 <= k1 < k2 < changed@.len() ==> (#[trigger] changed@[k1]) < (#[trigger] changed@[k2]),
            decreases rest@.len(),
        {
            let mut t = rest.remove(0);
            proof {
                assert(views(rest@) =~= ts.skip(i + 1)) by {
                    assert forall|j: int| 0 <= j < rest@.len() implies views(rest@)[j] == ts.skip(i + 1)[j] by {
                        assert(ts.skip(i + 1)[j] == ts.skip(i as int)[j + 1]);
                    }
                }
                assert(t@ == ts[i as int]) by {
                    assert(ts.skip(i as int)[0] == ts[i as int]);
                }
            }
            let s = t.status;
            if s == Status::Downloading || s == Status::Connecting || s == Status::Queued {
                t.status = Status::Paused;
                let ghost old_c = changed@;
                changed.push(i);
                proof {
                    assert forall|j: int|
                        0 <= j < i + 1 && is_active((#[trigger] ts[j]).status) implies exists|k: int|
                        0 <= k < changed@.len() && changed@[k] == j by {
                        if j == i {
                            assert(changed@[changed@.len() - 1] == j);
                        } else {
                            let k = choose|k: int| 0 <= k < old_c.len() && old_c[k] == j;
                            assert(changed@[k] == old_c[k]);
                        }
                    }
                }
            }
            t.error = None;
            t.running = false;
            let ghost before = views(out@);
            out.push(t);
            proof {
                assert(views(out@) =~= ts.take(i + 1).map_values(|t: TaskView| restored_view(t))) by {
                    assert(views(out@).len() == i + 1);
                    assert forall|j: int| 0 <= j <= i implies views(out@)[j] == ts.take(i + 1).map_values(
                        |t: TaskView| restored_view(t),
                    )[j] by {
                        if j < i {
                            assert(views(out@)[j] == before[j]);
                        }
                    }
                }
            }
            i = i + 1;
        }
        proof {
            assert(ts.take(n as int) =~= ts);
        }
        let sched = Scheduler { tasks: out, max_active, max_conns };
        proof {
            if unique_ids(ts) {
                let ts2 = sched.tv();
                assert forall|a: int, b: int|
                    0 <= a < ts2.len() && 0 <= b < ts2.len() && a != b implies (#[trigger] ts2[a]).id
                    != (#[trigger] ts2[b]).id by {
                    assert(ts2[a].id == ts[a].id);
                    assert(ts2[b].id == ts[b].id);
                }
            }
        }
        (sched, changed)
    }

    /// Set how many tasks may download at once (kept within 1..=16) and pump.
    pub fn set_max_active(&mut self, n: u64) -> (r: Vec<(usize, bool)>)
        ensures
            final(self).max_active == clamp(n, 1, 16),
            final(self).max_conns == old(self).max_conns,
            pumped(old(self).tv(), final(self).tv(), clamp(n, 1, 16) as nat),
            start_list(old(self).tv(), final(self).tv(), r@),
            old(self).wf() ==> final(self).wf(),
    {
        self.max_active = if n < 1 {
            1
        } else if n > 16 {
            16
        } else {
            n
        };
        self.pump()
    }

    /// Set how many connections a task may open (kept within 1..=32).
    pub fn set_max_connections(&mut self, n: u64)
        ensures
            final(self).max_conns == clamp(n, 1, 32),
            final(self).max_active == old(self).max_active,
            final(self).tasks@ == old(self).tasks@,
    {
        self.max_conns = if n < 1 {
            1
        } else if n > 32 {
            32
        } else {
            n
        };
    }

    /// Add a new task (queued, no run, no error) and pump.
    pub fn add_task(&mut self, t: TaskState) -> (r: Vec<(usize, bool)>)
        ensures
            pumped(old(self).tv().push(added_view(t@)), final(self).tv(), old(self).max_active as nat),
            start_list(old(self).tv().push(added_view(t@)), final(self).tv(), r@),
            final(self).max_active == old(self).max_active,
            final(self).max_conns == old(self).max_conns,
            old(self).wf() && find_task(old(self).tv(), t@.id) is None ==> final(self).wf(),
    {
        let ghost ts = self.tv();
        let mut t = t;
        t.status = Status::Queued;
        t.error = None;
        t.running = false;
        let ghost tv = t@;
        self.tasks.push(t);
        proof {
            assert(self.tv() =~= ts.push(tv));
            if unique_ids(ts) && find_task(ts, tv.id) is None {
                let ts2 = self.tv();
                assert forall|a: int, b: int|
                    0 <= a < ts2.len() && 0 <= b < ts2.len() && a != b implies (#[trigger] ts2[a]).id
                    != (#[trigger] ts2[b]).id by {
                    if a == ts.len() {
                        assert(!first_with_id(ts, tv.id, b));
                        if ts[b].id == tv.id {
                            lemma_first_exists(ts, tv.id, b);
                        }
                    } else if b == ts.len() {
                        if ts[a].id == tv.id {
                            lemma_first_exists(ts, tv.id, a);
                        }
                    }
                }
            }
        }
        self.pump()
    }

    /// A task's link was renewed: it is queued again (its error forgotten),
    /// whatever its status, and the scheduler pumps.
    pub fn renew(&mut self, id: &str) -> (r: Vec<(usize, bool)>)
        ensures
            pumped(requeued(old(self).tv(), id@), final(self).tv(), old(self).max_active as nat),
            start_list(requeued(old(self).tv(), id@), final(self).tv(), r@),
            final(self).max_active == old(self).max_active,
            final(self).max_conns == old(self).max_conns,
            old(self).wf() ==> final(self).wf(),
    {
        match self.find_index(id) {
            Some(i) => {
                self.requeue_at(i);
            },
            None => {},
        }
        self.pump()
    }

    /// The live status of a task, if it is known.
    pub fn status_of(&self, id: &str) -> (r: Option<Status>)
        ensures
            r == match find_task(self.tv(), id@) {
                Some(i) => Some(self.tv()[i].status),
                None => None,
            },
    {
        match self.find_index(id) {
            Some(i) => {
                assert(self.tv()[i as int] == self.tasks[i as int]@);
                Some(self.tasks[i].status)
            },
            None => None,
        }
    }

    /// The last error of a task, if any.
    pub fn error_of(&self, id: &str) -> (r: Option<String>)
        ensures
            opt_view(r) == match find_task(self.tv(), id@) {
                Some(i) => self.tv()[i].error,
                None => None,
            },
    {
        match self.find_index(id) {
            Some(i) => {
                assert(self.tv()[i as int] == self.tasks[i as int]@);
                match &self.tasks[i].error {
                    Some(e) => Some(e.clone()),
                    None => None,
                }
            },
            None => None,
        }
    }

    /// FIFO promotion of queued tasks up to `max_active` concurrent slots.
    /// Returns the started tasks (by index), oldest first, each with whether
    /// a run must be spawned for it (none was attached).
    pub fn pump(&mut self) -> (r: Vec<(usize, bool)>)
        ensures
            pumped(old(self).tv(), final(self).tv(), old(self).max_active as nat),
            start_list(old(self).tv(), final(self).tv(), r@),
            final(self).max_active == old(self).max_active,
            final(self).max_conns == old(self).max_conns,
            old(self).wf() ==> final(self).wf(),
    {
        let ghost ts0 = self.tv();
        let mut run = self.count_running();
        let mut r: Vec<(usize, bool)> = Vec::new();
        if run >= self.max_active {
            return r;
        }
        let ghost run0 = run as nat;
        let ghost q0 = queued_count(ts0);
        loop
            invariant
                ts0 == old(self).tv(),
                self.max_active == old(self).max_active,
                self.max_conns == old(self).max_conns,
                run0 == running_count(ts0),
                q0 == queued_count(ts0),
                run0 < self.max_active,
                self.tv().len() == ts0.len(),
                run == running_count(self.tv()),
                run <= self.max_active,
                run == run0 + r@.len(),
                queued_count(self.tv()) + r@.len() == q0,
                forall|i: int|
                    0 <= i < ts0.len() && (#[trigger] ts0[i]).status != Status::Queued
                        ==> self.tv()[i] == ts0[i],
                forall|i: int|
                    0 <= i < ts0.len() && (#[trigger] ts0[i]).status == Status::Queued
                        ==> self.tv()[i] == ts0[i] || self.tv()[i] == started(ts0[i]),
                forall|i: int, j: int|
                    #![trigger promoted(ts0, self.tv(), i), self.tv()[j]]
                    0 <= i < ts0.len() && 0 <= j < ts0.len() && promoted(ts0, self.tv(), i) && 
                    self.tv()[j].status == Status::Queued ==> older(ts0, i, j),
                start_list(ts0, self.tv(), r@),
            ensures
                self.tv().len() == ts0.len(),
                self.max_active == old(self).max_active,
                self.max_conns == old(self).max_conns,
                run == running_count(self.tv()),
                run == run0 + r@.len(),
                queued_count(self.tv()) + r@.len() == q0,
                run == self.max_active || queued_count(self.tv()) == 0,
                forall|i: int|
                    0 <= i < ts0.len() && (#[trigger] ts0[i]).status != Status::Queued
                        ==> self.tv()[i] == ts0[i],
                forall|i: int|
                    0 <= i < ts0.len() && (#[trigger] ts0[i]).status == Status::Queued
                        ==> self.tv()[i] == ts0[i] || self.tv()[i] == started(ts0[i]),
                forall|i: int, j: int|
                    #![trigger promoted(ts0, self.tv(), i), self.tv()[j]]
                    0 <= i < ts0.len() && 0 <= j < ts0.len() && promoted(ts0, self.tv(), i) && 
                    self.tv()[j].status == Status::Queued ==> older(ts0, i, j),
                start_list(ts0, self.tv(), r@),
            decreases queued_count(self.tv()),
        {
            if run >= self.max_active {
                break;
            }
            let next = self.find_oldest_queued();
            let m = match next {
                Some(m) => m,
                None => {
                    proof {
                        if queued_count(self.tv()) > 0 {
                            lemma_queued_exists(self.tv());
                        }
                    }
                    break;
                },
            };
            let ghost before = self.tv();
            let spawn = !self.tasks[m].running;
            let mut t = self.tasks.remove(m);
            t.status = Status::Connecting;
            t.running = true;
            self.tasks.insert(m, t);
            proof {
                assert(self.tv() =~= before.update(m as int, started(before[m as int])));
                lemma_counts_update(before, m as int, started(before[m as int]));
                assert(ts0[m as int].status == Status::Queued);
                assert(before[m as int] == ts0[m as int]);
            }
            let ghost old_r = r@;
            r.push((m, spawn));
            run = run + 1;
            proof {
                let ts = self.tv();
                assert forall|i: int, j: int|
                    #![trigger promoted(ts0, ts, i), ts[j]]
                    0 <= i < ts0.len() && 0 <= j < ts0.len() && promoted(ts0, ts, i) && 
                    ts[j].status == Status::Queued implies older(ts0, i, j) by {
                    if i == m {
                        assert(j != m);
                        assert(before[j].status == Status::Queued);
                    } else {
                        assert(promoted(ts0, before, i));
                        assert(before[j].status == Status::Queued);
                    }
                }
                assert forall|k1: int, k2: int|
                    0 <= k1 < k2 < r@.len() implies older(ts0, (#[trigger] r@[k1]).0 as int, (
                    #[trigger] r@[k2]).0 as int) by {
                    if k2 == r@.len() - 1 {
                        assert(promoted(ts0, before, r@[k1].0 as int));
                        assert(before[m as int].status == Status::Queued);
                    }
                }
                assert forall|i: int| 0 <= i < ts0.len() && promoted(ts0, ts, i) implies exists|k: int|
                    0 <= k < r@.len() && (#[trigger] r@[k]).0 == i by {
                    if i == m {
                        assert(r@[r@.len() - 1].0 == i);
                    } else {
                        assert(promoted(ts0, before, i));
                        let k = choose|k: int| 0 <= k < old_r.len() && (#[trigger] old_r[k]).0 == i;
                        assert(r@[k] == old_r[k]);
                    }
                }
                assert forall|k: int| 0 <= k < r@.len() implies {
                    &&& 0 <= (#[trigger] r@[k]).0 < ts0.len()
                    &&& promoted(ts0, ts, r@[k].0 as int)
                    &&& r@[k].1 == !ts0[r@[k].0 as int].running
                } by {
                    if k < r@.len() - 1 {
                        assert(promoted(ts0, before, r@[k].0 as int));
                        assert(r@[k].0 != m) by {
                            if r@[k].0 == m {
                                assert(before[m as int].status == Status::Queued);
                            }
                        }
                    }
                }
            }
        }
        proof {
            let ts = self.tv();
            if old(self).wf() {
                assert forall|i: int, j: int|
                    0 <= i < ts.len() && 0 <= j < ts.len() && i != j implies (#[trigger] ts[i]).id != (
                    #[trigger] ts[j]).id by {
                    assert(ts0[i].id != ts0[j].id);
                }
            }
        }
        r
    }
}


// ------------------------------------------------------------------
// snapshots
// ------------------------------------------------------------------

/// The text a status is shown as.
pub fn status_str(s: Status) -> (r: &'static str)
    ensures
        r@ == status_name(s),
{
    s.as_str()
}

/// One cell of a progress sample.
#[derive(Clone, Copy, Debug, PartialEq, Eq, Structural)]
pub struct CellSample {
    pub idx: usize,
    pub start: u64,
    pub end: u64,
    pub done: u64,
}

/// Progress read off a run's cells at one moment.
#[derive(Clone, Debug)]
pub struct Sample {
    pub cells: Vec<CellSample>,
    pub downloaded: u64,
    pub bps: u64,
}

pub open spec fn sum_done(cells: Seq<Cell>) -> nat
    decreases cells.len(),
{
    if cells.len() == 0 {
        0
    } else {
        sum_done(cells.drop_last()) + cells.last().done as nat
    }
}

pub open spec fn sum_speed(cells: Seq<Cell>) -> nat
    decreases cells.len(),
{
    if cells.len() == 0 {
        0
    } else {
        sum_speed(cells.drop_last()) + cells.last().speed as nat
    }
}

/// How a cell is shown: a stream of unknown size ends where it has got to
/// (at least one byte past its start).
pub open spec fn cell_sample(c: Cell) -> CellSample {
    CellSample {
        idx: c.idx,
        start: c.start,
        end: if c.end == UNKNOWN_END {
            (c.start + if c.done >= 1 {
                c.done as int
            } else {
                1
            }) as u64
        } else {
            c.end
        },
        done: c.done,
    }
}

/// The sample clock: the current time (at least 1 ms).
pub open spec fn sample_clock(now_ms: i64) -> u64 {
    if now_ms >= 1 {
        now_ms as u64
    } else {
        1
    }
}

/// Milliseconds since the previous sample, at least 50.
pub open spec fn sample_window(now: u64, prev: u64) -> u64 {
    if now >= prev && now - prev >= 50 {
        (now - prev) as u64
    } else {
        50
    }
}

/// A sample's transfer rate: the rate a single stream reports directly,
/// else the bytes counted since the previous sample over the window.
pub open spec fn sample_rate(cells: Seq<Cell>, now: u64, prev: u64, direct_bps: u64) -> u64 {
    if direct_bps > 0 {
        direct_bps
    } else {
        (sum_speed(cells) * 1000 / sample_window(now, prev) as nat) as u64
    }
}

/// The numbers in a sample stay representable.
pub open spec fn sample_fits(cells: Seq<Cell>) -> bool {
    &&& sum_done(cells) <= u64::MAX
    &&& sum_speed(cells) * 1000 <= u64::MAX
    &&& forall|i: int|
        0 <= i < cells.len() && (#[trigger] cells[i]).end == UNKNOWN_END ==> cells[i].start
            + cells[i].done + 1 <= u64::MAX
}

/// Read a run's progress: each cell's span and bytes, their sum, and the
/// rate. The speed counters are reset for the next window. Returns the
/// sample and the time it was taken at.
pub fn take_sample(cells: &mut Vec<Cell>, now_ms: i64, prev_ms: u64, direct_bps: u64) -> (r: (Sample, u64))
    requires
        sample_fits(old(cells)@),
    ensures
        r.1 == sample_clock(now_ms),
        r.0.downloaded == sum_done(old(cells)@),
        r.0.bps == sample_rate(old(cells)@, sample_clock(now_ms), prev_ms, direct_bps),
        r.0.cells@.len() == old(cells)@.len(),
        forall|i: int|
            0 <= i < old(cells)@.len() ==> #[trigger] r.0.cells@[i] == cell_sample(old(cells)@[i]),
        final(cells)@.len() == old(cells)@.len(),
        forall|i: int|
            0 <= i < old(cells)@.len() ==> #[trigger] final(cells)@[i] == (Cell {
                speed: 0,
                ..old(cells)@[i]
            }),
{
    let now: u64 = if now_ms >= 1 {
        now_ms as u64
    } else {
        1
    };
    let dt: u64 = if now >= prev_ms && now - prev_ms >= 50 {
        now - prev_ms
    } else {
        50
    };
    let ghost orig = cells@;
    let mut out: Vec<CellSample> = Vec::new();
    let mut dl: u64 = 0;
    let mut delta_sum: u64 = 0;
    let n = cells.len();
    for i in 0..n
        invariant
            n == orig.len(),
            cells@.len() == n,
            sample_fits(orig),
            dl == sum_done(orig.take(i as int)),
            delta_sum == sum_speed(orig.take(i as int)),
            out@.len() == i,
            forall|j: int| 0 <= j < i ==> #[trigger] out@[j] == cell_sample(orig[j]),
            forall|j: int| 0 <= j < i ==> #[trigger] cells@[j] == (Cell { speed: 0, ..orig[j] }),
            forall|j: int| i <= j < n ==> #[trigger] cells@[j] == orig[j],
    {
        proof {
            assert(orig.take(i + 1).drop_last() =~= orig.take(i as int));
            assert(orig.take(i + 1).last() == orig[i as int]);
            lemma_sums_prefix(orig, i + 1);
        }
        let c = cells[i];
        dl = dl + c.done;
        delta_sum = delta_sum + c.speed;
        let end = if c.end == UNKNOWN_END {
            assert(orig[i as int].end == UNKNOWN_END);
            c.start + if c.done >= 1 {
                c.done
            } else {
                1
            }
        } else {
            c.end
        };
        out.push(CellSample { idx: c.idx, start: c.start, end, done: c.done });
        cells.set(i, Cell { speed: 0, ..c });
    }
    proof {
        assert(orig.take(n as int) =~= orig);
    }
    let bps = if direct_bps > 0 {
        direct_bps
    } else {
        delta_sum * 1000 / dt
    };
    (Sample { cells: out, downloaded: dl, bps }, now)
}

proof fn lemma_sums_prefix(cells: Seq<Cell>, k: int)
    requires
        0 <= k <= cells.len(),
    ensures
        sum_done(cells.take(k)) <= sum_done(cells),
        sum_speed(cells.take(k)) <= sum_speed(cells),
    decreases cells.len(),
{
    if k < cells.len() {
        assert(cells.drop_last().take(k) =~= cells.take(k));
        lemma_sums_prefix(cells.drop_last(), k);
    } else {
        assert(cells.take(k) =~= cells);
    }
}

/// One chunk of a snapshot.
#[derive(Clone, Copy, Debug, PartialEq, Eq, Structural)]
pub struct Segment {
    pub idx: usize,
    pub start: u64,
    pub end: u64,
    pub done: u64,
    pub speed_bps: u64,
}

pub open spec fn segment_of(c: CellSample) -> Segment {
    Segment { idx: c.idx, start: c.start, end: c.end, done: c.done, speed_bps: 0 }
}

/// The segments a sample is shown as (per-chunk speed is not tracked).
pub fn segments_from(s: &Sample) -> (r: Vec<Segment>)
    ensures
        r@.len() == s.cells@.len(),
        forall|i: int| 0 <= i < s.cells@.len() ==> #[trigger] r@[i] == segment_of(s.cells@[i]),
{
    let mut r: Vec<Segment> = Vec::new();
    for i in 0..s.cells.len()
        invariant
            r@.len() == i,
            forall|j: int| 0 <= j < i ==> #[trigger] r@[j] == segment_of(s.cells@[j]),
    {
        let c = s.cells[i];
        r.push(Segment { idx: c.idx, start: c.start, end: c.end, done: c.done, speed_bps: 0 });
    }
    r
}


/// A download as the interface shows it.
#[derive(Clone, Debug)]
pub struct TaskSnapshot {
    pub id: String,
    pub url: String,
    pub filename: String,
    pub dir: String,
    pub status: String,
    pub total: Option<u64>,
    pub downloaded: u64,
    pub speed_bps: u64,
    pub eta_secs: Option<u64>,
    pub created_at: i64,
    pub referrer: String,
    pub error_msg: Option<String>,
    pub segments: Vec<Segment>,
}

/// What `serde_json` reads from a text as a JSON object of strings, looked
/// up at one key: `None` when the text is not such an object, else the
/// value stored under the key, if any.
pub uninterp spec fn json_str_field(text: Seq<char>, key: Seq<char>) -> Option<Option<Seq<char>>>;

/// `serde_json::from_str::<HashMap<String, String>>(text)` followed by
/// `get(key)`: the result is `json_str_field` of the text and key.
#[verifier::external_body]
fn json_field(text: &str, key: &str) -> (r: Option<Option<String>>)
    ensures
        match r {
            None => json_str_field(text@, key@) is None,
            Some(v) => json_str_field(text@, key@) == Some(opt_view(v)),
        },
{
    serde_json::from_str::<std::collections::HashMap<String, String>>(text).ok().map(|h| h.get(key).cloned())
}

/// The value stored under `key` in a JSON object of strings, if any.
pub open spec fn json_pick(text: Seq<char>, key: Seq<char>) -> Option<Seq<char>> {
    match json_str_field(text, key) {
        Some(Some(v)) => Some(v),
        _ => None,
    }
}

/// The referrer stored with a task's request headers: the first of
/// `Referer`, `referer`, `referrer`, `Referrer` present, empty when there
/// is none or the headers do not read as a JSON object of strings.
pub open spec fn header_referrer(json: Seq<char>) -> Seq<char> {
    if json_str_field(json, "Referer"@) is None {
        Seq::empty()
    } else if json_pick(json, "Referer"@) is Some {
        json_pick(json, "Referer"@)->0
    } else if json_pick(json, "referer"@) is Some {
        json_pick(json, "referer"@)->0
    } else if json_pick(json, "referrer"@) is Some {
        json_pick(json, "referrer"@)->0
    } else if json_pick(json, "Referrer"@) is Some {
        json_pick(json, "Referrer"@)->0
    } else {
        Seq::empty()
    }
}

/// The site a URL belongs to, `scheme://host`; empty when it does not
/// parse or has no host.
pub open spec fn url_origin(url: Seq<char>) -> Seq<char> {
    match parsed_url(url) {
        Some(u) => match u.host {
            Some(h) => u.scheme + "://"@ + h,
            None => Seq::empty(),
        },
        None => Seq::empty(),
    }
}

/// A task's referrer: from its stored headers when they can name one (they
/// mention `efer`), else the origin of its URL.
pub open spec fn task_referrer(headers_json: Seq<char>, url: Seq<char>) -> Seq<char> {
    if contains(headers_json, "efer"@) {
        header_referrer(headers_json)
    } else {
        url_origin(url)
    }
}

fn pick_field(text: &str, key: &str) -> (r: Option<String>)
    ensures
        opt_view(r) == json_pick(text@, key@),
{
    match json_field(text, key) {
        Some(Some(v)) => Some(v),
        _ => None,
    }
}

/// The referrer shown for a task (see `task_referrer`).
pub fn referrer_of(headers_json: &str, url: &str) -> (r: String)
    ensures
        r@ == task_referrer(headers_json@, url@),
{
    let hv = chars_of(headers_json);
    let efer = chars_of("efer");
    if has_sub(&hv, &efer) {
        match json_field(headers_json, "Referer") {
            None => String::new(),
            Some(Some(v)) => v,
            Some(None) => {
                match pick_field(headers_json, "referer") {
                    Some(v) => v,
                    None => match pick_field(headers_json, "referrer") {
                        Some(v) => v,
                        None => match pick_field(headers_json, "Referrer") {
                            Some(v) => v,
                            None => String::new(),
                        },
                    },
                }
            },
        }
    } else {
        match parse_url(url) {
            Some(u) => match u.host {
                Some(h) => {
                    let mut out = chars_of(u.scheme.as_str());
                    append_str(&mut out, "://");
                    append_str(&mut out, h.as_str());
                    string_of(&out)
                },
                None => String::new(),
            },
            None => String::new(),
        }
    }
}


/// A running task's live state, as a snapshot reads it.
pub struct LiveRun {
    pub sample: Sample,
    /// the total the run knows (`0` when unknown)
    pub total: i64,
    /// the URL, folder and name the run works with (empty when not set yet)
    pub url: String,
    pub dir: String,
    pub filename: String,
}

/// What becomes of the remembered time-left of a task.
#[derive(Clone, Copy, Debug, PartialEq, Eq, Structural)]
pub enum EtaMemo {
    Keep,
    Remember(u64),
    Forget,
}

/// Bytes the stored chunk rows account for.
pub open spec fn stored_done(rows: Seq<ChunkRow>) -> nat
    decreases rows.len(),
{
    if rows.len() == 0 {
        0
    } else {
        stored_done(rows.drop_last()) + if rows.last().done > 0 {
            rows.last().done as nat
        } else {
            0
        }
    }
}

/// The stored total, when known.
pub open spec fn row_total(t: TaskRow) -> Option<u64> {
    if t.total > 0 {
        Some(t.total as u64)
    } else {
        None
    }
}

/// Bytes shown for a task without a run: what the chunks hold, and for a
/// completed task at least its total.
pub open spec fn stored_progress(t: TaskRow, rows: Seq<ChunkRow>, st: Status) -> u64 {
    if st == Status::Completed && row_total(t) is Some && row_total(t)->0 > stored_done(rows) {
        row_total(t)->0
    } else {
        stored_done(rows) as u64
    }
}

pub open spec fn max_u64(a: u64, b: u64) -> u64 {
    if a >= b {
        a
    } else {
        b
    }
}

/// The total shown while a run is live: the run's own when it knows one.
pub open spec fn live_total(t: TaskRow, run_total: i64) -> Option<u64> {
    if run_total > 0 {
        Some(run_total as u64)
    } else {
        row_total(t)
    }
}

/// Time left while a run is live: remaining bytes over the rate, when both
/// are known and something remains.
pub open spec fn live_eta(total: Option<u64>, downloaded: u64, bps: u64) -> Option<u64> {
    match total {
        Some(tot) => if bps > 0 && downloaded < tot {
            Some(((tot - downloaded) / (bps as int)) as u64)
        } else {
            None
        },
        None => None,
    }
}

pub open spec fn or_text(live: Seq<char>, stored: Seq<char>) -> Seq<char> {
    if live.len() > 0 {
        live
    } else {
        stored
    }
}

fn or_string(live: &String, stored: &String) -> (r: String)
    ensures
        r@ == or_text(live@, stored@),
{
    if !live.as_str().is_empty() {
        live.clone()
    } else {
        stored.clone()
    }
}

fn stored_done_sum(rows: &Vec<ChunkRow>) -> (r: u64)
    requires
        stored_done(rows@) <= u64::MAX,
    ensures
        r == stored_done(rows@),
{
    let mut sum: u64 = 0;
    for i in 0..rows.len()
        invariant
            stored_done(rows@) <= u64::MAX,
            sum == stored_done(rows@.take(i as int)),
    {
        proof {
            assert(rows@.take(i + 1).drop_last() =~= rows@.take(i as int));
            assert(rows@.take(i + 1).last() == rows@[i as int]);
            lemma_stored_done_prefix(rows@, i + 1);
        }
        let d = rows[i].done;
        if d > 0 {
            sum = sum + d as u64;
        }
    }
    proof {
        assert(rows@.take(rows@.len() as int) =~= rows@);
    }
    sum
}

proof fn lemma_stored_done_prefix(rows: Seq<ChunkRow>, k: int)
    requires
        0 <= k <= rows.len(),
    ensures
        stored_done(rows.take(k)) <= stored_done(rows),
    decreases rows.len(),
{
    if k < rows.len() {
        assert(rows.drop_last().take(k) =~= rows.take(k));
        lemma_stored_done_prefix(rows.drop_last(), k);
    } else {
        assert(rows.take(k) =~= rows);
    }
}

/// A task's snapshot: its stored row and chunks, merged with the live status
/// and error the scheduler holds and, while a run is attached, the run's
/// progress. Also says what becomes of the remembered time-left.
pub fn merged_snapshot(
    t: &TaskRow,
    chunks: &Vec<ChunkRow>,
    live_status: Option<Status>,
    error: Option<String>,
    run: Option<LiveRun>,
    last_eta: Option<u64>,
) -> (r: (TaskSnapshot, EtaMemo))
    requires
        stored_done(chunks@) <= u64::MAX,
    ensures
        ({
            let st = match live_status {
                Some(s) => s,
                None => t.status,
            };
            let snap = r.0;
            &&& snap.id@ == t.id@
            &&& snap.status@ == status_name(st)
            &&& snap.created_at == t.created_at
            &&& snap.referrer@ == task_referrer(t.headers_json@, t.url@)
            &&& opt_view(snap.error_msg) == opt_view(error)
            &&& match run {
                None => {
                    &&& snap.url@ == t.url@
                    &&& snap.dir@ == t.dir@
                    &&& snap.filename@ == t.filename@
                    &&& snap.total == row_total(*t)
                    &&& snap.downloaded == stored_progress(*t, chunks@, st)
                    &&& snap.speed_bps == 0
                    &&& snap.segments@.len() == 0
                    &&& st == Status::Completed ==> snap.eta_secs is None && r.1 == EtaMemo::Forget
                    &&& st != Status::Completed ==> snap.eta_secs == last_eta && r.1 == EtaMemo::Keep
                },
                Some(rn) => {
                    let total = live_total(*t, rn.total);
                    let eta = live_eta(total, rn.sample.downloaded, rn.sample.bps);
                    &&& snap.url@ == or_text(rn.url@, t.url@)
                    &&& snap.dir@ == or_text(rn.dir@, t.dir@)
                    &&& snap.filename@ == or_text(rn.filename@, t.filename@)
                    &&& snap.total == total
                    &&& snap.downloaded == max_u64(
                        rn.sample.downloaded,
                        stored_progress(*t, chunks@, st),
                    )
                    &&& snap.speed_bps == rn.sample.bps
                    &&& snap.eta_secs == eta
                    &&& r.1 == match eta {
                        Some(e) => EtaMemo::Remember(e),
                        None => EtaMemo::Keep,
                    }
                    &&& snap.segments@.len() == rn.sample.cells@.len()
                    &&& forall|i: int|
                        0 <= i < rn.sample.cells@.len() ==> #[trigger] snap.segments@[i] == segment_of(
                            rn.sample.cells@[i],
                        )
                },
            }
        }),
{
    let st = match live_status {
        Some(s) => s,
        None => t.status,
    };
    let stored = stored_done_sum(chunks);
    let total: Option<u64> = if t.total > 0 {
        Some(t.total as u64)
    } else {
        None
    };
    let mut downloaded = stored;
    if st == Status::Completed {
        match total {
            Some(tot) => {
                if tot > downloaded {
                    downloaded = tot;
                }
            },
            None => {},
        }
    }
    let referrer = referrer_of(t.headers_json.as_str(), t.url.as_str());
    let status = owned(status_str(st));
    match run {
        Some(rn) => {
            let smp_dl = rn.sample.downloaded;
            let bps = rn.sample.bps;
            let dl = if smp_dl >= downloaded {
                smp_dl
            } else {
                downloaded
            };
            let total2: Option<u64> = if rn.total > 0 {
                Some(rn.total as u64)
            } else {
                total
            };
            let eta: Option<u64> = match total2 {
                Some(tot) => if bps > 0 && smp_dl < tot {
                    Some((tot - smp_dl) / bps)
                } else {
                    None
                },
                None => None,
            };
            let memo = match eta {
                Some(e) => EtaMemo::Remember(e),
                None => EtaMemo::Keep,
            };
            let segments = segments_from(&rn.sample);
            let snap = TaskSnapshot {
                id: owned(t.id.as_str()),
                url: or_string(&rn.url, &t.url),
                filename: or_string(&rn.filename, &t.filename),
                dir: or_string(&rn.dir, &t.dir),
                status,
                total: total2,
                downloaded: dl,
                speed_bps: bps,
                eta_secs: eta,
                created_at: t.created_at,
                referrer,
                error_msg: error,
                segments,
            };
            (snap, memo)
        },
        None => {
            let (eta, memo) = if st == Status::Completed {
                (None, EtaMemo::Forget)
            } else {
                (last_eta, EtaMemo::Keep)
            };
            let snap = TaskSnapshot {
                id: owned(t.id.as_str()),
                url: owned(t.url.as_str()),
                filename: owned(t.filename.as_str()),
                dir: owned(t.dir.as_str()),
                status,
                total,
                downloaded,
                speed_bps: 0,
                eta_secs: eta,
                created_at: t.created_at,
                referrer,
                error_msg: error,
                segments: Vec::new(),
            };
            (snap, memo)
        },
    }
}


// ------------------------------------------------------------------
// adding a download
// ------------------------------------------------------------------

/// A pasted link made usable: whitespace and wrapping quotes or angle
/// brackets trimmed, `https://` put before a bare host name; `None` when it
/// is neither an HTTP(S) link nor a bare host name.
pub open spec fn normalized_url(raw: Seq<char>) -> Option<Seq<char>> {
    let t = trim_by(trim(raw), Strip::Quotes);
    if starts_with(t, "http://"@) || starts_with(t, "https://"@) {
        Some(t)
    } else if t.contains('.') && !contains(t, "://"@) {
        Some("https://"@ + t)
    } else {
        None
    }
}

/// Normalize the link a user gives (see `normalized_url`).
pub fn normalize_url(raw: &str) -> (r: Result<String, SchedError>)
    ensures
        match normalized_url(raw@) {
            Some(u) => r is Ok && r->Ok_0@ == u,
            None => r == Err::<String, SchedError>(SchedError::InvalidUrl),
        },
{
    let v = chars_of(raw);
    let a = strip(&v, &Strip::Ws);
    let t = strip(&a, &Strip::Quotes);
    let http = chars_of("http://");
    let https = chars_of("https://");
    if has_prefix(&t, &http) || has_prefix(&t, &https) {
        Ok(string_of(&t))
    } else {
        let sep = chars_of("://");
        if has_char(&t, '.') && !has_sub(&t, &sep) {
            let mut out = chars_of("https://");
            append(&mut out, &t);
            Ok(string_of(&out))
        } else {
            Err(SchedError::InvalidUrl)
        }
    }
}

/// A name the user typed is only a placeholder: empty, `main`, `master`,
/// `download`, or without an extension dot.
pub open spec fn placeholder_name(f: Seq<char>) -> bool {
    f.len() == 0 || f == "main"@ || f == "master"@ || f == "download"@ || !f.contains('.')
}

/// The name inferred from the link when inference can read it.
pub open spec fn link_name(url: Seq<char>) -> Option<Seq<char>> {
    if infer_ok(url) {
        inferred_name(url)
    } else {
        None
    }
}

/// The name a new download is given, before it is made safe: the name the
/// user typed unless it is a placeholder, else a name inferred from the
/// link (with a dot), else what was typed, else `download-<stamp>`.
pub open spec fn chosen_name(url: Seq<char>, typed: Option<Seq<char>>, stamp: i64) -> Seq<char> {
    let fallback = "download-"@ + dec_int(stamp as int);
    match typed {
        Some(f0) => {
            let f = trim(f0);
            if placeholder_name(f) {
                match link_name(url) {
                    Some(n) => if n.contains('.') && n.len() > 0 {
                        n
                    } else if f.len() > 0 {
                        f
                    } else {
                        n
                    },
                    None => if f.len() > 0 {
                        f
                    } else {
                        fallback
                    },
                }
            } else {
                f
            }
        },
        None => match link_name(url) {
            Some(n) => n,
            None => fallback,
        },
    }
}

fn stamp_name(stamp: i64) -> (r: Vec<char>)
    ensures
        r@ == "download-"@ + dec_int(stamp as int),
{
    let mut r = chars_of("download-");
    let d = dec_i64(stamp);
    append(&mut r, &d);
    r
}

/// Choose a new download's name (see `chosen_name`); `stamp` is the time
/// the fallback name is stamped with.
pub fn choose_name(url: &str, typed: Option<&str>, stamp: i64) -> (r: String)
    ensures
        r@ == chosen_name(url@, match typed {
            Some(f) => Some(f@),
            None => None,
        }, stamp),
{
    let inferred = url_basename(url);
    match typed {
        Some(f0) => {
            let fv = chars_of(f0);
            let f = strip(&fv, &Strip::Ws);
            let placeholder = f.len() == 0 || eq_lit(&f, "main") || eq_lit(&f, "master") || eq_lit(
                &f,
                "download",
            ) || !has_char(&f, '.');
            if placeholder {
                match inferred {
                    Some(n) => {
                        let nv = chars_of(n.as_str());
                        if has_char(&nv, '.') && nv.len() > 0 {
                            n
                        } else if f.len() > 0 {
                            string_of(&f)
                        } else {
                            n
                        }
                    },
                    None => if f.len() > 0 {
                        string_of(&f)
                    } else {
                        string_of(&stamp_name(stamp))
                    },
                }
            } else {
                string_of(&f)
            }
        },
        None => match inferred {
            Some(n) => n,
            None => string_of(&stamp_name(stamp)),
        },
    }
}

/// The folder a file type is filed under.
pub open spec fn type_folder(ext: Seq<char>) -> Seq<char> {
    if ext.len() == 0 {
        "Documents"@
    } else if compressed_ext(ext) {
        "Compressed"@
    } else if program_ext(ext) {
        "Programs"@
    } else if video_ext(ext) {
        "Video"@
    } else if music_ext(ext) {
        "Music"@
    } else if document_ext(ext) {
        "Documents"@
    } else if picture_ext(ext) {
        "Pictures"@
    } else {
        "Documents"@
    }
}

fn type_folder_of(ext: &Vec<char>) -> (r: &'static str)
    ensures
        r@ == type_folder(ext@),
{
    if ext.len() == 0 {
        "Documents"
    } else if is_compressed_ext(ext) {
        "Compressed"
    } else if is_program_ext(ext) {
        "Programs"
    } else if is_video_ext(ext) {
        "Video"
    } else if is_music_ext(ext) {
        "Music"
    } else if is_document_ext(ext) {
        "Documents"
    } else if is_picture_ext(ext) {
        "Pictures"
    } else {
        "Documents"
    }
}

/// The default folder for a file: the type folder under the user's
/// `Downloads` (`<profile>\Downloads\<type>`), or `.` without a profile.
pub open spec fn default_dir(filename: Seq<char>, profile: Option<Seq<char>>) -> Seq<char> {
    match profile {
        Some(h) => h + "\\Downloads\\"@ + type_folder(lower_ext(filename)),
        None => "."@,
    }
}

/// Where a download goes when no folder was chosen (see `default_dir`);
/// `profile` is the user's profile folder (`USERPROFILE`), if set.
/// The extension of a name that is not plain (see `plain_name`) is read
/// by the platform's path rules; of such a name only that the folder is one
/// of the type folders is stated.
pub fn default_download_dir(filename: &str, profile: Option<&str>) -> (r: String)
    ensures
        plain_name(filename@) ==> r@ == default_dir(filename@, match profile {
            Some(h) => Some(h@),
            None => None,
        }),
        match profile {
            Some(h) => exists|e: Seq<char>| r@ == h@ + "\\Downloads\\"@ + #[trigger] type_folder(e),
            None => r@ == "."@,
        },
{
    let ext = lower_extension(filename);
    let sub = type_folder_of(&ext);
    match profile {
        Some(h) => {
            let mut out = chars_of(h);
            append_str(&mut out, "\\Downloads\\");
            append_str(&mut out, sub);
            string_of(&out)
        },
        None => owned("."),
    }
}

// ------------------------------------------------------------------
// ids and unique names
// ------------------------------------------------------------------

pub open spec fn hex_char(n: nat) -> char {
    if n < 10 {
        ((n + 48) as u32) as char
    } else {
        ((n + 87) as u32) as char
    }
}

/// Lower-case hex of bytes, two digits each.
pub open spec fn hex_of(b: Seq<u8>) -> Seq<char>
    decreases b.len(),
{
    if b.len() == 0 {
        Seq::empty()
    } else {
        hex_of(b.drop_last()) + seq![hex_char((b.last() / 16) as nat), hex_char((b.last() % 16) as nat)]
    }
}

/// 16 bytes from the thread's random generator (`RngCore::fill_bytes`).
#[verifier::external_body]
fn random_bytes() -> (r: Vec<u8>)
    ensures
        r@.len() == 16,
{
    let mut b = [0u8; 16];
    rand::RngCore::fill_bytes(&mut rand::thread_rng(), &mut b);
    b.to_vec()
}

fn hex_digit_char(n: u8) -> (r: char)
    requires
        n < 16,
    ensures
        r == hex_char(n as nat),
{
    if n < 10 {
        (n + 48) as char
    } else {
        (n + 87) as char
    }
}

pub fn hex_string(b: &Vec<u8>) -> (r: Vec<char>)
    ensures
        r@ == hex_of(b@),
{
    let mut r: Vec<char> = Vec::new();
    for i in 0..b.len()
        invariant
            r@ == hex_of(b@.take(i as int)),
    {
        proof {
            assert(b@.take(i + 1).drop_last() =~= b@.take(i as int));
            assert(b@.take(i + 1).last() == b@[i as int]);
        }
        let x = b[i];
        r.push(hex_digit_char(x / 16));
        r.push(hex_digit_char(x % 16));
        proof {
            assert(r@ =~= hex_of(b@.take(i as int)) + seq![
                hex_char((b@[i as int] / 16) as nat),
                hex_char((b@[i as int] % 16) as nat),
            ]);
        }
    }
    proof {
        assert(b@.take(b@.len() as int) =~= b@);
    }
    r
}

/// A fresh task id: 16 random bytes in lower-case hex.
pub fn new_id() -> (r: String)
    ensures
        exists|b: Seq<u8>| b.len() == 16 && r@ == hex_of(b),
{
    let b = random_bytes();
    let h = hex_string(&b);
    string_of(&h)
}

/// The n-th alternative to a taken name: `stem (n).ext`, or `name (n)`
/// for a name without extension.
pub open spec fn numbered_name(name: Seq<char>, n: nat) -> Seq<char> {
    match ext_rule(name) {
        Some(e) => name.take(name.len() - e.len() - 1) + " ("@ + dec(n) + ")."@ + e,
        None => name + " ("@ + dec(n) + ")"@,
    }
}

/// `n` is the first free numbered alternative below 10000.
pub open spec fn first_free(taken: Seq<Seq<char>>, name: Seq<char>, n: nat) -> bool {
    &&& 1 <= n < 10000
    &&& !taken.contains(numbered_name(name, n))
    &&& forall|m: nat| 1 <= m < n ==> taken.contains(#[trigger] numbered_name(name, m))
}

fn contains_name(taken: &Vec<String>, v: &Vec<char>) -> (r: bool)
    ensures
        r == taken.deep_view().contains(v@),
{
    for i in 0..taken.len()
        invariant
            forall|j: int| 0 <= j < i ==> taken.deep_view()[j] != v@,
    {
        let t = chars_of(taken[i].as_str());
        if vec_eq(&t, v) {
            assert(taken.deep_view()[i as int] == v@);
            return true;
        }
    }
    false
}

/// The name chosen for `name` in a folder holding `taken`: the name itself
/// when free, else the first free `stem (n).ext` below 10000, else the
/// name with a random id appended.
pub open spec fn unique_pick(taken: Seq<Seq<char>>, name: Seq<char>, r: Seq<char>) -> bool {
    &&& !taken.contains(name) ==> r == name
    &&& taken.contains(name) ==> {
        ||| exists|n: nat| first_free(taken, name, n) && r == numbered_name(name, n)
        ||| (forall|n: nat| 1 <= n < 10000 ==> taken.contains(#[trigger] numbered_name(name, n)))
            && exists|b: Seq<u8>| b.len() == 16 && r == name + "-"@ + hex_of(b)
    }
}

/// What holds of the chosen name whatever the path rules: a free name is
/// kept, and a taken one is replaced by a free name or by the name with a
/// random id appended.
pub open spec fn unique_any(taken: Seq<Seq<char>>, name: Seq<char>, r: Seq<char>) -> bool {
    &&& !taken.contains(name) ==> r == name
    &&& taken.contains(name) ==> (!taken.contains(r) || exists|b: Seq<u8>|
        b.len() == 16 && r == name + "-"@ + hex_of(b))
}

/// A name not yet taken in a folder (see `unique_pick`); `taken` lists the
/// names already in the folder. The stem and extension are split off by
/// `Path::extension`, which for a name that is not plain (see `plain_name`)
/// follows the platform's path rules; of such a name only `unique_any` is
/// stated.
pub fn unique_path_name(taken: &Vec<String>, name: &str) -> (r: String)
    ensures
        plain_name(name@) ==> unique_pick(taken.deep_view(), name@, r@),
        unique_any(taken.deep_view(), name@, r@),
{
    let nv = chars_of(name);
    if !contains_name(taken, &nv) {
        return owned(name);
    }
    let ext = path_extension(name);
    let mut n: u64 = 1;
    while n < 10000
        invariant
            1 <= n <= 10000,
            nv@ == name@,
            taken.deep_view().contains(name@),
            plain_name(name@) ==> opt_view(ext) == ext_rule(name@),
            plain_name(name@) ==> forall|m: nat|
                1 <= m < n ==> taken.deep_view().contains(#[trigger] numbered_name(name@, m)),
        decreases 10000 - n,
    {
        let d = dec_u64(n);
        let cand = match &ext {
            Some(e) => {
                let ev = chars_of(e.as_str());
                proof {
                    if plain_name(name@) {
                        lemma_ext_suffix(name@);
                    }
                }
                if ev.len() < nv.len() {
                    let stem = crate::text::slice(&nv, 0, nv.len() - ev.len() - 1);
                    let mut c = stem;
                    append_str(&mut c, " (");
                    append(&mut c, &d);
                    append_str(&mut c, ").");
                    append(&mut c, &ev);
                    c
                } else {
                    let mut c = nv.clone();
                    append_str(&mut c, " (");
                    append(&mut c, &d);
                    append_str(&mut c, ")");
                    c
                }
            },
            None => {
                let mut c = nv.clone();
                append_str(&mut c, " (");
                append(&mut c, &d);
                append_str(&mut c, ")");
                c
            },
        };
        assert(plain_name(name@) ==> cand@ == numbered_name(name@, n as nat));
        if !contains_name(taken, &cand) {
            assert(plain_name(name@) ==> first_free(taken.deep_view(), name@, n as nat));
            return string_of(&cand);
        }
        n = n + 1;
    }
    let id = new_id();
    let mut out = nv;
    append_str(&mut out, "-");
    append_str(&mut out, id.as_str());
    string_of(&out)
}

/// The extension `ext_rule` reads is a suffix after a dot.
proof fn lemma_ext_suffix(name: Seq<char>)
    requires
        ext_rule(name) is Some,
    ensures
        ext_rule(name)->0.len() + 1 <= name.len(),
        name.skip(name.len() - ext_rule(name)->0.len()) == ext_rule(name)->0,
{
    crate::text::lemma_last_exists(name, '.');
    let i = crate::text::rchar_idx(name, '.');
    assert(crate::text::char_last(name, '.', i));
    let e = ext_rule(name)->0;
    assert(e == name.skip(i + 1));
    assert(name.skip(name.len() - e.len()) =~= e);
}


/// The stored row of a new download.
pub fn new_task_row(
    url: String,
    dir: String,
    name: &str,
    taken: &Vec<String>,
    total_hint: Option<u64>,
    headers_json: String,
    created_at: i64,
) -> (r: TaskRow)
    ensures
        exists|b: Seq<u8>| b.len() == 16 && r.id@ == hex_of(b),
        r.url@ == url@,
        r.dir@ == dir@,
        plain_name(name@) ==> unique_pick(taken.deep_view(), name@, r.filename@),
        unique_any(taken.deep_view(), name@, r.filename@),
        r.total == match total_hint {
            Some(t) => t as i64,
            None => 0,
        },
        r.etag@.len() == 0,
        r.last_modified@.len() == 0,
        !r.accept_ranges,
        !r.multi_conn,
        r.status == Status::Queued,
        r.created_at == created_at,
        r.headers_json@ == headers_json@,
{
    let filename = unique_path_name(taken, name);
    TaskRow {
        id: new_id(),
        url,
        filename,
        dir,
        total: match total_hint {
            Some(t) => t as i64,
            None => 0,
        },
        etag: String::new(),
        last_modified: String::new(),
        accept_ranges: false,
        multi_conn: false,
        status: Status::Queued,
        created_at,
        headers_json,
    }
}

impl TaskState {
    /// The scheduler's view of a stored task (no run, no error).
    pub fn from_row(row: &TaskRow) -> (r: TaskState)
        ensures
            r@ == (TaskView {
                id: row.id@,
                status: row.status,
                created_at: row.created_at,
                error: None,
                running: false,
            }),
    {
        TaskState { id: row.id.clone(), status: row.status, created_at: row.created_at, error: None, running: false }
    }
}

// ------------------------------------------------------------------
// driving one download
// ------------------------------------------------------------------

/// Bytes per connection below which a download is not split further.
pub const MIN_CHUNK_TARGET: u64 = 524288;

/// A stored name says nothing about the file: it has no dot, is `main` or
/// `master`, or starts with `download`, `main.` or `master.`.
pub open spec fn generic_name(f: Seq<char>) -> bool {
    ||| !f.contains('.')
    ||| f == "main"@
    ||| f == "master"@
    ||| starts_with(f, "download"@)
    ||| starts_with(f, "main."@)
    ||| starts_with(f, "master."@)
}

/// The name a server's hint replaces a stored name with: the hint made
/// safe, when the hint has an extension dot and the stored name is generic.
pub open spec fn better_name(current: Seq<char>, hint: Option<Seq<char>>) -> Option<Seq<char>> {
    match hint {
        Some(h) => if h.contains('.') && generic_name(current) {
            Some(safe_name(h))
        } else {
            None
        },
        None => None,
    }
}

pub fn is_generic_name(f: &str) -> (r: bool)
    ensures
        r == generic_name(f@),
{
    let v = chars_of(f);
    let download = chars_of("download");
    let main_dot = chars_of("main.");
    let master_dot = chars_of("master.");
    !has_char(&v, '.') || eq_lit(&v, "main") || eq_lit(&v, "master") || has_prefix(&v, &download)
        || has_prefix(&v, &main_dot) || has_prefix(&v, &master_dot)
}

/// The name a download is renamed to after the pre-flight request, if any:
/// the server's hint (see `better_name`), made unique among `taken`.
pub fn better_filename(current: &str, hint: Option<&str>, taken: &Vec<String>) -> (r: Option<String>)
    ensures
        match better_name(current@, match hint {
            Some(h) => Some(h@),
            None => None,
        }) {
            None => r is None,
            Some(n) => r is Some && unique_pick(taken.deep_view(), n, r->0@),
        },
{
    match hint {
        Some(h) => {
            let hv = chars_of(h);
            if has_char(&hv, '.') && is_generic_name(current) {
                let safe = sanitize_name(h);
                Some(unique_path_name(taken, safe.as_str()))
            } else {
                None
            }
        },
        None => None,
    }
}

/// Whether and how big the download is, from the probe and the stored row:
/// ranged when either says so; the probed total, else a positive stored one.
pub fn transfer_shape(probed_ranges: bool, probed_total: Option<u64>, row: &TaskRow) -> (r: (bool, Option<u64>))
    ensures
        r.0 == (probed_ranges || row.accept_ranges),
        r.1 == match probed_total {
            Some(t) => Some(t),
            None => row_total(*row),
        },
{
    let total = match probed_total {
        Some(t) => Some(t),
        None => if row.total > 0 {
            Some(row.total as u64)
        } else {
            None
        },
    };
    (probed_ranges || row.accept_ranges, total)
}

/// What is done to the target file before the transfer.
#[derive(Clone, Copy, Debug, PartialEq, Eq, Structural)]
pub enum FilePrep {
    /// reserve the file at this size
    Preallocate(u64),
    /// create (or truncate) an empty file
    Create,
    /// keep the file as it is
    Keep,
}

/// The transfer continues from stored progress: some chunk holds data and
/// either the server takes ranges or the partial file is still there.
pub open spec fn resuming(ranged: bool, has_data: bool, file_exists: bool) -> bool {
    (ranged && has_data) || (file_exists && has_data)
}

pub open spec fn file_prep_spec(ranged: bool, total: Option<u64>, has_data: bool, file_exists: bool) -> FilePrep {
    if !resuming(ranged, has_data, file_exists) {
        match total {
            Some(sz) => if ranged {
                FilePrep::Preallocate(sz)
            } else {
                FilePrep::Create
            },
            None => FilePrep::Create,
        }
    } else if !file_exists {
        match total {
            Some(sz) => if ranged {
                FilePrep::Preallocate(sz)
            } else {
                FilePrep::Create
            },
            None => FilePrep::Create,
        }
    } else {
        FilePrep::Keep
    }
}

/// Some stored chunk holds data.
pub open spec fn has_chunk_data(rows: Seq<ChunkRow>) -> bool {
    exists|i: int| 0 <= i < rows.len() && (#[trigger] rows[i]).done > 0
}

pub fn any_chunk_data(rows: &Vec<ChunkRow>) -> (r: bool)
    ensures
        r == has_chunk_data(rows@),
{
    for i in 0..rows.len()
        invariant
            forall|j: int| 0 <= j < i ==> (#[trigger] rows@[j]).done <= 0,
    {
        if rows[i].done > 0 {
            return true;
        }
    }
    false
}

/// How the target file is prepared, and whether the transfer resumes.
pub fn plan_file(ranged: bool, total: Option<u64>, has_data: bool, file_exists: bool) -> (r: (bool, FilePrep))
    ensures
        r.0 == resuming(ranged, has_data, file_exists),
        r.1 == file_prep_spec(ranged, total, has_data, file_exists),
{
    let resume = (ranged && has_data) || (file_exists && has_data);
    let prep = if !resume || !file_exists {
        match total {
            Some(sz) => if ranged {
                FilePrep::Preallocate(sz)
            } else {
                FilePrep::Create
            },
            None => FilePrep::Create,
        }
    } else {
        FilePrep::Keep
    };
    (resume, prep)
}

/// Connections for a download: one without ranges; with ranges, one per
/// 512 KiB of a known total (at least one), never more than the configured
/// maximum, itself kept within 1..=32.
pub open spec fn conn_count(ranged: bool, total: Option<u64>, max_conns: u64) -> nat {
    let cap = clamp(max_conns, 1, 32);
    if !ranged {
        1
    } else {
        match total {
            Some(t) => if t > 0 {
                let target = if t / MIN_CHUNK_TARGET >= 1 {
                    t / MIN_CHUNK_TARGET
                } else {
                    1
                };
                (if target <= cap {
                    target
                } else {
                    cap
                }) as nat
            } else {
                cap as nat
            },
            None => cap as nat,
        }
    }
}

pub fn connection_count(ranged: bool, total: Option<u64>, max_conns: u64) -> (r: usize)
    ensures
        r == conn_count(ranged, total, max_conns),
        1 <= r <= 32,
{
    let cap: u64 = if max_conns < 1 {
        1
    } else if max_conns > 32 {
        32
    } else {
        max_conns
    };
    if !ranged {
        return 1;
    }
    match total {
        Some(t) => if t > 0 {
            let q = t / MIN_CHUNK_TARGET;
            let target = if q >= 1 {
                q
            } else {
                1
            };
            (if target <= cap {
                target
            } else {
                cap
            }) as usize
        } else {
            cap as usize
        },
        None => cap as usize,
    }
}

/// The cells a transfer starts with: the stored chunks when resuming, an
/// even split of a known total over the connections when ranged, else one
/// stream of unknown size.
pub fn initial_cells(
    resume: bool,
    rows: &Vec<ChunkRow>,
    ranged: bool,
    total: Option<u64>,
    conns: usize,
) -> (r: Vec<Cell>)
    requires
        match total {
            Some(t) => t <= i64::MAX,
            None => true,
        },
    ensures
        resume && rows@.len() > 0 ==> r@.len() == rows@.len() && forall|i: int|
            0 <= i < rows@.len() ==> #[trigger] r@[i] == cell_of_row(rows@[i]),
        !(resume && rows@.len() > 0) && ranged && total is Some ==> exists|split: Seq<ChunkRow>|
            split_rows_ok(split, total->0 as nat, conns as nat) && r@.len() == split.len() && forall|i: int|
                0 <= i < split.len() ==> #[trigger] r@[i] == Cell::new_spec(
                    split[i].idx as usize,
                    split[i].start as u64,
                    (split[i].end + 1) as u64,
                ),
        !(resume && rows@.len() > 0) && !(ranged && total is Some) ==> r@ == seq![
            Cell::new_spec(0, 0, UNKNOWN_END),
        ],
{
    if resume && rows.len() > 0 {
        cells_from_rows(rows)
    } else if ranged && total.is_some() {
        let t = match total {
            Some(t) => t,
            None => 1,
        };
        let split = default_chunks_n(t, conns);
        proof {
            lemma_split_rows_in_range(split@, t as nat, conns as nat);
        }
        cells_from_split(&split)
    } else {
        let mut v: Vec<Cell> = Vec::new();
        v.push(Cell::new(0, 0, UNKNOWN_END));
        v
    }
}

/// Workers started for a transfer: one per connection, no more than cells, at least one.
pub fn worker_count(conns: usize, cells: usize) -> (r: usize)
    ensures
        r >= 1,
        r == if conns <= cells {
            if conns >= 1 {
                conns
            } else {
                1
            }
        } else {
            if cells >= 1 {
                cells
            } else {
                1
            }
        },
{
    let m = if conns <= cells {
        conns
    } else {
        cells
    };
    if m >= 1 {
        m
    } else {
        1
    }
}

/// What the workers of a run have reported so far.
pub struct RunTally {
    /// the first failure message
    pub failed: Option<String>,
    pub stopped: bool,
    pub paused_seen: bool,
}

impl RunTally {
    pub fn new() -> (r: RunTally)
        ensures
            r.failed is None,
            !r.stopped,
            !r.paused_seen,
    {
        RunTally { failed: None, stopped: false, paused_seen: false }
    }

    /// Take one worker's outcome. Returns whether the other workers must be
    /// told to pause (a worker failed).
    pub fn record(&mut self, outcome: DriveOutcome) -> (r: bool)
        ensures
            r == (outcome is Failed),
            opt_view(final(self).failed) == match outcome {
                DriveOutcome::Failed(m) => if old(self).failed is None {
                    Some(m@)
                } else {
                    opt_view(old(self).failed)
                },
                _ => opt_view(old(self).failed),
            },
            final(self).stopped == (old(self).stopped || outcome is Stopped),
            final(self).paused_seen == (old(self).paused_seen || outcome is Paused),
    {
        match outcome {
            DriveOutcome::Failed(m) => {
                if self.failed.is_none() {
                    self.failed = Some(m);
                }
                true
            },
            DriveOutcome::Stopped => {
                self.stopped = true;
                false
            },
            DriveOutcome::Paused => {
                self.paused_seen = true;
                false
            },
            DriveOutcome::Done => false,
        }
    }
}

/// The message a stopped run ends with.
pub open spec fn stop_marker() -> Seq<char> {
    "__stopped__"@
}

/// The status a finished run leaves its task in: queued again when a resume
/// raced the run (the task reads queued or connecting), else completed when
/// no worker paused and every known byte is in, else paused.
pub open spec fn settled_status(current: Option<Status>, paused_seen: bool, known_total: i64, done: u64) -> Status {
    let cur = match current {
        Some(s) => s,
        None => Status::Paused,
    };
    if cur == Status::Queued || cur == Status::Connecting {
        Status::Queued
    } else if !paused_seen && (known_total <= 0 || done >= known_total as u64) {
        Status::Completed
    } else {
        Status::Paused
    }
}

/// How a run that got its workers going ends: stopped, failed with the
/// first worker failure, or settled (see `settled_status`). A failure that
/// reads as the stop marker counts as a stop.
pub fn run_end(tally: RunTally, current: Option<Status>, known_total: i64, done: u64) -> (r: RunEnd)
    ensures
        tally.stopped ==> r is Stopped,
        !tally.stopped ==> match tally.failed {
            Some(m) => if m@ == stop_marker() {
                r is Stopped
            } else {
                r is Failed && r->Failed_0@ == m@
            },
            None => r == RunEnd::Settled(settled_status(current, tally.paused_seen, known_total, done)),
        },
{
    if tally.stopped {
        return RunEnd::Stopped;
    }
    match tally.failed {
        Some(m) => {
            if str_eq(m.as_str(), "__stopped__") {
                RunEnd::Stopped
            } else {
                RunEnd::Failed(m)
            }
        },
        None => {
            let cur = match current {
                Some(s) => s,
                None => Status::Paused,
            };
            let s = if cur == Status::Queued || cur == Status::Connecting {
                Status::Queued
            } else if !tally.paused_seen && (known_total <= 0 || done >= known_total as u64) {
                Status::Completed
            } else {
                Status::Paused
            };
            RunEnd::Settled(s)
        },
    }
}

/// The row stored once the pre-flight request is done: the probe's
/// validators, the chosen name and total, and the download marked running.
pub fn probed_row(
    row: &TaskRow,
    filename: String,
    total: Option<u64>,
    etag: String,
    last_modified: String,
    accept_ranges: bool,
    conns: usize,
) -> (r: TaskRow)
    ensures
        r.id@ == row.id@,
        r.filename@ == filename@,
        r.url@ == row.url@,
        r.dir@ == row.dir@,
        r.total == match total {
            Some(t) => t as i64,
            None => 0,
        },
        r.etag@ == etag@,
        r.last_modified@ == last_modified@,
        r.accept_ranges == accept_ranges,
        r.multi_conn == (conns > 1),
        r.status == Status::Downloading,
        r.created_at == row.created_at,
        r.headers_json@ == row.headers_json@,
{
    TaskRow {
        id: row.id.clone(),
        filename,
        url: row.url.clone(),
        dir: row.dir.clone(),
        total: match total {
            Some(t) => t as i64,
            None => 0,
        },
        etag,
        last_modified,
        accept_ranges,
        multi_conn: conns > 1,
        status: Status::Downloading,
        created_at: row.created_at,
        headers_json: row.headers_json.clone(),
    }
}


/// A stored setting read as a number, or the default when it is missing or
/// does not parse.
pub fn setting_value(stored: Option<&str>, default: u64) -> (r: u64)
    ensures
        r == match stored {
            Some(v) => match parse_u64_spec(v@) {
                Some(n) => n,
                None => default,
            },
            None => default,
        },
{
    match stored {
        Some(v) => {
            let cv = chars_of(v);
            match parse_u64(&cv) {
                Some(n) => n,
                None => default,
            }
        },
        None => default,
    }
}


/// A renewed link, trimmed; an empty one is refused.
pub fn renewal_url(new_url: &str) -> (r: Result<String, SchedError>)
    ensures
        trim(new_url@).len() == 0 ==> r == Err::<String, SchedError>(SchedError::EmptyUrl),
        trim(new_url@).len() > 0 ==> r is Ok && r->Ok_0@ == trim(new_url@),
{
    let v = chars_of(new_url);
    let t = strip(&v, &Strip::Ws);
    if t.len() == 0 {
        Err(SchedError::EmptyUrl)
    } else {
        Ok(string_of(&t))
    }
}

proof fn lemma_no_slots_taken(ts: Seq<TaskView>)
    requires
        forall|i: int| 0 <= i < ts.len() ==> !is_active((#[trigger] ts[i]).status),
    ensures
        running_count(ts) == 0,
        queued_count(ts) == 0,
    decreases ts.len(),
{
    if ts.len() > 0 {
        assert(!is_active(ts[ts.len() - 1].status));
        lemma_no_slots_taken(ts.drop_last());
    }
}

/// After a restart nothing downloads or waits: every task that was active
/// is paused, so no slot is taken and nothing is queued.
pub proof fn lemma_restore_idles_everything(ts: Seq<TaskView>)
    ensures
        running_count(ts.map_values(|t: TaskView| restored_view(t))) == 0,
        queued_count(ts.map_values(|t: TaskView| restored_view(t))) == 0,
{
    let r = ts.map_values(|t: TaskView| restored_view(t));
    assert forall|i: int| 0 <= i < r.len() implies !is_active((#[trigger] r[i]).status) by {
        assert(r[i] == restored_view(ts[i]));
    }
    lemma_no_slots_taken(r);
}

/// After "pause everything" no task is active.
pub proof fn lemma_pause_all_idles_everything(ts: Seq<TaskView>)
    ensures
        running_count(ts.map_values(|t: TaskView| pause_view(t))) == 0,
        queued_count(ts.map_values(|t: TaskView| pause_view(t))) == 0,
{
    let r = ts.map_values(|t: TaskView| pause_view(t));
    assert forall|i: int| 0 <= i < r.len() implies !is_active((#[trigger] r[i]).status) by {
        assert(r[i] == pause_view(ts[i]));
    }
    lemma_no_slots_taken(r);
}

/// A task that was paused can be resumed: after the pause (and the pump
/// that follows it) a resume of the same id is accepted.
pub proof fn lemma_paused_task_resumes(
    ts: Seq<TaskView>,
    ts2: Seq<TaskView>,
    max: nat,
    id: Seq<char>,
)
    requires
        pause_applies_to(ts, id),
        pumped(with_status(ts, find_task(ts, id)->0, Status::Paused), ts2, max),
    ensures
        resume_verdict(ts2, id) == Ok::<bool, SchedError>(true),
        find_task(ts2, id) == find_task(ts, id),
{
    let i = find_task(ts, id)->0;
    let k = choose|k: int| first_with_id(ts, id, k);
    assert(first_with_id(ts, id, k));
    assert(i == k);
    let mid = with_status(ts, i, Status::Paused);
    assert(mid[i].status == Status::Paused);
    assert(ts2[i] == mid[i]);
    assert forall|j: int| 0 <= j < i implies (#[trigger] ts2[j]).id != id by {
        assert(mid[j] == ts[j]);
        assert(ts[j].id != id);
        if mid[j].status != Status::Queued {
            assert(ts2[j] == mid[j]);
        } else {
            assert(ts2[j] == mid[j] || ts2[j] == started(mid[j]));
        }
    }
    assert(first_with_id(ts2, id, i));
    lemma_find_task(ts2, id, i);
}

/// Progress survives a pause and a resume: the rows saved from a run's
/// cells account for every byte the cells hold, the cells a resumed run
/// starts with (`cell_of_row` of the rows, see `plan_file` and `initial_cells`)
/// hold exactly those bytes, and the paused task's snapshot shows at least
/// as many.
pub proof fn lemma_progress_survives_resume(cells: Seq<Cell>, t: TaskRow, st: Status)
    requires
        forall|i: int| 0 <= i < cells.len() ==> (#[trigger] cells[i]).done <= i64::MAX,
    ensures
        stored_done(cells.map_values(|c: Cell| row_of(c))) == sum_done(cells),
        sum_done(cells.map_values(|c: Cell| row_of(c)).map_values(|r: ChunkRow| cell_of_row(r)))
            == sum_done(cells),
        sum_done(cells) <= u64::MAX ==> stored_progress(t, cells.map_values(|c: Cell| row_of(c)), st)
            >= sum_done(cells),
    decreases cells.len(),
{
    let rows = cells.map_values(|c: Cell| row_of(c));
    let back = rows.map_values(|r: ChunkRow| cell_of_row(r));
    if cells.len() > 0 {
        let init = cells.drop_last();
        lemma_progress_survives_resume(init, t, st);
        assert(rows.drop_last() =~= init.map_values(|c: Cell| row_of(c)));
        assert(back.drop_last() =~= init.map_values(|c: Cell| row_of(c)).map_values(
            |r: ChunkRow| cell_of_row(r),
        ));
        assert(cells.last().done <= i64::MAX);
        assert(rows.last() == row_of(cells.last()));
        assert(back.last() == cell_of_row(row_of(cells.last())));
    } else {
        assert(rows =~= Seq::<ChunkRow>::empty());
        assert(back =~= Seq::<Cell>::empty());
    }
}

/// A ranged download of known size runs on as many connections as it has
/// 512 KiB pieces (at least one), but never on more than the configured
/// maximum (itself kept within 1..=32): the count is the smaller of the
/// two, so it reaches the configured maximum whenever the file has at
/// least that many pieces. Without ranges there is one connection; a
/// ranged download of unknown size uses the configured maximum.
pub proof fn lemma_connections_fill_the_configured_maximum(t: u64, max_conns: u64)
    ensures
        ({
            let pieces: int = if t / 524288 >= 1 {
                (t / 524288) as int
            } else {
                1
            };
            let maxc: int = if max_conns < 1 {
                1
            } else if max_conns > 32 {
                32
            } else {
                max_conns as int
            };
            let r = conn_count(true, Some(t), max_conns) as int;
            &&& t > 0 ==> r <= pieces && r <= maxc && (r == pieces || r == maxc)
            &&& t > 0 && pieces >= maxc ==> r == maxc
            &&& conn_count(false, Some(t), max_conns) == 1
            &&& conn_count(false, None, max_conns) == 1
            &&& conn_count(true, None, max_conns) as int == maxc
        }),
{
}

/// Where each kind of file is filed by default (a plain name's lower-cased
/// extension decides, see `default_download_dir`): archives under
/// `Compressed`, installers under `Programs`, videos under `Video`, audio
/// under `Music`, documents and names without an extension under
/// `Documents`, images under `Pictures`, all below the profile's
/// `Downloads`; without a profile, in `.`.
pub proof fn lemma_files_are_filed_by_kind(filename: Seq<char>, h: Seq<char>)
    ensures
        default_dir(filename, None) == "."@,
        ({
            let e = lower_ext(filename);
            e == "zip"@ || e == "rar"@ || e == "7z"@ || e == "tar"@ || e == "gz"@ || e == "bz2"@ || e == "xz"@ || e == "iso"@ || e == "dmg"@ || e == "pkg"@ || e == "tgz"@
        }) ==> default_dir(filename, Some(h)) == h + "\\Downloads\\"@ + "Compressed"@,
        ({
            let e = lower_ext(filename);
            e == "exe"@ || e == "msi"@ || e == "apk"@ || e == "deb"@ || e == "rpm"@ || e == "appimage"@ || e == "bat"@ || e == "cmd"@ || e == "ps1"@
        }) ==> default_dir(filename, Some(h)) == h + "\\Downloads\\"@ + "Programs"@,
        ({
            let e = lower_ext(filename);
            e == "mp4"@ || e == "mkv"@ || e == "mov"@ || e == "avi"@ || e == "wmv"@ || e == "flv"@ || e == "webm"@ || e == "m4v"@ || e == "m2ts"@
        }) ==> default_dir(filename, Some(h)) == h + "\\Downloads\\"@ + "Video"@,
        ({
            let e = lower_ext(filename);
            e == "mp3"@ || e == "wav"@ || e == "flac"@ || e == "aac"@ || e == "ogg"@ || e == "m4a"@ || e == "wma"@ || e == "opus"@
        }) ==> default_dir(filename, Some(h)) == h + "\\Downloads\\"@ + "Music"@,
        ({
            let e = lower_ext(filename);
            e == "pdf"@ || e == "doc"@ || e == "docx"@ || e == "xls"@ || e == "xlsx"@ || e == "ppt"@ || e == "pptx"@ || e == "txt"@ || e == "epub"@ || e == "md"@ || e.len() == 0
        }) ==> default_dir(filename, Some(h)) == h + "\\Downloads\\"@ + "Documents"@,
        ({
            let e = lower_ext(filename);
            e == "png"@ || e == "jpg"@ || e == "jpeg"@ || e == "gif"@ || e == "webp"@ || e == "svg"@ || e == "bmp"@ || e == "ico"@ || e == "tiff"@
        }) ==> default_dir(filename, Some(h)) == h + "\\Downloads\\"@ + "Pictures"@,
{
    let e = lower_ext(filename);
    lemma_compressed_folder(e);
    lemma_program_folder(e);
    lemma_video_folder(e);
    lemma_music_folder(e);
    lemma_document_folder(e);
    lemma_picture_folder(e);
}

proof fn lemma_compressed_folder(e: Seq<char>)
    ensures
        e == "zip"@ || e == "rar"@ || e == "7z"@ || e == "tar"@ || e == "gz"@ || e == "bz2"@ || e == "xz"@ || e == "iso"@ || e == "dmg"@ || e == "pkg"@ || e == "tgz"@ ==> type_folder(e) == "Compressed"@,
{
    if e == "zip"@ {
        reveal_strlit("zip");
        assert(e.len() == 3 && e[0] == 'z' && e[1] == 'i' && e[2] == 'p');
    }
    if e == "rar"@ {
        reveal_strlit("rar");
        assert(e.len() == 3 && e[0] == 'r' && e[1] == 'a' && e[2] == 'r');
    }
    if e == "7z"@ {
        reveal_strlit("7z");
        assert(e.len() == 2 && e[0] == '7' && e[1] == 'z');
    }
    if e == "tar"@ {
        reveal_strlit("tar");
        assert(e.len() == 3 && e[0] == 't' && e[1] == 'a' && e[2] == 'r');
    }
    if e == "gz"@ {
        reveal_strlit("gz");
        assert(e.len() == 2 && e[0] == 'g' && e[1] == 'z');
    }
    if e == "bz2"@ {
        reveal_strlit("bz2");
        assert(e.len() == 3 && e[0] == 'b' && e[1] == 'z' && e[2] == '2');
    }
    if e == "xz"@ {
        reveal_strlit("xz");
        assert(e.len() == 2 && e[0] == 'x' && e[1] == 'z');
    }
    if e == "iso"@ {
        reveal_strlit("iso");
        assert(e.len() == 3 && e[0] == 'i' && e[1] == 's' && e[2] == 'o');
    }
    if e == "dmg"@ {
        reveal_strlit("dmg");
        assert(e.len() == 3 && e[0] == 'd' && e[1] == 'm' && e[2] == 'g');
    }
    if e == "pkg"@ {
        reveal_strlit("pkg");
        assert(e.len() == 3 && e[0] == 'p' && e[1] == 'k' && e[2] == 'g');
    }
    if e == "tgz"@ {
        reveal_strlit("tgz");
        assert(e.len() == 3 && e[0] == 't' && e[1] == 'g' && e[2] == 'z');
    }
}

proof fn lemma_program_folder(e: Seq<char>)
    ensures
        e == "exe"@ || e == "msi"@ || e == "apk"@ || e == "deb"@ || e == "rpm"@ || e == "appimage"@ || e == "bat"@ || e == "cmd"@ || e == "ps1"@ ==> type_folder(e) == "Programs"@,
{
    if e == "exe"@ {
        reveal_strlit("exe");
        assert(e.len() == 3 && e[0] == 'e' && e[1] == 'x' && e[2] == 'e');
        reveal_strlit("zip"); assert(e != "zip"@) by { assert("zip"@[0] == 'z'); }
        reveal_strlit("rar"); assert(e != "rar"@) by { assert("rar"@[0] == 'r'); }
        reveal_strlit("7z"); assert(e != "7z"@) by { assert("7z"@.len() == 2); }
        reveal_strlit("tar"); assert(e != "tar"@) by { assert("tar"@[0] == 't'); }
        reveal_strlit("gz"); assert(e != "gz"@) by { assert("gz"@.len() == 2); }
        reveal_strlit("bz2"); assert(e != "bz2"@) by { assert("bz2"@[0] == 'b'); }
        reveal_strlit("xz"); assert(e != "xz"@) by { assert("xz"@.len() == 2); }
        reveal_strlit("iso"); assert(e != "iso"@) by { assert("iso"@[0] == 'i'); }
        reveal_strlit("dmg"); assert(e != "dmg"@) by { assert("dmg"@[0] == 'd'); }
        reveal_strlit("pkg"); assert(e != "pkg"@) by { assert("pkg"@[0] == 'p'); }
        reveal_strlit("tgz"); assert(e != "tgz"@) by { assert("tgz"@[0] == 't'); }
    }
    if e == "msi"@ {
        reveal_strlit("msi");
        assert(e.len() == 3 && e[0] == 'm' && e[1] == 's' && e[2] == 'i');
        reveal_strlit("zip"); assert(e != "zip"@) by { assert("zip"@[0] == 'z'); }
        reveal_strlit("rar"); assert(e != "rar"@) by { assert("rar"@[0] == 'r'); }
        reveal_strlit("7z"); assert(e != "7z"@) by { assert("7z"@.len() == 2); }
        reveal_strlit("tar"); assert(e != "tar"@) by { assert("tar"@[0] == 't'); }
        reveal_strlit("gz"); assert(e != "gz"@) by { assert("gz"@.len() == 2); }
        reveal_strlit("bz2"); assert(e != "bz2"@) by { assert("bz2"@[0] == 'b'); }
        reveal_strlit("xz"); assert(e != "xz"@) by { assert("xz"@.len() == 2); }
        reveal_strlit("iso"); assert(e != "iso"@) by { assert("iso"@[0] == 'i'); }
        reveal_strlit("dmg"); assert(e != "dmg"@) by { assert("dmg"@[0] == 'd'); }
        reveal_strlit("pkg"); assert(e != "pkg"@) by { assert("pkg"@[0] == 'p'); }
        reveal_strlit("tgz"); assert(e != "tgz"@) by { assert("tgz"@[0] == 't'); }
    }
    if e == "apk"@ {
        reveal_strlit("apk");
        assert(e.len() == 3 && e[0] == 'a' && e[1] == 'p' && e[2] == 'k');
        reveal_strlit("zip"); assert(e != "zip"@) by { assert("zip"@[0] == 'z'); }
        reveal_strlit("rar"); assert(e != "rar"@) by { assert("rar"@[0] == 'r'); }
        reveal_strlit("7z"); assert(e != "7z"@) by { assert("7z"@.len() == 2); }
        reveal_strlit("tar"); assert(e != "tar"@) by { assert("tar"@[0] == 't'); }
        reveal_strlit("gz"); assert(e != "gz"@) by { assert("gz"@.len() == 2); }
        reveal_strlit("bz2"); assert(e != "bz2"@) by { assert("bz2"@[0] == 'b'); }
        reveal_strlit("xz"); assert(e != "xz"@) by { assert("xz"@.len() == 2); }
        reveal_strlit("iso"); assert(e != "iso"@) by { assert("iso"@[0] == 'i'); }
        reveal_strlit("dmg"); assert(e != "dmg"@) by { assert("dmg"@[0] == 'd'); }
        reveal_strlit("pkg"); assert(e != "pkg"@) by { assert("pkg"@[0] == 'p'); }
        reveal_strlit("tgz"); assert(e != "tgz"@) by { assert("tgz"@[0] == 't'); }
    }
    if e == "deb"@ {
        reveal_strlit("deb");
        assert(e.len() == 3 && e[0] == 'd' && e[1] == 'e' && e[2] == 'b');
        reveal_strlit("zip"); assert(e != "zip"@) by { assert("zip"@[0] == 'z'); }
        reveal_strlit("rar"); assert(e != "rar"@) by { assert("rar"@[0] == 'r'); }
        reveal_strlit("7z"); assert(e != "7z"@) by { assert("7z"@.len() == 2); }
        reveal_strlit("tar"); assert(e != "tar"@) by { assert("tar"@[0] == 't'); }
        reveal_strlit("gz"); assert(e != "gz"@) by { assert("gz"@.len() == 2); }
        reveal_strlit("bz2"); assert(e != "bz2"@) by { assert("bz2"@[0] == 'b'); }
        reveal_strlit("xz"); assert(e != "xz"@) by { assert("xz"@.len() == 2); }
        reveal_strlit("iso"); assert(e != "iso"@) by { assert("iso"@[0] == 'i'); }
        reveal_strlit("dmg"); assert(e != "dmg"@) by { assert("dmg"@[1] == 'm'); }
        reveal_strlit("pkg"); assert(e != "pkg"@) by { assert("pkg"@[0] == 'p'); }
        reveal_strlit("tgz"); assert(e != "tgz"@) by { assert("tgz"@[0] == 't'); }
    }
    if e == "rpm"@ {
        reveal_strlit("rpm");
        assert(e.len() == 3 && e[0] == 'r' && e[1] == 'p' && e[2] == 'm');
        reveal_strlit("zip"); assert(e != "zip"@) by { assert("zip"@[0] == 'z'); }
        reveal_strlit("rar"); assert(e != "rar"@) by { assert("rar"@[1] == 'a'); }
        reveal_strlit("7z"); assert(e != "7z"@) by { assert("7z"@.len() == 2); }
        reveal_strlit("tar"); assert(e != "tar"@) by { assert("tar"@[0] == 't'); }
        reveal_strlit("gz"); assert(e != "gz"@) by { assert("gz"@.len() == 2); }
        reveal_strlit("bz2"); assert(e != "bz2"@) by { assert("bz2"@[0] == 'b'); }
        reveal_strlit("xz"); assert(e != "xz"@) by { assert("xz"@.len() == 2); }
        reveal_strlit("iso"); assert(e != "iso"@) by { assert("iso"@[0] == 'i'); }
        reveal_strlit("dmg"); assert(e != "dmg"@) by { assert("dmg"@[0] == 'd'); }
        reveal_strlit("pkg"); assert(e != "pkg"@) by { assert("pkg"@[0] == 'p'); }
        reveal_strlit("tgz"); assert(e != "tgz"@) by { assert("tgz"@[0] == 't'); }
    }
    if e == "appimage"@ {
        reveal_strlit("appimage");
        assert(e.len() == 8 && e[0] == 'a' && e[1] == 'p' && e[2] == 'p' && e[3] == 'i' && e[4] == 'm' && e[5] == 'a' && e[6] == 'g' && e[7] == 'e');
        reveal_strlit("zip"); assert(e != "zip"@) by { assert("zip"@.len() == 3); }
        reveal_strlit("rar"); assert(e != "rar"@) by { assert("rar"@.len() == 3); }
        reveal_strlit("7z"); assert(e != "7z"@) by { assert("7z"@.len() == 2); }
        reveal_strlit("tar"); assert(e != "tar"@) by { assert("tar"@.len() == 3); }
        reveal_strlit("gz"); assert(e != "gz"@) by { assert("gz"@.len() == 2); }
        reveal_strlit("bz2"); assert(e != "bz2"@) by { assert("bz2"@.len() == 3); }
        reveal_strlit("xz"); assert(e != "xz"@) by { assert("xz"@.len() == 2); }
        reveal_strlit("iso"); assert(e != "iso"@) by { assert("iso"@.len() == 3); }
        reveal_strlit("dmg"); assert(e != "dmg"@) by { assert("dmg"@.len() == 3); }
        reveal_strlit("pkg"); assert(e != "pkg"@) by { assert("pkg"@.len() == 3); }
        reveal_strlit("tgz"); assert(e != "tgz"@) by { assert("tgz"@.len() == 3); }
    }
    if e == "bat"@ {
        reveal_strlit("bat");
        assert(e.len() == 3 && e[0] == 'b' && e[1] == 'a' && e[2] == 't');
        reveal_strlit("zip"); assert(e != "zip"@) by { assert("zip"@[0] == 'z'); }
        reveal_strlit("rar"); assert(e != "rar"@) by { assert("rar"@[0] == 'r'); }
        reveal_strlit("7z"); assert(e != "7z"@) by { assert("7z"@.len() == 2); }
        reveal_strlit("tar"); assert(e != "tar"@) by { assert("tar"@[0] == 't'); }
        reveal_strlit("gz"); assert(e != "gz"@) by { assert("gz"@.len() == 2); }
        reveal_strlit("bz2"); assert(e != "bz2"@) by { assert("bz2"@[1] == 'z'); }
        reveal_strlit("xz"); assert(e != "xz"@) by { assert("xz"@.len() == 2); }
        reveal_strlit("iso"); assert(e != "iso"@) by { assert("iso"@[0] == 'i'); }
        reveal_strlit("dmg"); assert(e != "dmg"@) by { assert("dmg"@[0] == 'd'); }
        reveal_strlit("pkg"); assert(e != "pkg"@) by { assert("pkg"@[0] == 'p'); }
        reveal_strlit("tgz"); assert(e != "tgz"@) by { assert("tgz"@[0] == 't'); }
    }
    if e == "cmd"@ {
        reveal_strlit("cmd");
        assert(e.len() == 3 && e[0] == 'c' && e[1] == 'm' && e[2] == 'd');
        reveal_strlit("zip"); assert(e != "zip"@) by { assert("zip"@[0] == 'z'); }
        reveal_strlit("rar"); assert(e != "rar"@) by { assert("rar"@[0] == 'r'); }
        reveal_strlit("7z"); assert(e != "7z"@) by { assert("7z"@.len() == 2); }
        reveal_strlit("tar"); assert(e != "tar"@) by { assert("tar"@[0] == 't'); }
        reveal_strlit("gz"); assert(e != "gz"@) by { assert("gz"@.len() == 2); }
        reveal_strlit("bz2"); assert(e != "bz2"@) by { assert("bz2"@[0] == 'b'); }
        reveal_strlit("xz"); assert(e != "xz"@) by { assert("xz"@.len() == 2); }
        reveal_strlit("iso"); assert(e != "iso"@) by { assert("iso"@[0] == 'i'); }
        reveal_strlit("dmg"); assert(e != "dmg"@) by { assert("dmg"@[0] == 'd'); }
        reveal_strlit("pkg"); assert(e != "pkg"@) by { assert("pkg"@[0] == 'p'); }
        reveal_strlit("tgz"); assert(e != "tgz"@) by { assert("tgz"@[0] == 't'); }
    }
    if e == "ps1"@ {
        reveal_strlit("ps1");
        assert(e.len() == 3 && e[0] == 'p' && e[1] == 's' && e[2] == '1');
        reveal_strlit("zip"); assert(e != "zip"@) by { assert("zip"@[0] == 'z'); }
        reveal_strlit("rar"); assert(e != "rar"@) by { assert("rar"@[0] == 'r'); }
        reveal_strlit("7z"); assert(e != "7z"@) by { assert("7z"@.len() == 2); }
        reveal_strlit("tar"); assert(e != "tar"@) by { assert("tar"@[0] == 't'); }
        reveal_strlit("gz"); assert(e != "gz"@) by { assert("gz"@.len() == 2); }
        reveal_strlit("bz2"); assert(e != "bz2"@) by { assert("bz2"@[0] == 'b'); }
        reveal_strlit("xz"); assert(e != "xz"@) by { assert("xz"@.len() == 2); }
        reveal_strlit("iso"); assert(e != "iso"@) by { assert("iso"@[0] == 'i'); }
        reveal_strlit("dmg"); assert(e != "dmg"@) by { assert("dmg"@[0] == 'd'); }
        reveal_strlit("pkg"); assert(e != "pkg"@) by { assert("pkg"@[1] == 'k'); }
        reveal_strlit("tgz"); assert(e != "tgz"@) by { assert("tgz"@[0] == 't'); }
    }
}

proof fn lemma_video_folder(e: Seq<char>)
    ensures
        e == "mp4"@ || e == "mkv"@ || e == "mov"@ || e == "avi"@ || e == "wmv"@ || e == "flv"@ || e == "webm"@ || e == "m4v"@ || e == "m2ts"@ ==> type_folder(e) == "Video"@,
{
    if e == "mp4"@ {
        reveal_strlit("mp4");
        assert(e.len() == 3 && e[0] == 'm' && e[1] == 'p' && e[2] == '4');
        reveal_strlit("zip"); assert(e != "zip"@) by { assert("zip"@[0] == 'z'); }
        reveal_strlit("rar"); assert(e != "rar"@) by { assert("rar"@[0] == 'r'); }
        reveal_strlit("7z"); assert(e != "7z"@) by { assert("7z"@.len() == 2); }
        reveal_strlit("tar"); assert(e != "tar"@) by { assert("tar"@[0] == 't'); }
        reveal_strlit("gz"); assert(e != "gz"@) by { assert("gz"@.len() == 2); }
        reveal_strlit("bz2"); assert(e != "bz2"@) by { assert("bz2"@[0] == 'b'); }
        reveal_strlit("xz"); assert(e != "xz"@) by { assert("xz"@.len() == 2); }
        reveal_strlit("iso"); assert(e != "iso"@) by { assert("iso"@[0] == 'i'); }
        reveal_strlit("dmg"); assert(e != "dmg"@) by { assert("dmg"@[0] == 'd'); }
        reveal_strlit("pkg"); assert(e != "pkg"@) by { assert("pkg"@[0] == 'p'); }
        reveal_strlit("tgz"); assert(e != "tgz"@) by { assert("tgz"@[0] == 't'); }
        reveal_strlit("exe"); assert(e != "exe"@) by { assert("exe"@[0] == 'e'); }
        reveal_strlit("msi"); assert(e != "msi"@) by { assert("msi"@[1] == 's'); }
        reveal_strlit("apk"); assert(e != "apk"@) by { assert("apk"@[0] == 'a'); }
        reveal_strlit("deb"); assert(e != "deb"@) by { assert("deb"@[0] == 'd'); }
        reveal_strlit("rpm"); assert(e != "rpm"@) by { assert("rpm"@[0] == 'r'); }
        reveal_strlit("appimage"); assert(e != "appimage"@) by { assert("appimage"@.len() == 8); }
        reveal_strlit("bat"); assert(e != "bat"@) by { assert("bat"@[0] == 'b'); }
        reveal_strlit("cmd"); assert(e != "cmd"@) by { assert("cmd"@[0] == 'c'); }
        reveal_strlit("ps1"); assert(e != "ps1"@) by { assert("ps1"@[0] == 'p'); }
    }
    if e == "mkv"@ {
        reveal_strlit("mkv");
        assert(e.len() == 3 && e[0] == 'm' && e[1] == 'k' && e[2] == 'v');
        reveal_strlit("zip"); assert(e != "zip"@) by { assert("zip"@[0] == 'z'); }
        reveal_strlit("rar"); assert(e != "rar"@) by { assert("rar"@[0] == 'r'); }
        reveal_strlit("7z"); assert(e != "7z"@) by { assert("7z"@.len() == 2); }
        reveal_strlit("tar"); assert(e != "tar"@) by { assert("tar"@[0] == 't'); }
        reveal_strlit("gz"); assert(e != "gz"@) by { assert("gz"@.len() == 2); }
        reveal_strlit("bz2"); assert(e != "bz2"@) by { assert("bz2"@[0] == 'b'); }
        reveal_strlit("xz"); assert(e != "xz"@) by { assert("xz"@.len() == 2); }
        reveal_strlit("iso"); assert(e != "iso"@) by { assert("iso"@[0] == 'i'); }
        reveal_strlit("dmg"); assert(e != "dmg"@) by { assert("dmg"@[0] == 'd'); }
        reveal_strlit("pkg"); assert(e != "pkg"@) by { assert("pkg"@[0] == 'p'); }
        reveal_strlit("tgz"); assert(e != "tgz"@) by { assert("tgz"@[0] == 't'); }
        reveal_strlit("exe"); assert(e != "exe"@) by { assert("exe"@[0] == 'e'); }
        reveal_strlit("msi"); assert(e != "msi"@) by { assert("msi"@[1] == 's'); }
        reveal_strlit("apk"); assert(e != "apk"@) by { assert("apk"@[0] == 'a'); }
        reveal_strlit("deb"); assert(e != "deb"@) by { assert("deb"@[0] == 'd'); }
        reveal_strlit("rpm"); assert(e != "rpm"@) by { assert("rpm"@[0] == 'r'); }
        reveal_strlit("appimage"); assert(e != "appimage"@) by { assert("appimage"@.len() == 8); }
        reveal_strlit("bat"); assert(e != "bat"@) by { assert("bat"@[0] == 'b'); }
        reveal_strlit("cmd"); assert(e != "cmd"@) by { assert("cmd"@[0] == 'c'); }
        reveal_strlit("ps1"); assert(e != "ps1"@) by { assert("ps1"@[0] == 'p'); }
    }
    if e == "mov"@ {
        reveal_strlit("mov");
        assert(e.len() == 3 && e[0] == 'm' && e[1] == 'o' && e[2] == 'v');
        reveal_strlit("zip"); assert(e != "zip"@) by { assert("zip"@[0] == 'z'); }
        reveal_strlit("rar"); assert(e != "rar"@) by { assert("rar"@[0] == 'r'); }
        reveal_strlit("7z"); assert(e != "7z"@) by { assert("7z"@.len() == 2); }
        reveal_strlit("tar"); assert(e != "tar"@) by { assert("tar"@[0] == 't'); }
        reveal_strlit("gz"); assert(e != "gz"@) by { assert("gz"@.len() == 2); }
        reveal_strlit("bz2"); assert(e != "bz2"@) by { assert("bz2"@[0] == 'b'); }
        reveal_strlit("xz"); assert(e != "xz"@) by { assert("xz"@.len() == 2); }
        reveal_strlit("iso"); assert(e != "iso"@) by { assert("iso"@[0] == 'i'); }
        reveal_strlit("dmg"); assert(e != "dmg"@) by { assert("dmg"@[0] == 'd'); }
        reveal_strlit("pkg"); assert(e != "pkg"@) by { assert("pkg"@[0] == 'p'); }
        reveal_strlit("tgz"); assert(e != "tgz"@) by { assert("tgz"@[0] == 't'); }
        reveal_strlit("exe"); assert(e != "exe"@) by { assert("exe"@[0] == 'e'); }
        reveal_strlit("msi"); assert(e != "msi"@) by { assert("msi"@[1] == 's'); }
        reveal_strlit("apk"); assert(e != "apk"@) by { assert("apk"@[0] == 'a'); }
        reveal_strlit("deb"); assert(e != "deb"@) by { assert("deb"@[0] == 'd'); }
        reveal_strlit("rpm"); assert(e != "rpm"@) by { assert("rpm"@[0] == 'r'); }
        reveal_strlit("appimage"); assert(e != "appimage"@) by { assert("appimage"@.len() == 8); }
        reveal_strlit("bat"); assert(e != "bat"@) by { assert("bat"@[0] == 'b'); }
        reveal_strlit("cmd"); assert(e != "cmd"@) by { assert("cmd"@[0] == 'c'); }
        reveal_strlit("ps1"); assert(e != "ps1"@) by { assert("ps1"@[0] == 'p'); }
    }
    if e == "avi"@ {
        reveal_strlit("avi");
        assert(e.len() == 3 && e[0] == 'a' && e[1] == 'v' && e[2] == 'i');
        reveal_strlit("zip"); assert(e != "zip"@) by { assert("zip"@[0] == 'z'); }
        reveal_strlit("rar"); assert(e != "rar"@) by { assert("rar"@[0] == 'r'); }
        reveal_strlit("7z"); assert(e != "7z"@) by { assert("7z"@.len() == 2); }
        reveal_strlit("tar"); assert(e != "tar"@) by { assert("tar"@[0] == 't'); }
        reveal_strlit("gz"); assert(e != "gz"@) by { assert("gz"@.len() == 2); }
        reveal_strlit("bz2"); assert(e != "bz2"@) by { assert("bz2"@[0] == 'b'); }
        reveal_strlit("xz"); assert(e != "xz"@) by { assert("xz"@.len() == 2); }
        reveal_strlit("iso"); assert(e != "iso"@) by { assert("iso"@[0] == 'i'); }
        reveal_strlit("dmg"); assert(e != "dmg"@) by { assert("dmg"@[0] == 'd'); }
        reveal_strlit("pkg"); assert(e != "pkg"@) by { assert("pkg"@[0] == 'p'); }
        reveal_strlit("tgz"); assert(e != "tgz"@) by { assert("tgz"@[0] == 't'); }
        reveal_strlit("exe"); assert(e != "exe"@) by { assert("exe"@[0] == 'e'); }
        reveal_strlit("msi"); assert(e != "msi"@) by { assert("msi"@[0] == 'm'); }
        reveal_strlit("apk"); assert(e != "apk"@) by { assert("apk"@[1] == 'p'); }
        reveal_strlit("deb"); assert(e != "deb"@) by { assert("deb"@[0] == 'd'); }
        reveal_strlit("rpm"); assert(e != "rpm"@) by { assert("rpm"@[0] == 'r'); }
        reveal_strlit("appimage"); assert(e != "appimage"@) by { assert("appimage"@.len() == 8); }
        reveal_strlit("bat"); assert(e != "bat"@) by { assert("bat"@[0] == 'b'); }
        reveal_strlit("cmd"); assert(e != "cmd"@) by { assert("cmd"@[0] == 'c'); }
        reveal_strlit("ps1"); assert(e != "ps1"@) by { assert("ps1"@[0] == 'p'); }
    }
    if e == "wmv"@ {
        reveal_strlit("wmv");
        assert(e.len() == 3 && e[0] == 'w' && e[1] == 'm' && e[2] == 'v');
        reveal_strlit("zip"); assert(e != "zip"@) by { assert("zip"@[0] == 'z'); }
        reveal_strlit("rar"); assert(e != "rar"@) by { assert("rar"@[0] == 'r'); }
        reveal_strlit("7z"); assert(e != "7z"@) by { assert("7z"@.len() == 2); }
        reveal_strlit("tar"); assert(e != "tar"@) by { assert("tar"@[0] == 't'); }
        reveal_strlit("gz"); assert(e != "gz"@) by { assert("gz"@.len() == 2); }
        reveal_strlit("bz2"); assert(e != "bz2"@) by { assert("bz2"@[0] == 'b'); }
        reveal_strlit("xz"); assert(e != "xz"@) by { assert("xz"@.len() == 2); }
        reveal_strlit("iso"); assert(e != "iso"@) by { assert("iso"@[0] == 'i'); }
        reveal_strlit("dmg"); assert(e != "dmg"@) by { assert("dmg"@[0] == 'd'); }
        reveal_strlit("pkg"); assert(e != "pkg"@) by { assert("pkg"@[0] == 'p'); }
        reveal_strlit("tgz"); assert(e != "tgz"@) by { assert("tgz"@[0] == 't'); }
        reveal_strlit("exe"); assert(e != "exe"@) by { assert("exe"@[0] == 'e'); }
        reveal_strlit("msi"); assert(e != "msi"@) by { assert("msi"@[0] == 'm'); }
        reveal_strlit("apk"); assert(e != "apk"@) by { assert("apk"@[0] == 'a'); }
        reveal_strlit("deb"); assert(e != "deb"@) by { assert("deb"@[0] == 'd'); }
        reveal_strlit("rpm"); assert(e != "rpm"@) by { assert("rpm"@[0] == 'r'); }
        reveal_strlit("appimage"); assert(e != "appimage"@) by { assert("appimage"@.len() == 8); }
        reveal_strlit("bat"); assert(e != "bat"@) by { assert("bat"@[0] == 'b'); }
        reveal_strlit("cmd"); assert(e != "cmd"@) by { assert("cmd"@[0] == 'c'); }
        reveal_strlit("ps1"); assert(e != "ps1"@) by { assert("ps1"@[0] == 'p'); }
    }
    if e == "flv"@ {
        reveal_strlit("flv");
        assert(e.len() == 3 && e[0] == 'f' && e[1] == 'l' && e[2] == 'v');
        reveal_strlit("zip"); assert(e != "zip"@) by { assert("zip"@[0] == 'z'); }
        reveal_strlit("rar"); assert(e != "rar"@) by { assert("rar"@[0] == 'r'); }
        reveal_strlit("7z"); assert(e != "7z"@) by { assert("7z"@.len() == 2); }
        reveal_strlit("tar"); assert(e != "tar"@) by { assert("tar"@[0] == 't'); }
        reveal_strlit("gz"); assert(e != "gz"@) by { assert("gz"@.len() == 2); }
        reveal_strlit("bz2"); assert(e != "bz2"@) by { assert("bz2"@[0] == 'b'); }
        reveal_strlit("xz"); assert(e != "xz"@) by { assert("xz"@.len() == 2); }
        reveal_strlit("iso"); assert(e != "iso"@) by { assert("iso"@[0] == 'i'); }
        reveal_strlit("dmg"); assert(e != "dmg"@) by { assert("dmg"@[0] == 'd'); }
        reveal_strlit("pkg"); assert(e != "pkg"@) by { assert("pkg"@[0] == 'p'); }
        reveal_strlit("tgz"); assert(e != "tgz"@) by { assert("tgz"@[0] == 't'); }
        reveal_strlit("exe"); assert(e != "exe"@) by { assert("exe"@[0] == 'e'); }
        reveal_strlit("msi"); assert(e != "msi"@) by { assert("msi"@[0] == 'm'); }
        reveal_strlit("apk"); assert(e != "apk"@) by { assert("apk"@[0] == 'a'); }
        reveal_strlit("deb"); assert(e != "deb"@) by { assert("deb"@[0] == 'd'); }
        reveal_strlit("rpm"); assert(e != "rpm"@) by { assert("rpm"@[0] == 'r'); }
        reveal_strlit("appimage"); assert(e != "appimage"@) by { assert("appimage"@.len() == 8); }
        reveal_strlit("bat"); assert(e != "bat"@) by { assert("bat"@[0] == 'b'); }
        reveal_strlit("cmd"); assert(e != "cmd"@) by { assert("cmd"@[0] == 'c'); }
        reveal_strlit("ps1"); assert(e != "ps1"@) by { assert("ps1"@[0] == 'p'); }
    }
    if e == "webm"@ {
        reveal_strlit("webm");
        assert(e.len() == 4 && e[0] == 'w' && e[1] == 'e' && e[2] == 'b' && e[3] == 'm');
        reveal_strlit("zip"); assert(e != "zip"@) by { assert("zip"@.len() == 3); }
        reveal_strlit("rar"); assert(e != "rar"@) by { assert("rar"@.len() == 3); }
        reveal_strlit("7z"); assert(e != "7z"@) by { assert("7z"@.len() == 2); }
        reveal_strlit("tar"); assert(e != "tar"@) by { assert("tar"@.len() == 3); }
        reveal_strlit("gz"); assert(e != "gz"@) by { assert("gz"@.len() == 2); }
        reveal_strlit("bz2"); assert(e != "bz2"@) by { assert("bz2"@.len() == 3); }
        reveal_strlit("xz"); assert(e != "xz"@) by { assert("xz"@.len() == 2); }
        reveal_strlit("iso"); assert(e != "iso"@) by { assert("iso"@.len() == 3); }
        reveal_strlit("dmg"); assert(e != "dmg"@) by { assert("dmg"@.len() == 3); }
        reveal_strlit("pkg"); assert(e != "pkg"@) by { assert("pkg"@.len() == 3); }
        reveal_strlit("tgz"); assert(e != "tgz"@) by { assert("tgz"@.len() == 3); }
        reveal_strlit("exe"); assert(e != "exe"@) by { assert("exe"@.len() == 3); }
        reveal_strlit("msi"); assert(e != "msi"@) by { assert("msi"@.len() == 3); }
        reveal_strlit("apk"); assert(e != "apk"@) by { assert("apk"@.len() == 3); }
        reveal_strlit("deb"); assert(e != "deb"@) by { assert("deb"@.len() == 3); }
        reveal_strlit("rpm"); assert(e != "rpm"@) by { assert("rpm"@.len() == 3); }
        reveal_strlit("appimage"); assert(e != "appimage"@) by { assert("appimage"@.len() == 8); }
        reveal_strlit("bat"); assert(e != "bat"@) by { assert("bat"@.len() == 3); }
        reveal_strlit("cmd"); assert(e != "cmd"@) by { assert("cmd"@.len() == 3); }
        reveal_strlit("ps1"); assert(e != "ps1"@) by { assert("ps1"@.len() == 3); }
    }
    if e == "m4v"@ {
        reveal_strlit("m4v");
        assert(e.len() == 3 && e[0] == 'm' && e[1] == '4' && e[2] == 'v');
        reveal_strlit("zip"); assert(e != "zip"@) by { assert("zip"@[0] == 'z'); }
        reveal_strlit("rar"); assert(e != "rar"@) by { assert("rar"@[0] == 'r'); }
        reveal_strlit("7z"); assert(e != "7z"@) by { assert("7z"@.len() == 2); }
        reveal_strlit("tar"); assert(e != "tar"@) by { assert("tar"@[0] == 't'); }
        reveal_strlit("gz"); assert(e != "gz"@) by { assert("gz"@.len() == 2); }
        reveal_strlit("bz2"); assert(e != "bz2"@) by { assert("bz2"@[0] == 'b'); }
        reveal_strlit("xz"); assert(e != "xz"@) by { assert("xz"@.len() == 2); }
        reveal_strlit("iso"); assert(e != "iso"@) by { assert("iso"@[0] == 'i'); }
        reveal_strlit("dmg"); assert(e != "dmg"@) by { assert("dmg"@[0] == 'd'); }
        reveal_strlit("pkg"); assert(e != "pkg"@) by { assert("pkg"@[0] == 'p'); }
        reveal_strlit("tgz"); assert(e != "tgz"@) by { assert("tgz"@[0] == 't'); }
        reveal_strlit("exe"); assert(e != "exe"@) by { assert("exe"@[0] == 'e'); }
        reveal_strlit("msi"); assert(e != "msi"@) by { assert("msi"@[1] == 's'); }
        reveal_strlit("apk"); assert(e != "apk"@) by { assert("apk"@[0] == 'a'); }
        reveal_strlit("deb"); assert(e != "deb"@) by { assert("deb"@[0] == 'd'); }
        reveal_strlit("rpm"); assert(e != "rpm"@) by { assert("rpm"@[0] == 'r'); }
        reveal_strlit("appimage"); assert(e != "appimage"@) by { assert("appimage"@.len() == 8); }
        reveal_strlit("bat"); assert(e != "bat"@) by { assert("bat"@[0] == 'b'); }
        reveal_strlit("cmd"); assert(e != "cmd"@) by { assert("cmd"@[0] == 'c'); }
        reveal_strlit("ps1"); assert(e != "ps1"@) by { assert("ps1"@[0] == 'p'); }
    }
    if e == "m2ts"@ {
        reveal_strlit("m2ts");
        assert(e.len() == 4 && e[0] == 'm' && e[1] == '2' && e[2] == 't' && e[3] == 's');
        reveal_strlit("zip"); assert(e != "zip"@) by { assert("zip"@.len() == 3); }
        reveal_strlit("rar"); assert(e != "rar"@) by { assert("rar"@.len() == 3); }
        reveal_strlit("7z"); assert(e != "7z"@) by { assert("7z"@.len() == 2); }
        reveal_strlit("tar"); assert(e != "tar"@) by { assert("tar"@.len() == 3); }
        reveal_strlit("gz"); assert(e != "gz"@) by { assert("gz"@.len() == 2); }
        reveal_strlit("bz2"); assert(e != "bz2"@) by { assert("bz2"@.len() == 3); }
        reveal_strlit("xz"); assert(e != "xz"@) by { assert("xz"@.len() == 2); }
        reveal_strlit("iso"); assert(e != "iso"@) by { assert("iso"@.len() == 3); }
        reveal_strlit("dmg"); assert(e != "dmg"@) by { assert("dmg"@.len() == 3); }
        reveal_strlit("pkg"); assert(e != "pkg"@) by { assert("pkg"@.len() == 3); }
        reveal_strlit("tgz"); assert(e != "tgz"@) by { assert("tgz"@.len() == 3); }
        reveal_strlit("exe"); assert(e != "exe"@) by { assert("exe"@.len() == 3); }
        reveal_strlit("msi"); assert(e != "msi"@) by { assert("msi"@.len() == 3); }
        reveal_strlit("apk"); assert(e != "apk"@) by { assert("apk"@.len() == 3); }
        reveal_strlit("deb"); assert(e != "deb"@) by { assert("deb"@.len() == 3); }
        reveal_strlit("rpm"); assert(e != "rpm"@) by { assert("rpm"@.len() == 3); }
        reveal_strlit("appimage"); assert(e != "appimage"@) by { assert("appimage"@.len() == 8); }
        reveal_strlit("bat"); assert(e != "bat"@) by { assert("bat"@.len() == 3); }
        reveal_strlit("cmd"); assert(e != "cmd"@) by { assert("cmd"@.len() == 3); }
        reveal_strlit("ps1"); assert(e != "ps1"@) by { assert("ps1"@.len() == 3); }
    }
}

proof fn lemma_music_folder(e: Seq<char>)
    ensures
        e == "mp3"@ || e == "wav"@ || e == "flac"@ || e == "aac"@ || e == "ogg"@ || e == "m4a"@ || e == "wma"@ || e == "opus"@ ==> type_folder(e) == "Music"@,
{
    if e == "mp3"@ {
        reveal_strlit("mp3");
        assert(e.len() == 3 && e[0] == 'm' && e[1] == 'p' && e[2] == '3');
        reveal_strlit("zip"); assert(e != "zip"@) by { assert("zip"@[0] == 'z'); }
        reveal_strlit("rar"); assert(e != "rar"@) by { assert("rar"@[0] == 'r'); }
        reveal_strlit("7z"); assert(e != "7z"@) by { assert("7z"@.len() == 2); }
        reveal_strlit("tar"); assert(e != "tar"@) by { assert("tar"@[0] == 't'); }
        reveal_strlit("gz"); assert(e != "gz"@) by { assert("gz"@.len() == 2); }
        reveal_strlit("bz2"); assert(e != "bz2"@) by { assert("bz2"@[0] == 'b'); }
        reveal_strlit("xz"); assert(e != "xz"@) by { assert("xz"@.len() == 2); }
        reveal_strlit("iso"); assert(e != "iso"@) by { assert("iso"@[0] == 'i'); }
        reveal_strlit("dmg"); assert(e != "dmg"@) by { assert("dmg"@[0] == 'd'); }
        reveal_strlit("pkg"); assert(e != "pkg"@) by { assert("pkg"@[0] == 'p'); }
        reveal_strlit("tgz"); assert(e != "tgz"@) by { assert("tgz"@[0] == 't'); }
        reveal_strlit("exe"); assert(e != "exe"@) by { assert("exe"@[0] == 'e'); }
        reveal_strlit("msi"); assert(e != "msi"@) by { assert("msi"@[1] == 's'); }
        reveal_strlit("apk"); assert(e != "apk"@) by { assert("apk"@[0] == 'a'); }
        reveal_strlit("deb"); assert(e != "deb"@) by { assert("deb"@[0] == 'd'); }
        reveal_strlit("rpm"); assert(e != "rpm"@) by { assert("rpm"@[0] == 'r'); }
        reveal_strlit("appimage"); assert(e != "appimage"@) by { assert("appimage"@.len() == 8); }
        reveal_strlit("bat"); assert(e != "bat"@) by { assert("bat"@[0] == 'b'); }
        reveal_strlit("cmd"); assert(e != "cmd"@) by { assert("cmd"@[0] == 'c'); }
        reveal_strlit("ps1"); assert(e != "ps1"@) by { assert("ps1"@[0] == 'p'); }
        reveal_strlit("mp4"); assert(e != "mp4"@) by { assert("mp4"@[2] == '4'); }
        reveal_strlit("mkv"); assert(e != "mkv"@) by { assert("mkv"@[1] == 'k'); }
        reveal_strlit("mov"); assert(e != "mov"@) by { assert("mov"@[1] == 'o'); }
        reveal_strlit("avi"); assert(e != "avi"@) by { assert("avi"@[0] == 'a'); }
        reveal_strlit("wmv"); assert(e != "wmv"@) by { assert("wmv"@[0] == 'w'); }
        reveal_strlit("flv"); assert(e != "flv"@) by { assert("flv"@[0] == 'f'); }
        reveal_strlit("webm"); assert(e != "webm"@) by { assert("webm"@.len() == 4); }
        reveal_strlit("m4v"); assert(e != "m4v"@) by { assert("m4v"@[1] == '4'); }
        reveal_strlit("m2ts"); assert(e != "m2ts"@) by { assert("m2ts"@.len() == 4); }
    }
    if e == "wav"@ {
        reveal_strlit("wav");
        assert(e.len() == 3 && e[0] == 'w' && e[1] == 'a' && e[2] == 'v');
        reveal_strlit("zip"); assert(e != "zip"@) by { assert("zip"@[0] == 'z'); }
        reveal_strlit("rar"); assert(e != "rar"@) by { assert("rar"@[0] == 'r'); }
        reveal_strlit("7z"); assert(e != "7z"@) by { assert("7z"@.len() == 2); }
        reveal_strlit("tar"); assert(e != "tar"@) by { assert("tar"@[0] == 't'); }
        reveal_strlit("gz"); assert(e != "gz"@) by { assert("gz"@.len() == 2); }
        reveal_strlit("bz2"); assert(e != "bz2"@) by { assert("bz2"@[0] == 'b'); }
        reveal_strlit("xz"); assert(e != "xz"@) by { assert("xz"@.len() == 2); }
        reveal_strlit("iso"); assert(e != "iso"@) by { assert("iso"@[0] == 'i'); }
        reveal_strlit("dmg"); assert(e != "dmg"@) by { assert("dmg"@[0] == 'd'); }
        reveal_strlit("pkg"); assert(e != "pkg"@) by { assert("pkg"@[0] == 'p'); }
        reveal_strlit("tgz"); assert(e != "tgz"@) by { assert("tgz"@[0] == 't'); }
        reveal_strlit("exe"); assert(e != "exe"@) by { assert("exe"@[0] == 'e'); }
        reveal_strlit("msi"); assert(e != "msi"@) by { assert("msi"@[0] == 'm'); }
        reveal_strlit("apk"); assert(e != "apk"@) by { assert("apk"@[0] == 'a'); }
        reveal_strlit("deb"); assert(e != "deb"@) by { assert("deb"@[0] == 'd'); }
        reveal_strlit("rpm"); assert(e != "rpm"@) by { assert("rpm"@[0] == 'r'); }
        reveal_strlit("appimage"); assert(e != "appimage"@) by { assert("appimage"@.len() == 8); }
        reveal_strlit("bat"); assert(e != "bat"@) by { assert("bat"@[0] == 'b'); }
        reveal_strlit("cmd"); assert(e != "cmd"@) by { assert("cmd"@[0] == 'c'); }
        reveal_strlit("ps1"); assert(e != "ps1"@) by { assert("ps1"@[0] == 'p'); }
        reveal_strlit("mp4"); assert(e != "mp4"@) by { assert("mp4"@[0] == 'm'); }
        reveal_strlit("mkv"); assert(e != "mkv"@) by { assert("mkv"@[0] == 'm'); }
        reveal_strlit("mov"); assert(e != "mov"@) by { assert("mov"@[0] == 'm'); }
        reveal_strlit("avi"); assert(e != "avi"@) by { assert("avi"@[0] == 'a'); }
        reveal_strlit("wmv"); assert(e != "wmv"@) by { assert("wmv"@[1] == 'm'); }
        reveal_strlit("flv"); assert(e != "flv"@) by { assert("flv"@[0] == 'f'); }
        reveal_strlit("webm"); assert(e != "webm"@) by { assert("webm"@.len() == 4); }
        reveal_strlit("m4v"); assert(e != "m4v"@) by { assert("m4v"@[0] == 'm'); }
        reveal_strlit("m2ts"); assert(e != "m2ts"@) by { assert("m2ts"@.len() == 4); }
    }
    if e == "flac"@ {
        reveal_strlit("flac");
        assert(e.len() == 4 && e[0] == 'f' && e[1] == 'l' && e[2] == 'a' && e[3] == 'c');
        reveal_strlit("zip"); assert(e != "zip"@) by { assert("zip"@.len() == 3); }
        reveal_strlit("rar"); assert(e != "rar"@) by { assert("rar"@.len() == 3); }
        reveal_strlit("7z"); assert(e != "7z"@) by { assert("7z"@.len() == 2); }
        reveal_strlit("tar"); assert(e != "tar"@) by { assert("tar"@.len() == 3); }
        reveal_strlit("gz"); assert(e != "gz"@) by { assert("gz"@.len() == 2); }
        reveal_strlit("bz2"); assert(e != "bz2"@) by { assert("bz2"@.len() == 3); }
        reveal_strlit("xz"); assert(e != "xz"@) by { assert("xz"@.len() == 2); }
        reveal_strlit("iso"); assert(e != "iso"@) by { assert("iso"@.len() == 3); }
        reveal_strlit("dmg"); assert(e != "dmg"@) by { assert("dmg"@.len() == 3); }
        reveal_strlit("pkg"); assert(e != "pkg"@) by { assert("pkg"@.len() == 3); }
        reveal_strlit("tgz"); assert(e != "tgz"@) by { assert("tgz"@.len() == 3); }
        reveal_strlit("exe"); assert(e != "exe"@) by { assert("exe"@.len() == 3); }
        reveal_strlit("msi"); assert(e != "msi"@) by { assert("msi"@.len() == 3); }
        reveal_strlit("apk"); assert(e != "apk"@) by { assert("apk"@.len() == 3); }
        reveal_strlit("deb"); assert(e != "deb"@) by { assert("deb"@.len() == 3); }
        reveal_strlit("rpm"); assert(e != "rpm"@) by { assert("rpm"@.len() == 3); }
        reveal_strlit("appimage"); assert(e != "appimage"@) by { assert("appimage"@.len() == 8); }
        reveal_strlit("bat"); assert(e != "bat"@) by { assert("bat"@.len() == 3); }
        reveal_strlit("cmd"); assert(e != "cmd"@) by { assert("cmd"@.len() == 3); }
        reveal_strlit("ps1"); assert(e != "ps1"@) by { assert("ps1"@.len() == 3); }
        reveal_strlit("mp4"); assert(e != "mp4"@) by { assert("mp4"@.len() == 3); }
        reveal_strlit("mkv"); assert(e != "mkv"@) by { assert("mkv"@.len() == 3); }
        reveal_strlit("mov"); assert(e != "mov"@) by { assert("mov"@.len() == 3); }
        reveal_strlit("avi"); assert(e != "avi"@) by { assert("avi"@.len() == 3); }
        reveal_strlit("wmv"); assert(e != "wmv"@) by { assert("wmv"@.len() == 3); }
        reveal_strlit("flv"); assert(e != "flv"@) by { assert("flv"@.len() == 3); }
        reveal_strlit("webm"); assert(e != "webm"@) by { assert("webm"@[0] == 'w'); }
        reveal_strlit("m4v"); assert(e != "m4v"@) by { assert("m4v"@.len() == 3); }
        reveal_strlit("m2ts"); assert(e != "m2ts"@) by { assert("m2ts"@[0] == 'm'); }
    }
    if e == "aac"@ {
        reveal_strlit("aac");
        assert(e.len() == 3 && e[0] == 'a' && e[1] == 'a' && e[2] == 'c');
        reveal_strlit("zip"); assert(e != "zip"@) by { assert("zip"@[0] == 'z'); }
        reveal_strlit("rar"); assert(e != "rar"@) by { assert("rar"@[0] == 'r'); }
        reveal_strlit("7z"); assert(e != "7z"@) by { assert("7z"@.len() == 2); }
        reveal_strlit("tar"); assert(e != "tar"@) by { assert("tar"@[0] == 't'); }
        reveal_strlit("gz"); assert(e != "gz"@) by { assert("gz"@.len() == 2); }
        reveal_strlit("bz2"); assert(e != "bz2"@) by { assert("bz2"@[0] == 'b'); }
        reveal_strlit("xz"); assert(e != "xz"@) by { assert("xz"@.len() == 2); }
        reveal_strlit("iso"); assert(e != "iso"@) by { assert("iso"@[0] == 'i'); }
        reveal_strlit("dmg"); assert(e != "dmg"@) by { assert("dmg"@[0] == 'd'); }
        reveal_strlit("pkg"); assert(e != "pkg"@) by { assert("pkg"@[0] == 'p'); }
        reveal_strlit("tgz"); assert(e != "tgz"@) by { assert("tgz"@[0] == 't'); }
        reveal_strlit("exe"); assert(e != "exe"@) by { assert("exe"@[0] == 'e'); }
        reveal_strlit("msi"); assert(e != "msi"@) by { assert("msi"@[0] == 'm'); }
        reveal_strlit("apk"); assert(e != "apk"@) by { assert("apk"@[1] == 'p'); }
        reveal_strlit("deb"); assert(e != "deb"@) by { assert("deb"@[0] == 'd'); }
        reveal_strlit("rpm"); assert(e != "rpm"@) by { assert("rpm"@[0] == 'r'); }
        reveal_strlit("appimage"); assert(e != "appimage"@) by { assert("appimage"@.len() == 8); }
        reveal_strlit("bat"); assert(e != "bat"@) by { assert("bat"@[0] == 'b'); }
        reveal_strlit("cmd"); assert(e != "cmd"@) by { assert("cmd"@[0] == 'c'); }
        reveal_strlit("ps1"); assert(e != "ps1"@) by { assert("ps1"@[0] == 'p'); }
        reveal_strlit("mp4"); assert(e != "mp4"@) by { assert("mp4"@[0] == 'm'); }
        reveal_strlit("mkv"); assert(e != "mkv"@) by { assert("mkv"@[0] == 'm'); }
        reveal_strlit("mov"); assert(e != "mov"@) by { assert("mov"@[0] == 'm'); }
        reveal_strlit("avi"); assert(e != "avi"@) by { assert("avi"@[1] == 'v'); }
        reveal_strlit("wmv"); assert(e != "wmv"@) by { assert("wmv"@[0] == 'w'); }
        reveal_strlit("flv"); assert(e != "flv"@) by { assert("flv"@[0] == 'f'); }
        reveal_strlit("webm"); assert(e != "webm"@) by { assert("webm"@.len() == 4); }
        reveal_strlit("m4v"); assert(e != "m4v"@) by { assert("m4v"@[0] == 'm'); }
        reveal_strlit("m2ts"); assert(e != "m2ts"@) by { assert("m2ts"@.len() == 4); }
    }
    if e == "ogg"@ {
        reveal_strlit("ogg");
        assert(e.len() == 3 && e[0] == 'o' && e[1] == 'g' && e[2] == 'g');
        reveal_strlit("zip"); assert(e != "zip"@) by { assert("zip"@[0] == 'z'); }
        reveal_strlit("rar"); assert(e != "rar"@) by { assert("rar"@[0] == 'r'); }
        reveal_strlit("7z"); assert(e != "7z"@) by { assert("7z"@.len() == 2); }
        reveal_strlit("tar"); assert(e != "tar"@) by { assert("tar"@[0] == 't'); }
        reveal_strlit("gz"); assert(e != "gz"@) by { assert("gz"@.len() == 2); }
        reveal_strlit("bz2"); assert(e != "bz2"@) by { assert("bz2"@[0] == 'b'); }
        reveal_strlit("xz"); assert(e != "xz"@) by { assert("xz"@.len() == 2); }
        reveal_strlit("iso"); assert(e != "iso"@) by { assert("iso"@[0] == 'i'); }
        reveal_strlit("dmg"); assert(e != "dmg"@) by { assert("dmg"@[0] == 'd'); }
        reveal_strlit("pkg"); assert(e != "pkg"@) by { assert("pkg"@[0] == 'p'); }
        reveal_strlit("tgz"); assert(e != "tgz"@) by { assert("tgz"@[0] == 't'); }
        reveal_strlit("exe"); assert(e != "exe"@) by { assert("exe"@[0] == 'e'); }
        reveal_strlit("msi"); assert(e != "msi"@) by { assert("msi"@[0] == 'm'); }
        reveal_strlit("apk"); assert(e != "apk"@) by { assert("apk"@[0] == 'a'); }
        reveal_strlit("deb"); assert(e != "deb"@) by { assert("deb"@[0] == 'd'); }
        reveal_strlit("rpm"); assert(e != "rpm"@) by { assert("rpm"@[0] == 'r'); }
        reveal_strlit("appimage"); assert(e != "appimage"@) by { assert("appimage"@.len() == 8); }
        reveal_strlit("bat"); assert(e != "bat"@) by { assert("bat"@[0] == 'b'); }
        reveal_strlit("cmd"); assert(e != "cmd"@) by { assert("cmd"@[0] == 'c'); }
        reveal_strlit("ps1"); assert(e != "ps1"@) by { assert("ps1"@[0] == 'p'); }
        reveal_strlit("mp4"); assert(e != "mp4"@) by { assert("mp4"@[0] == 'm'); }
        reveal_strlit("mkv"); assert(e != "mkv"@) by { assert("mkv"@[0] == 'm'); }
        reveal_strlit("mov"); assert(e != "mov"@) by { assert("mov"@[0] == 'm'); }
        reveal_strlit("avi"); assert(e != "avi"@) by { assert("avi"@[0] == 'a'); }
        reveal_strlit("wmv"); assert(e != "wmv"@) by { assert("wmv"@[0] == 'w'); }
        reveal_strlit("flv"); assert(e != "flv"@) by { assert("flv"@[0] == 'f'); }
        reveal_strlit("webm"); assert(e != "webm"@) by { assert("webm"@.len() == 4); }
        reveal_strlit("m4v"); assert(e != "m4v"@) by { assert("m4v"@[0] == 'm'); }
        reveal_strlit("m2ts"); assert(e != "m2ts"@) by { assert("m2ts"@.len() == 4); }
    }
    if e == "m4a"@ {
        reveal_strlit("m4a");
        assert(e.len() == 3 && e[0] == 'm' && e[1] == '4' && e[2] == 'a');
        reveal_strlit("zip"); assert(e != "zip"@) by { assert("zip"@[0] == 'z'); }
        reveal_strlit("rar"); assert(e != "rar"@) by { assert("rar"@[0] == 'r'); }
        reveal_strlit("7z"); assert(e != "7z"@) by { assert("7z"@.len() == 2); }
        reveal_strlit("tar"); assert(e != "tar"@) by { assert("tar"@[0] == 't'); }
        reveal_strlit("gz"); assert(e != "gz"@) by { assert("gz"@.len() == 2); }
        reveal_strlit("bz2"); assert(e != "bz2"@) by { assert("bz2"@[0] == 'b'); }
        reveal_strlit("xz"); assert(e != "xz"@) by { assert("xz"@.len() == 2); }
        reveal_strlit("iso"); assert(e != "iso"@) by { assert("iso"@[0] == 'i'); }
        reveal_strlit("dmg"); assert(e != "dmg"@) by { assert("dmg"@[0] == 'd'); }
        reveal_strlit("pkg"); assert(e != "pkg"@) by { assert("pkg"@[0] == 'p'); }
        reveal_strlit("tgz"); assert(e != "tgz"@) by { assert("tgz"@[0] == 't'); }
        reveal_strlit("exe"); assert(e != "exe"@) by { assert("exe"@[0] == 'e'); }
        reveal_strlit("msi"); assert(e != "msi"@) by { assert("msi"@[1] == 's'); }
        reveal_strlit("apk"); assert(e != "apk"@) by { assert("apk"@[0] == 'a'); }
        reveal_strlit("deb"); assert(e != "deb"@) by { assert("deb"@[0] == 'd'); }
        reveal_strlit("rpm"); assert(e != "rpm"@) by { assert("rpm"@[0] == 'r'); }
        reveal_strlit("appimage"); assert(e != "appimage"@) by { assert("appimage"@.len() == 8); }
        reveal_strlit("bat"); assert(e != "bat"@) by { assert("bat"@[0] == 'b'); }
        reveal_strlit("cmd"); assert(e != "cmd"@) by { assert("cmd"@[0] == 'c'); }
        reveal_strlit("ps1"); assert(e != "ps1"@) by { assert("ps1"@[0] == 'p'); }
        reveal_strlit("mp4"); assert(e != "mp4"@) by { assert("mp4"@[1] == 'p'); }
        reveal_strlit("mkv"); assert(e != "mkv"@) by { assert("mkv"@[1] == 'k'); }
        reveal_strlit("mov"); assert(e != "mov"@) by { assert("mov"@[1] == 'o'); }
        reveal_strlit("avi"); assert(e != "avi"@) by { assert("avi"@[0] == 'a'); }
        reveal_strlit("wmv"); assert(e != "wmv"@) by { assert("wmv"@[0] == 'w'); }
        reveal_strlit("flv"); assert(e != "flv"@) by { assert("flv"@[0] == 'f'); }
        reveal_strlit("webm"); assert(e != "webm"@) by { assert("webm"@.len() == 4); }
        reveal_strlit("m4v"); assert(e != "m4v"@) by { assert("m4v"@[2] == 'v'); }
        reveal_strlit("m2ts"); assert(e != "m2ts"@) by { assert("m2ts"@.len() == 4); }
    }
    if e == "wma"@ {
        reveal_strlit("wma");
        assert(e.len() == 3 && e[0] == 'w' && e[1] == 'm' && e[2] == 'a');
        reveal_strlit("zip"); assert(e != "zip"@) by { assert("zip"@[0] == 'z'); }
        reveal_strlit("rar"); assert(e != "rar"@) by { assert("rar"@[0] == 'r'); }
        reveal_strlit("7z"); assert(e != "7z"@) by { assert("7z"@.len() == 2); }
        reveal_strlit("tar"); assert(e != "tar"@) by { assert("tar"@[0] == 't'); }
        reveal_strlit("gz"); assert(e != "gz"@) by { assert("gz"@.len() == 2); }
        reveal_strlit("bz2"); assert(e != "bz2"@) by { assert("bz2"@[0] == 'b'); }
        reveal_strlit("xz"); assert(e != "xz"@) by { assert("xz"@.len() == 2); }
        reveal_strlit("iso"); assert(e != "iso"@) by { assert("iso"@[0] == 'i'); }
        reveal_strlit("dmg"); assert(e != "dmg"@) by { assert("dmg"@[0] == 'd'); }
        reveal_strlit("pkg"); assert(e != "pkg"@) by { assert("pkg"@[0] == 'p'); }
        reveal_strlit("tgz"); assert(e != "tgz"@) by { assert("tgz"@[0] == 't'); }
        reveal_strlit("exe"); assert(e != "exe"@) by { assert("exe"@[0] == 'e'); }
        reveal_strlit("msi"); assert(e != "msi"@) by { assert("msi"@[0] == 'm'); }
        reveal_strlit("apk"); assert(e != "apk"@) by { assert("apk"@[0] == 'a'); }
        reveal_strlit("deb"); assert(e != "deb"@) by { assert("deb"@[0] == 'd'); }
        reveal_strlit("rpm"); assert(e != "rpm"@) by { assert("rpm"@[0] == 'r'); }
        reveal_strlit("appimage"); assert(e != "appimage"@) by { assert("appimage"@.len() == 8); }
        reveal_strlit("bat"); assert(e != "bat"@) by { assert("bat"@[0] == 'b'); }
        reveal_strlit("cmd"); assert(e != "cmd"@) by { assert("cmd"@[0] == 'c'); }
        reveal_strlit("ps1"); assert(e != "ps1"@) by { assert("ps1"@[0] == 'p'); }
        reveal_strlit("mp4"); assert(e != "mp4"@) by { assert("mp4"@[0] == 'm'); }
        reveal_strlit("mkv"); assert(e != "mkv"@) by { assert("mkv"@[0] == 'm'); }
        reveal_strlit("mov"); assert(e != "mov"@) by { assert("mov"@[0] == 'm'); }
        reveal_strlit("avi"); assert(e != "avi"@) by { assert("avi"@[0] == 'a'); }
        reveal_strlit("wmv"); assert(e != "wmv"@) by { assert("wmv"@[2] == 'v'); }
        reveal_strlit("flv"); assert(e != "flv"@) by { assert("flv"@[0] == 'f'); }
        reveal_strlit("webm"); assert(e != "webm"@) by { assert("webm"@.len() == 4); }
        reveal_strlit("m4v"); assert(e != "m4v"@) by { assert("m4v"@[0] == 'm'); }
        reveal_strlit("m2ts"); assert(e != "m2ts"@) by { assert("m2ts"@.len() == 4); }
    }
    if e == "opus"@ {
        reveal_strlit("opus");
        assert(e.len() == 4 && e[0] == 'o' && e[1] == 'p' && e[2] == 'u' && e[3] == 's');
        reveal_strlit("zip"); assert(e != "zip"@) by { assert("zip"@.len() == 3); }
        reveal_strlit("rar"); assert(e != "rar"@) by { assert("rar"@.len() == 3); }
        reveal_strlit("7z"); assert(e != "7z"@) by { assert("7z"@.len() == 2); }
        reveal_strlit("tar"); assert(e != "tar"@) by { assert("tar"@.len() == 3); }
        reveal_strlit("gz"); assert(e != "gz"@) by { assert("gz"@.len() == 2); }
        reveal_strlit("bz2"); assert(e != "bz2"@) by { assert("bz2"@.len() == 3); }
        reveal_strlit("xz"); assert(e != "xz"@) by { assert("xz"@.len() == 2); }
        reveal_strlit("iso"); assert(e != "iso"@) by { assert("iso"@.len() == 3); }
        reveal_strlit("dmg"); assert(e != "dmg"@) by { assert("dmg"@.len() == 3); }
        reveal_strlit("pkg"); assert(e != "pkg"@) by { assert("pkg"@.len() == 3); }
        reveal_strlit("tgz"); assert(e != "tgz"@) by { assert("tgz"@.len() == 3); }
        reveal_strlit("exe"); assert(e != "exe"@) by { assert("exe"@.len() == 3); }
        reveal_strlit("msi"); assert(e != "msi"@) by { assert("msi"@.len() == 3); }
        reveal_strlit("apk"); assert(e != "apk"@) by { assert("apk"@.len() == 3); }
        reveal_strlit("deb"); assert(e != "deb"@) by { assert("deb"@.len() == 3); }
        reveal_strlit("rpm"); assert(e != "rpm"@) by { assert("rpm"@.len() == 3); }
        reveal_strlit("appimage"); assert(e != "appimage"@) by { assert("appimage"@.len() == 8); }
        reveal_strlit("bat"); assert(e != "bat"@) by { assert("bat"@.len() == 3); }
        reveal_strlit("cmd"); assert(e != "cmd"@) by { assert("cmd"@.len() == 3); }
        reveal_strlit("ps1"); assert(e != "ps1"@) by { assert("ps1"@.len() == 3); }
        reveal_strlit("mp4"); assert(e != "mp4"@) by { assert("mp4"@.len() == 3); }
        reveal_strlit("mkv"); assert(e != "mkv"@) by { assert("mkv"@.len() == 3); }
        reveal_strlit("mov"); assert(e != "mov"@) by { assert("mov"@.len() == 3); }
        reveal_strlit("avi"); assert(e != "avi"@) by { assert("avi"@.len() == 3); }
        reveal_strlit("wmv"); assert(e != "wmv"@) by { assert("wmv"@.len() == 3); }
        reveal_strlit("flv"); assert(e != "flv"@) by { assert("flv"@.len() == 3); }
        reveal_strlit("webm"); assert(e != "webm"@) by { assert("webm"@[0] == 'w'); }
        reveal_strlit("m4v"); assert(e != "m4v"@) by { assert("m4v"@.len() == 3); }
        reveal_strlit("m2ts"); assert(e != "m2ts"@) by { assert("m2ts"@[0] == 'm'); }
    }
}

proof fn lemma_document_folder(e: Seq<char>)
    ensures
        e == "pdf"@ || e == "doc"@ || e == "docx"@ || e == "xls"@ || e == "xlsx"@ || e == "ppt"@ || e == "pptx"@ || e == "txt"@ || e == "epub"@ || e == "md"@ || e.len() == 0 ==> type_folder(e) == "Documents"@,
{
    if e == "pdf"@ {
        reveal_strlit("pdf");
        assert(e.len() == 3 && e[0] == 'p' && e[1] == 'd' && e[2] == 'f');
        reveal_strlit("zip"); assert(e != "zip"@) by { assert("zip"@[0] == 'z'); }
        reveal_strlit("rar"); assert(e != "rar"@) by { assert("rar"@[0] == 'r'); }
        reveal_strlit("7z"); assert(e != "7z"@) by { assert("7z"@.len() == 2); }
        reveal_strlit("tar"); assert(e != "tar"@) by { assert("tar"@[0] == 't'); }
        reveal_strlit("gz"); assert(e != "gz"@) by { assert("gz"@.len() == 2); }
        reveal_strlit("bz2"); assert(e != "bz2"@) by { assert("bz2"@[0] == 'b'); }
        reveal_strlit("xz"); assert(e != "xz"@) by { assert("xz"@.len() == 2); }
        reveal_strlit("iso"); assert(e != "iso"@) by { assert("iso"@[0] == 'i'); }
        reveal_strlit("dmg"); assert(e != "dmg"@) by { assert("dmg"@[0] == 'd'); }
        reveal_strlit("pkg"); assert(e != "pkg"@) by { assert("pkg"@[1] == 'k'); }
        reveal_strlit("tgz"); assert(e != "tgz"@) by { assert("tgz"@[0] == 't'); }
        reveal_strlit("exe"); assert(e != "exe"@) by { assert("exe"@[0] == 'e'); }
        reveal_strlit("msi"); assert(e != "msi"@) by { assert("msi"@[0] == 'm'); }
        reveal_strlit("apk"); assert(e != "apk"@) by { assert("apk"@[0] == 'a'); }
        reveal_strlit("deb"); assert(e != "deb"@) by { assert("deb"@[0] == 'd'); }
        reveal_strlit("rpm"); assert(e != "rpm"@) by { assert("rpm"@[0] == 'r'); }
        reveal_strlit("appimage"); assert(e != "appimage"@) by { assert("appimage"@.len() == 8); }
        reveal_strlit("bat"); assert(e != "bat"@) by { assert("bat"@[0] == 'b'); }
        reveal_strlit("cmd"); assert(e != "cmd"@) by { assert("cmd"@[0] == 'c'); }
        reveal_strlit("ps1"); assert(e != "ps1"@) by { assert("ps1"@[1] == 's'); }
        reveal_strlit("mp4"); assert(e != "mp4"@) by { assert("mp4"@[0] == 'm'); }
        reveal_strlit("mkv"); assert(e != "mkv"@) by { assert("mkv"@[0] == 'm'); }
        reveal_strlit("mov"); assert(e != "mov"@) by { assert("mov"@[0] == 'm'); }
        reveal_strlit("avi"); assert(e != "avi"@) by { assert("avi"@[0] == 'a'); }
        reveal_strlit("wmv"); assert(e != "wmv"@) by { assert("wmv"@[0] == 'w'); }
        reveal_strlit("flv"); assert(e != "flv"@) by { assert("flv"@[0] == 'f'); }
        reveal_strlit("webm"); assert(e != "webm"@) by { assert("webm"@.len() == 4); }
        reveal_strlit("m4v"); assert(e != "m4v"@) by { assert("m4v"@[0] == 'm'); }
        reveal_strlit("m2ts"); assert(e != "m2ts"@) by { assert("m2ts"@.len() == 4); }
        reveal_strlit("mp3"); assert(e != "mp3"@) by { assert("mp3"@[0] == 'm'); }
        reveal_strlit("wav"); assert(e != "wav"@) by { assert("wav"@[0] == 'w'); }
        reveal_strlit("flac"); assert(e != "flac"@) by { assert("flac"@.len() == 4); }
        reveal_strlit("aac"); assert(e != "aac"@) by { assert("aac"@[0] == 'a'); }
        reveal_strlit("ogg"); assert(e != "ogg"@) by { assert("ogg"@[0] == 'o'); }
        reveal_strlit("m4a"); assert(e != "m4a"@) by { assert("m4a"@[0] == 'm'); }
        reveal_strlit("wma"); assert(e != "wma"@) by { assert("wma"@[0] == 'w'); }
        reveal_strlit("opus"); assert(e != "opus"@) by { assert("opus"@.len() == 4); }
    }
    if e == "doc"@ {
        reveal_strlit("doc");
        assert(e.len() == 3 && e[0] == 'd' && e[1] == 'o' && e[2] == 'c');
        reveal_strlit("zip"); assert(e != "zip"@) by { assert("zip"@[0] == 'z'); }
        reveal_strlit("rar"); assert(e != "rar"@) by { assert("rar"@[0] == 'r'); }
        reveal_strlit("7z"); assert(e != "7z"@) by { assert("7z"@.len() == 2); }
        reveal_strlit("tar"); assert(e != "tar"@) by { assert("tar"@[0] == 't'); }
        reveal_strlit("gz"); assert(e != "gz"@) by { assert("gz"@.len() == 2); }
        reveal_strlit("bz2"); assert(e != "bz2"@) by { assert("bz2"@[0] == 'b'); }
        reveal_strlit("xz"); assert(e != "xz"@) by { assert("xz"@.len() == 2); }
        reveal_strlit("iso"); assert(e != "iso"@) by { assert("iso"@[0] == 'i'); }
        reveal_strlit("dmg"); assert(e != "dmg"@) by { assert("dmg"@[1] == 'm'); }
        reveal_strlit("pkg"); assert(e != "pkg"@) by { assert("pkg"@[0] == 'p'); }
        reveal_strlit("tgz"); assert(e != "tgz"@) by { assert("tgz"@[0] == 't'); }
        reveal_strlit("exe"); assert(e != "exe"@) by { assert("exe"@[0] == 'e'); }
        reveal_strlit("msi"); assert(e != "msi"@) by { assert("msi"@[0] == 'm'); }
        reveal_strlit("apk"); assert(e != "apk"@) by { assert("apk"@[0] == 'a'); }
        reveal_strlit("deb"); assert(e != "deb"@) by { assert("deb"@[1] == 'e'); }
        reveal_strlit("rpm"); assert(e != "rpm"@) by { assert("rpm"@[0] == 'r'); }
        reveal_strlit("appimage"); assert(e != "appimage"@) by { assert("appimage"@.len() == 8); }
        reveal_strlit("bat"); assert(e != "bat"@) by { assert("bat"@[0] == 'b'); }
        reveal_strlit("cmd"); assert(e != "cmd"@) by { assert("cmd"@[0] == 'c'); }
        reveal_strlit("ps1"); assert(e != "ps1"@) by { assert("ps1"@[0] == 'p'); }
        reveal_strlit("mp4"); assert(e != "mp4"@) by { assert("mp4"@[0] == 'm'); }
        reveal_strlit("mkv"); assert(e != "mkv"@) by { assert("mkv"@[0] == 'm'); }
        reveal_strlit("mov"); assert(e != "mov"@) by { assert("mov"@[0] == 'm'); }
        reveal_strlit("avi"); assert(e != "avi"@) by { assert("avi"@[0] == 'a'); }
        reveal_strlit("wmv"); assert(e != "wmv"@) by { assert("wmv"@[0] == 'w'); }
        reveal_strlit("flv"); assert(e != "flv"@) by { assert("flv"@[0] == 'f'); }
        reveal_strlit("webm"); assert(e != "webm"@) by { assert("webm"@.len() == 4); }
        reveal_strlit("m4v"); assert(e != "m4v"@) by { assert("m4v"@[0] == 'm'); }
        reveal_strlit("m2ts"); assert(e != "m2ts"@) by { assert("m2ts"@.len() == 4); }
        reveal_strlit("mp3"); assert(e != "mp3"@) by { assert("mp3"@[0] == 'm'); }
        reveal_strlit("wav"); assert(e != "wav"@) by { assert("wav"@[0] == 'w'); }
        reveal_strlit("flac"); assert(e != "flac"@) by { assert("flac"@.len() == 4); }
        reveal_strlit("aac"); assert(e != "aac"@) by { assert("aac"@[0] == 'a'); }
        reveal_strlit("ogg"); assert(e != "ogg"@) by { assert("ogg"@[0] == 'o'); }
        reveal_strlit("m4a"); assert(e != "m4a"@) by { assert("m4a"@[0] == 'm'); }
        reveal_strlit("wma"); assert(e != "wma"@) by { assert("wma"@[0] == 'w'); }
        reveal_strlit("opus"); assert(e != "opus"@) by { assert("opus"@.len() == 4); }
    }
    if e == "docx"@ {
        reveal_strlit("docx");
        assert(e.len() == 4 && e[0] == 'd' && e[1] == 'o' && e[2] == 'c' && e[3] == 'x');
        reveal_strlit("zip"); assert(e != "zip"@) by { assert("zip"@.len() == 3); }
        reveal_strlit("rar"); assert(e != "rar"@) by { assert("rar"@.len() == 3); }
        reveal_strlit("7z"); assert(e != "7z"@) by { assert("7z"@.len() == 2); }
        reveal_strlit("tar"); assert(e != "tar"@) by { assert("tar"@.len() == 3); }
        reveal_strlit("gz"); assert(e != "gz"@) by { assert("gz"@.len() == 2); }
        reveal_strlit("bz2"); assert(e != "bz2"@) by { assert("bz2"@.len() == 3); }
        reveal_strlit("xz"); assert(e != "xz"@) by { assert("xz"@.len() == 2); }
        reveal_strlit("iso"); assert(e != "iso"@) by { assert("iso"@.len() == 3); }
        reveal_strlit("dmg"); assert(e != "dmg"@) by { assert("dmg"@.len() == 3); }
        reveal_strlit("pkg"); assert(e != "pkg"@) by { assert("pkg"@.len() == 3); }
        reveal_strlit("tgz"); assert(e != "tgz"@) by { assert("tgz"@.len() == 3); }
        reveal_strlit("exe"); assert(e != "exe"@) by { assert("exe"@.len() == 3); }
        reveal_strlit("msi"); assert(e != "msi"@) by { assert("msi"@.len() == 3); }
        reveal_strlit("apk"); assert(e != "apk"@) by { assert("apk"@.len() == 3); }
        reveal_strlit("deb"); assert(e != "deb"@) by { assert("deb"@.len() == 3); }
        reveal_strlit("rpm"); assert(e != "rpm"@) by { assert("rpm"@.len() == 3); }
        reveal_strlit("appimage"); assert(e != "appimage"@) by { assert("appimage"@.len() == 8); }
        reveal_strlit("bat"); assert(e != "bat"@) by { assert("bat"@.len() == 3); }
        reveal_strlit("cmd"); assert(e != "cmd"@) by { assert("cmd"@.len() == 3); }
        reveal_strlit("ps1"); assert(e != "ps1"@) by { assert("ps1"@.len() == 3); }
        reveal_strlit("mp4"); assert(e != "mp4"@) by { assert("mp4"@.len() == 3); }
        reveal_strlit("mkv"); assert(e != "mkv"@) by { assert("mkv"@.len() == 3); }
        reveal_strlit("mov"); assert(e != "mov"@) by { assert("mov"@.len() == 3); }
        reveal_strlit("avi"); assert(e != "avi"@) by { assert("avi"@.len() == 3); }
        reveal_strlit("wmv"); assert(e != "wmv"@) by { assert("wmv"@.len() == 3); }
        reveal_strlit("flv"); assert(e != "flv"@) by { assert("flv"@.len() == 3); }
        reveal_strlit("webm"); assert(e != "webm"@) by { assert("webm"@[0] == 'w'); }
        reveal_strlit("m4v"); assert(e != "m4v"@) by { assert("m4v"@.len() == 3); }
        reveal_strlit("m2ts"); assert(e != "m2ts"@) by { assert("m2ts"@[0] == 'm'); }
        reveal_strlit("mp3"); assert(e != "mp3"@) by { assert("mp3"@.len() == 3); }
        reveal_strlit("wav"); assert(e != "wav"@) by { assert("wav"@.len() == 3); }
        reveal_strlit("flac"); assert(e != "flac"@) by { assert("flac"@[0] == 'f'); }
        reveal_strlit("aac"); assert(e != "aac"@) by { assert("aac"@.len() == 3); }
        reveal_strlit("ogg"); assert(e != "ogg"@) by { assert("ogg"@.len() == 3); }
        reveal_strlit("m4a"); assert(e != "m4a"@) by { assert("m4a"@.len() == 3); }
        reveal_strlit("wma"); assert(e != "wma"@) by { assert("wma"@.len() == 3); }
        reveal_strlit("opus"); assert(e != "opus"@) by { assert("opus"@[0] == 'o'); }
    }
    if e == "xls"@ {
        reveal_strlit("xls");
        assert(e.len() == 3 && e[0] == 'x' && e[1] == 'l' && e[2] == 's');
        reveal_strlit("zip"); assert(e != "zip"@) by { assert("zip"@[0] == 'z'); }
        reveal_strlit("rar"); assert(e != "rar"@) by { assert("rar"@[0] == 'r'); }
        reveal_strlit("7z"); assert(e != "7z"@) by { assert("7z"@.len() == 2); }
        reveal_strlit("tar"); assert(e != "tar"@) by { assert("tar"@[0] == 't'); }
        reveal_strlit("gz"); assert(e != "gz"@) by { assert("gz"@.len() == 2); }
        reveal_strlit("bz2"); assert(e != "bz2"@) by { assert("bz2"@[0] == 'b'); }
        reveal_strlit("xz"); assert(e != "xz"@) by { assert("xz"@.len() == 2); }
        reveal_strlit("iso"); assert(e != "iso"@) by { assert("iso"@[0] == 'i'); }
        reveal_strlit("dmg"); assert(e != "dmg"@) by { assert("dmg"@[0] == 'd'); }
        reveal_strlit("pkg"); assert(e != "pkg"@) by { assert("pkg"@[0] == 'p'); }
        reveal_strlit("tgz"); assert(e != "tgz"@) by { assert("tgz"@[0] == 't'); }
        reveal_strlit("exe"); assert(e != "exe"@) by { assert("exe"@[0] == 'e'); }
        reveal_strlit("msi"); assert(e != "msi"@) by { assert("msi"@[0] == 'm'); }
        reveal_strlit("apk"); assert(e != "apk"@) by { assert("apk"@[0] == 'a'); }
        reveal_strlit("deb"); assert(e != "deb"@) by { assert("deb"@[0] == 'd'); }
        reveal_strlit("rpm"); assert(e != "rpm"@) by { assert("rpm"@[0] == 'r'); }
        reveal_strlit("appimage"); assert(e != "appimage"@) by { assert("appimage"@.len() == 8); }
        reveal_strlit("bat"); assert(e != "bat"@) by { assert("bat"@[0] == 'b'); }
        reveal_strlit("cmd"); assert(e != "cmd"@) by { assert("cmd"@[0] == 'c'); }
        reveal_strlit("ps1"); assert(e != "ps1"@) by { assert("ps1"@[0] == 'p'); }
        reveal_strlit("mp4"); assert(e != "mp4"@) by { assert("mp4"@[0] == 'm'); }
        reveal_strlit("mkv"); assert(e != "mkv"@) by { assert("mkv"@[0] == 'm'); }
        reveal_strlit("mov"); assert(e != "mov"@) by { assert("mov"@[0] == 'm'); }
        reveal_strlit("avi"); assert(e != "avi"@) by { assert("avi"@[0] == 'a'); }
        reveal_strlit("wmv"); assert(e != "wmv"@) by { assert("wmv"@[0] == 'w'); }
        reveal_strlit("flv"); assert(e != "flv"@) by { assert("flv"@[0] == 'f'); }
        reveal_strlit("webm"); assert(e != "webm"@) by { assert("webm"@.len() == 4); }
        reveal_strlit("m4v"); assert(e != "m4v"@) by { assert("m4v"@[0] == 'm'); }
        reveal_strlit("m2ts"); assert(e != "m2ts"@) by { assert("m2ts"@.len() == 4); }
        reveal_strlit("mp3"); assert(e != "mp3"@) by { assert("mp3"@[0] == 'm'); }
        reveal_strlit("wav"); assert(e != "wav"@) by { assert("wav"@[0] == 'w'); }
        reveal_strlit("flac"); assert(e != "flac"@) by { assert("flac"@.len() == 4); }
        reveal_strlit("aac"); assert(e != "aac"@) by { assert("aac"@[0] == 'a'); }
        reveal_strlit("ogg"); assert(e != "ogg"@) by { assert("ogg"@[0] == 'o'); }
        reveal_strlit("m4a"); assert(e != "m4a"@) by { assert("m4a"@[0] == 'm'); }
        reveal_strlit("wma"); assert(e != "wma"@) by { assert("wma"@[0] == 'w'); }
        reveal_strlit("opus"); assert(e != "opus"@) by { assert("opus"@.len() == 4); }
    }
    if e == "xlsx"@ {
        reveal_strlit("xlsx");
        assert(e.len() == 4 && e[0] == 'x' && e[1] == 'l' && e[2] == 's' && e[3] == 'x');
        reveal_strlit("zip"); assert(e != "zip"@) by { assert("zip"@.len() == 3); }
        reveal_strlit("rar"); assert(e != "rar"@) by { assert("rar"@.len() == 3); }
        reveal_strlit("7z"); assert(e != "7z"@) by { assert("7z"@.len() == 2); }
        reveal_strlit("tar"); assert(e != "tar"@) by { assert("tar"@.len() == 3); }
        reveal_strlit("gz"); assert(e != "gz"@) by { assert("gz"@.len() == 2); }
        reveal_strlit("bz2"); assert(e != "bz2"@) by { assert("bz2"@.len() == 3); }
        reveal_strlit("xz"); assert(e != "xz"@) by { assert("xz"@.len() == 2); }
        reveal_strlit("iso"); assert(e != "iso"@) by { assert("iso"@.len() == 3); }
        reveal_strlit("dmg"); assert(e != "dmg"@) by { assert("dmg"@.len() == 3); }
        reveal_strlit("pkg"); assert(e != "pkg"@) by { assert("pkg"@.len() == 3); }
        reveal_strlit("tgz"); assert(e != "tgz"@) by { assert("tgz"@.len() == 3); }
        reveal_strlit("exe"); assert(e != "exe"@) by { assert("exe"@.len() == 3); }
        reveal_strlit("msi"); assert(e != "msi"@) by { assert("msi"@.len() == 3); }
        reveal_strlit("apk"); assert(e != "apk"@) by { assert("apk"@.len() == 3); }
        reveal_strlit("deb"); assert(e != "deb"@) by { assert("deb"@.len() == 3); }
        reveal_strlit("rpm"); assert(e != "rpm"@) by { assert("rpm"@.len() == 3); }
        reveal_strlit("appimage"); assert(e != "appimage"@) by { assert("appimage"@.len() == 8); }
        reveal_strlit("bat"); assert(e != "bat"@) by { assert("bat"@.len() == 3); }
        reveal_strlit("cmd"); assert(e != "cmd"@) by { assert("cmd"@.len() == 3); }
        reveal_strlit("ps1"); assert(e != "ps1"@) by { assert("ps1"@.len() == 3); }
        reveal_strlit("mp4"); assert(e != "mp4"@) by { assert("mp4"@.len() == 3); }
        reveal_strlit("mkv"); assert(e != "mkv"@) by { assert("mkv"@.len() == 3); }
        reveal_strlit("mov"); assert(e != "mov"@) by { assert("mov"@.len() == 3); }
        reveal_strlit("avi"); assert(e != "avi"@) by { assert("avi"@.len() == 3); }
        reveal_strlit("wmv"); assert(e != "wmv"@) by { assert("wmv"@.len() == 3); }
        reveal_strlit("flv"); assert(e != "flv"@) by { assert("flv"@.len() == 3); }
        reveal_strlit("webm"); assert(e != "webm"@) by { assert("webm"@[0] == 'w'); }
        reveal_strlit("m4v"); assert(e != "m4v"@) by { assert("m4v"@.len() == 3); }
        reveal_strlit("m2ts"); assert(e != "m2ts"@) by { assert("m2ts"@[0] == 'm'); }
        reveal_strlit("mp3"); assert(e != "mp3"@) by { assert("mp3"@.len() == 3); }
        reveal_strlit("wav"); assert(e != "wav"@) by { assert("wav"@.len() == 3); }
        reveal_strlit("flac"); assert(e != "flac"@) by { assert("flac"@[0] == 'f'); }
        reveal_strlit("aac"); assert(e != "aac"@) by { assert("aac"@.len() == 3); }
        reveal_strlit("ogg"); assert(e != "ogg"@) by { assert("ogg"@.len() == 3); }
        reveal_strlit("m4a"); assert(e != "m4a"@) by { assert("m4a"@.len() == 3); }
        reveal_strlit("wma"); assert(e != "wma"@) by { assert("wma"@.len() == 3); }
        reveal_strlit("opus"); assert(e != "opus"@) by { assert("opus"@[0] == 'o'); }
    }
    if e == "ppt"@ {
        reveal_strlit("ppt");
        assert(e.len() == 3 && e[0] == 'p' && e[1] == 'p' && e[2] == 't');
        reveal_strlit("zip"); assert(e != "zip"@) by { assert("zip"@[0] == 'z'); }
        reveal_strlit("rar"); assert(e != "rar"@) by { assert("rar"@[0] == 'r'); }
        reveal_strlit("7z"); assert(e != "7z"@) by { assert("7z"@.len() == 2); }
        reveal_strlit("tar"); assert(e != "tar"@) by { assert("tar"@[0] == 't'); }
        reveal_strlit("gz"); assert(e != "gz"@) by { assert("gz"@.len() == 2); }
        reveal_strlit("bz2"); assert(e != "bz2"@) by { assert("bz2"@[0] == 'b'); }
        reveal_strlit("xz"); assert(e != "xz"@) by { assert("xz"@.len() == 2); }
        reveal_strlit("iso"); assert(e != "iso"@) by { assert("iso"@[0] == 'i'); }
        reveal_strlit("dmg"); assert(e != "dmg"@) by { assert("dmg"@[0] == 'd'); }
        reveal_strlit("pkg"); assert(e != "pkg"@) by { assert("pkg"@[1] == 'k'); }
        reveal_strlit("tgz"); assert(e != "tgz"@) by { assert("tgz"@[0] == 't'); }
        reveal_strlit("exe"); assert(e != "exe"@) by { assert("exe"@[0] == 'e'); }
        reveal_strlit("msi"); assert(e != "msi"@) by { assert("msi"@[0] == 'm'); }
        reveal_strlit("apk"); assert(e != "apk"@) by { assert("apk"@[0] == 'a'); }
        reveal_strlit("deb"); assert(e != "deb"@) by { assert("deb"@[0] == 'd'); }
        reveal_strlit("rpm"); assert(e != "rpm"@) by { assert("rpm"@[0] == 'r'); }
        reveal_strlit("appimage"); assert(e != "appimage"@) by { assert("appimage"@.len() == 8); }
        reveal_strlit("bat"); assert(e != "bat"@) by { assert("bat"@[0] == 'b'); }
        reveal_strlit("cmd"); assert(e != "cmd"@) by { assert("cmd"@[0] == 'c'); }
        reveal_strlit("ps1"); assert(e != "ps1"@) by { assert("ps1"@[1] == 's'); }
        reveal_strlit("mp4"); assert(e != "mp4"@) by { assert("mp4"@[0] == 'm'); }
        reveal_strlit("mkv"); assert(e != "mkv"@) by { assert("mkv"@[0] == 'm'); }
        reveal_strlit("mov"); assert(e != "mov"@) by { assert("mov"@[0] == 'm'); }
        reveal_strlit("avi"); assert(e != "avi"@) by { assert("avi"@[0] == 'a'); }
        reveal_strlit("wmv"); assert(e != "wmv"@) by { assert("wmv"@[0] == 'w'); }
        reveal_strlit("flv"); assert(e != "flv"@) by { assert("flv"@[0] == 'f'); }
        reveal_strlit("webm"); assert(e != "webm"@) by { assert("webm"@.len() == 4); }
        reveal_strlit("m4v"); assert(e != "m4v"@) by { assert("m4v"@[0] == 'm'); }
        reveal_strlit("m2ts"); assert(e != "m2ts"@) by { assert("m2ts"@.len() == 4); }
        reveal_strlit("mp3"); assert(e != "mp3"@) by { assert("mp3"@[0] == 'm'); }
        reveal_strlit("wav"); assert(e != "wav"@) by { assert("wav"@[0] == 'w'); }
        reveal_strlit("flac"); assert(e != "flac"@) by { assert("flac"@.len() == 4); }
        reveal_strlit("aac"); assert(e != "aac"@) by { assert("aac"@[0] == 'a'); }
        reveal_strlit("ogg"); assert(e != "ogg"@) by { assert("ogg"@[0] == 'o'); }
        reveal_strlit("m4a"); assert(e != "m4a"@) by { assert("m4a"@[0] == 'm'); }
        reveal_strlit("wma"); assert(e != "wma"@) by { assert("wma"@[0] == 'w'); }
        reveal_strlit("opus"); assert(e != "opus"@) by { assert("opus"@.len() == 4); }
    }
    if e == "pptx"@ {
        reveal_strlit("pptx");
        assert(e.len() == 4 && e[0] == 'p' && e[1] == 'p' && e[2] == 't' && e[3] == 'x');
        reveal_strlit("zip"); assert(e != "zip"@) by { assert("zip"@.len() == 3); }
        reveal_strlit("rar"); assert(e != "rar"@) by { assert("rar"@.len() == 3); }
        reveal_strlit("7z"); assert(e != "7z"@) by { assert("7z"@.len() == 2); }
        reveal_strlit("tar"); assert(e != "tar"@) by { assert("tar"@.len() == 3); }
        reveal_strlit("gz"); assert(e != "gz"@) by { assert("gz"@.len() == 2); }
        reveal_strlit("bz2"); assert(e != "bz2"@) by { assert("bz2"@.len() == 3); }
        reveal_strlit("xz"); assert(e != "xz"@) by { assert("xz"@.len() == 2); }
        reveal_strlit("iso"); assert(e != "iso"@) by { assert("iso"@.len() == 3); }
        reveal_strlit("dmg"); assert(e != "dmg"@) by { assert("dmg"@.len() == 3); }
        reveal_strlit("pkg"); assert(e != "pkg"@) by { assert("pkg"@.len() == 3); }
        reveal_strlit("tgz"); assert(e != "tgz"@) by { assert("tgz"@.len() == 3); }
        reveal_strlit("exe"); assert(e != "exe"@) by { assert("exe"@.len() == 3); }
        reveal_strlit("msi"); assert(e != "msi"@) by { assert("msi"@.len() == 3); }
        reveal_strlit("apk"); assert(e != "apk"@) by { assert("apk"@.len() == 3); }
        reveal_strlit("deb"); assert(e != "deb"@) by { assert("deb"@.len() == 3); }
        reveal_strlit("rpm"); assert(e != "rpm"@) by { assert("rpm"@.len() == 3); }
        reveal_strlit("appimage"); assert(e != "appimage"@) by { assert("appimage"@.len() == 8); }
        reveal_strlit("bat"); assert(e != "bat"@) by { assert("bat"@.len() == 3); }
        reveal_strlit("cmd"); assert(e != "cmd"@) by { assert("cmd"@.len() == 3); }
        reveal_strlit("ps1"); assert(e != "ps1"@) by { assert("ps1"@.len() == 3); }
        reveal_strlit("mp4"); assert(e != "mp4"@) by { assert("mp4"@.len() == 3); }
        reveal_strlit("mkv"); assert(e != "mkv"@) by { assert("mkv"@.len() == 3); }
        reveal_strlit("mov"); assert(e != "mov"@) by { assert("mov"@.len() == 3); }
        reveal_strlit("avi"); assert(e != "avi"@) by { assert("avi"@.len() == 3); }
        reveal_strlit("wmv"); assert(e != "wmv"@) by { assert("wmv"@.len() == 3); }
        reveal_strlit("flv"); assert(e != "flv"@) by { assert("flv"@.len() == 3); }
        reveal_strlit("webm"); assert(e != "webm"@) by { assert("webm"@[0] == 'w'); }
        reveal_strlit("m4v"); assert(e != "m4v"@) by { assert("m4v"@.len() == 3); }
        reveal_strlit("m2ts"); assert(e != "m2ts"@) by { assert("m2ts"@[0] == 'm'); }
        reveal_strlit("mp3"); assert(e != "mp3"@) by { assert("mp3"@.len() == 3); }
        reveal_strlit("wav"); assert(e != "wav"@) by { assert("wav"@.len() == 3); }
        reveal_strlit("flac"); assert(e != "flac"@) by { assert("flac"@[0] == 'f'); }
        reveal_strlit("aac"); assert(e != "aac"@) by { assert("aac"@.len() == 3); }
        reveal_strlit("ogg"); assert(e != "ogg"@) by { assert("ogg"@.len() == 3); }
        reveal_strlit("m4a"); assert(e != "m4a"@) by { assert("m4a"@.len() == 3); }
        reveal_strlit("wma"); assert(e != "wma"@) by { assert("wma"@.len() == 3); }
        reveal_strlit("opus"); assert(e != "opus"@) by { assert("opus"@[0] == 'o'); }
    }
    if e == "txt"@ {
        reveal_strlit("txt");
        assert(e.len() == 3 && e[0] == 't' && e[1] == 'x' && e[2] == 't');
        reveal_strlit("zip"); assert(e != "zip"@) by { assert("zip"@[0] == 'z'); }
        reveal_strlit("rar"); assert(e != "rar"@) by { assert("rar"@[0] == 'r'); }
        reveal_strlit("7z"); assert(e != "7z"@) by { assert("7z"@.len() == 2); }
        reveal_strlit("tar"); assert(e != "tar"@) by { assert("tar"@[1] == 'a'); }
        reveal_strlit("gz"); assert(e != "gz"@) by { assert("gz"@.len() == 2); }
        reveal_strlit("bz2"); assert(e != "bz2"@) by { assert("bz2"@[0] == 'b'); }
        reveal_strlit("xz"); assert(e != "xz"@) by { assert("xz"@.len() == 2); }
        reveal_strlit("iso"); assert(e != "iso"@) by { assert("iso"@[0] == 'i'); }
        reveal_strlit("dmg"); assert(e != "dmg"@) by { assert("dmg"@[0] == 'd'); }
        reveal_strlit("pkg"); assert(e != "pkg"@) by { assert("pkg"@[0] == 'p'); }
        reveal_strlit("tgz"); assert(e != "tgz"@) by { assert("tgz"@[1] == 'g'); }
        reveal_strlit("exe"); assert(e != "exe"@) by { assert("exe"@[0] == 'e'); }
        reveal_strlit("msi"); assert(e != "msi"@) by { assert("msi"@[0] == 'm'); }
        reveal_strlit("apk"); assert(e != "apk"@) by { assert("apk"@[0] == 'a'); }
        reveal_strlit("deb"); assert(e != "deb"@) by { assert("deb"@[0] == 'd'); }
        reveal_strlit("rpm"); assert(e != "rpm"@) by { assert("rpm"@[0] == 'r'); }
        reveal_strlit("appimage"); assert(e != "appimage"@) by { assert("appimage"@.len() == 8); }
        reveal_strlit("bat"); assert(e != "bat"@) by { assert("bat"@[0] == 'b'); }
        reveal_strlit("cmd"); assert(e != "cmd"@) by { assert("cmd"@[0] == 'c'); }
        reveal_strlit("ps1"); assert(e != "ps1"@) by { assert("ps1"@[0] == 'p'); }
        reveal_strlit("mp4"); assert(e != "mp4"@) by { assert("mp4"@[0] == 'm'); }
        reveal_strlit("mkv"); assert(e != "mkv"@) by { assert("mkv"@[0] == 'm'); }
        reveal_strlit("mov"); assert(e != "mov"@) by { assert("mov"@[0] == 'm'); }
        reveal_strlit("avi"); assert(e != "avi"@) by { assert("avi"@[0] == 'a'); }
        reveal_strlit("wmv"); assert(e != "wmv"@) by { assert("wmv"@[0] == 'w'); }
        reveal_strlit("flv"); assert(e != "flv"@) by { assert("flv"@[0] == 'f'); }
        reveal_strlit("webm"); assert(e != "webm"@) by { assert("webm"@.len() == 4); }
        reveal_strlit("m4v"); assert(e != "m4v"@) by { assert("m4v"@[0] == 'm'); }
        reveal_strlit("m2ts"); assert(e != "m2ts"@) by { assert("m2ts"@.len() == 4); }
        reveal_strlit("mp3"); assert(e != "mp3"@) by { assert("mp3"@[0] == 'm'); }
        reveal_strlit("wav"); assert(e != "wav"@) by { assert("wav"@[0] == 'w'); }
        reveal_strlit("flac"); assert(e != "flac"@) by { assert("flac"@.len() == 4); }
        reveal_strlit("aac"); assert(e != "aac"@) by { assert("aac"@[0] == 'a'); }
        reveal_strlit("ogg"); assert(e != "ogg"@) by { assert("ogg"@[0] == 'o'); }
        reveal_strlit("m4a"); assert(e != "m4a"@) by { assert("m4a"@[0] == 'm'); }
        reveal_strlit("wma"); assert(e != "wma"@) by { assert("wma"@[0] == 'w'); }
        reveal_strlit("opus"); assert(e != "opus"@) by { assert("opus"@.len() == 4); }
    }
    if e == "epub"@ {
        reveal_strlit("epub");
        assert(e.len() == 4 && e[0] == 'e' && e[1] == 'p' && e[2] == 'u' && e[3] == 'b');
        reveal_strlit("zip"); assert(e != "zip"@) by { assert("zip"@.len() == 3); }
        reveal_strlit("rar"); assert(e != "rar"@) by { assert("rar"@.len() == 3); }
        reveal_strlit("7z"); assert(e != "7z"@) by { assert("7z"@.len() == 2); }
        reveal_strlit("tar"); assert(e != "tar"@) by { assert("tar"@.len() == 3); }
        reveal_strlit("gz"); assert(e != "gz"@) by { assert("gz"@.len() == 2); }
        reveal_strlit("bz2"); assert(e != "bz2"@) by { assert("bz2"@.len() == 3); }
        reveal_strlit("xz"); assert(e != "xz"@) by { assert("xz"@.len() == 2); }
        reveal_strlit("iso"); assert(e != "iso"@) by { assert("iso"@.len() == 3); }
        reveal_strlit("dmg"); assert(e != "dmg"@) by { assert("dmg"@.len() == 3); }
        reveal_strlit("pkg"); assert(e != "pkg"@) by { assert("pkg"@.len() == 3); }
        reveal_strlit("tgz"); assert(e != "tgz"@) by { assert("tgz"@.len() == 3); }
        reveal_strlit("exe"); assert(e != "exe"@) by { assert("exe"@.len() == 3); }
        reveal_strlit("msi"); assert(e != "msi"@) by { assert("msi"@.len() == 3); }
        reveal_strlit("apk"); assert(e != "apk"@) by { assert("apk"@.len() == 3); }
        reveal_strlit("deb"); assert(e != "deb"@) by { assert("deb"@.len() == 3); }
        reveal_strlit("rpm"); assert(e != "rpm"@) by { assert("rpm"@.len() == 3); }
        reveal_strlit("appimage"); assert(e != "appimage"@) by { assert("appimage"@.len() == 8); }
        reveal_strlit("bat"); assert(e != "bat"@) by { assert("bat"@.len() == 3); }
        reveal_strlit("cmd"); assert(e != "cmd"@) by { assert("cmd"@.len() == 3); }
        reveal_strlit("ps1"); assert(e != "ps1"@) by { assert("ps1"@.len() == 3); }
        reveal_strlit("mp4"); assert(e != "mp4"@) by { assert("mp4"@.len() == 3); }
        reveal_strlit("mkv"); assert(e != "mkv"@) by { assert("mkv"@.len() == 3); }
        reveal_strlit("mov"); assert(e != "mov"@) by { assert("mov"@.len() == 3); }
        reveal_strlit("avi"); assert(e != "avi"@) by { assert("avi"@.len() == 3); }
        reveal_strlit("wmv"); assert(e != "wmv"@) by { assert("wmv"@.len() == 3); }
        reveal_strlit("flv"); assert(e != "flv"@) by { assert("flv"@.len() == 3); }
        reveal_strlit("webm"); assert(e != "webm"@) by { assert("webm"@[0] == 'w'); }
        reveal_strlit("m4v"); assert(e != "m4v"@) by { assert("m4v"@.len() == 3); }
        reveal_strlit("m2ts"); assert(e != "m2ts"@) by { assert("m2ts"@[0] == 'm'); }
        reveal_strlit("mp3"); assert(e != "mp3"@) by { assert("mp3"@.len() == 3); }
        reveal_strlit("wav"); assert(e != "wav"@) by { assert("wav"@.len() == 3); }
        reveal_strlit("flac"); assert(e != "flac"@) by { assert("flac"@[0] == 'f'); }
        reveal_strlit("aac"); assert(e != "aac"@) by { assert("aac"@.len() == 3); }
        reveal_strlit("ogg"); assert(e != "ogg"@) by { assert("ogg"@.len() == 3); }
        reveal_strlit("m4a"); assert(e != "m4a"@) by { assert("m4a"@.len() == 3); }
        reveal_strlit("wma"); assert(e != "wma"@) by { assert("wma"@.len() == 3); }
        reveal_strlit("opus"); assert(e != "opus"@) by { assert("opus"@[0] == 'o'); }
    }
    if e == "md"@ {
        reveal_strlit("md");
        assert(e.len() == 2 && e[0] == 'm' && e[1] == 'd');
        reveal_strlit("zip"); assert(e != "zip"@) by { assert("zip"@.len() == 3); }
        reveal_strlit("rar"); assert(e != "rar"@) by { assert("rar"@.len() == 3); }
        reveal_strlit("7z"); assert(e != "7z"@) by { assert("7z"@[0] == '7'); }
        reveal_strlit("tar"); assert(e != "tar"@) by { assert("tar"@.len() == 3); }
        reveal_strlit("gz"); assert(e != "gz"@) by { assert("gz"@[0] == 'g'); }
        reveal_strlit("bz2"); assert(e != "bz2"@) by { assert("bz2"@.len() == 3); }
        reveal_strlit("xz"); assert(e != "xz"@) by { assert("xz"@[0] == 'x'); }
        reveal_strlit("iso"); assert(e != "iso"@) by { assert("iso"@.len() == 3); }
        reveal_strlit("dmg"); assert(e != "dmg"@) by { assert("dmg"@.len() == 3); }
        reveal_strlit("pkg"); assert(e != "pkg"@) by { assert("pkg"@.len() == 3); }
        reveal_strlit("tgz"); assert(e != "tgz"@) by { assert("tgz"@.len() == 3); }
        reveal_strlit("exe"); assert(e != "exe"@) by { assert("exe"@.len() == 3); }
        reveal_strlit("msi"); assert(e != "msi"@) by { assert("msi"@.len() == 3); }
        reveal_strlit("apk"); assert(e != "apk"@) by { assert("apk"@.len() == 3); }
        reveal_strlit("deb"); assert(e != "deb"@) by { assert("deb"@.len() == 3); }
        reveal_strlit("rpm"); assert(e != "rpm"@) by { assert("rpm"@.len() == 3); }
        reveal_strlit("appimage"); assert(e != "appimage"@) by { assert("appimage"@.len() == 8); }
        reveal_strlit("bat"); assert(e != "bat"@) by { assert("bat"@.len() == 3); }
        reveal_strlit("cmd"); assert(e != "cmd"@) by { assert("cmd"@.len() == 3); }
        reveal_strlit("ps1"); assert(e != "ps1"@) by { assert("ps1"@.len() == 3); }
        reveal_strlit("mp4"); assert(e != "mp4"@) by { assert("mp4"@.len() == 3); }
        reveal_strlit("mkv"); assert(e != "mkv"@) by { assert("mkv"@.len() == 3); }
        reveal_strlit("mov"); assert(e != "mov"@) by { assert("mov"@.len() == 3); }
        reveal_strlit("avi"); assert(e != "avi"@) by { assert("avi"@.len() == 3); }
        reveal_strlit("wmv"); assert(e != "wmv"@) by { assert("wmv"@.len() == 3); }
        reveal_strlit("flv"); assert(e != "flv"@) by { assert("flv"@.len() == 3); }
        reveal_strlit("webm"); assert(e != "webm"@) by { assert("webm"@.len() == 4); }
        reveal_strlit("m4v"); assert(e != "m4v"@) by { assert("m4v"@.len() == 3); }
        reveal_strlit("m2ts"); assert(e != "m2ts"@) by { assert("m2ts"@.len() == 4); }
        reveal_strlit("mp3"); assert(e != "mp3"@) by { assert("mp3"@.len() == 3); }
        reveal_strlit("wav"); assert(e != "wav"@) by { assert("wav"@.len() == 3); }
        reveal_strlit("flac"); assert(e != "flac"@) by { assert("flac"@.len() == 4); }
        reveal_strlit("aac"); assert(e != "aac"@) by { assert("aac"@.len() == 3); }
        reveal_strlit("ogg"); assert(e != "ogg"@) by { assert("ogg"@.len() == 3); }
        reveal_strlit("m4a"); assert(e != "m4a"@) by { assert("m4a"@.len() == 3); }
        reveal_strlit("wma"); assert(e != "wma"@) by { assert("wma"@.len() == 3); }
        reveal_strlit("opus"); assert(e != "opus"@) by { assert("opus"@.len() == 4); }
    }
    if e.len() == 0 {
    }
}

proof fn lemma_picture_folder(e: Seq<char>)
    ensures
        e == "png"@ || e == "jpg"@ || e == "jpeg"@ || e == "gif"@ || e == "webp"@ || e == "svg"@ || e == "bmp"@ || e == "ico"@ || e == "tiff"@ ==> type_folder(e) == "Pictures"@,
{
    if e == "png"@ {
        reveal_strlit("png");
        assert(e.len() == 3 && e[0] == 'p' && e[1] == 'n' && e[2] == 'g');
        reveal_strlit("zip"); assert(e != "zip"@) by { assert("zip"@[0] == 'z'); }
        reveal_strlit("rar"); assert(e != "rar"@) by { assert("rar"@[0] == 'r'); }
        reveal_strlit("7z"); assert(e != "7z"@) by { assert("7z"@.len() == 2); }
        reveal_strlit("tar"); assert(e != "tar"@) by { assert("tar"@[0] == 't'); }
        reveal_strlit("gz"); assert(e != "gz"@) by { assert("gz"@.len() == 2); }
        reveal_strlit("bz2"); assert(e != "bz2"@) by { assert("bz2"@[0] == 'b'); }
        reveal_strlit("xz"); assert(e != "xz"@) by { assert("xz"@.len() == 2); }
        reveal_strlit("iso"); assert(e != "iso"@) by { assert("iso"@[0] == 'i'); }
        reveal_strlit("dmg"); assert(e != "dmg"@) by { assert("dmg"@[0] == 'd'); }
        reveal_strlit("pkg"); assert(e != "pkg"@) by { assert("pkg"@[1] == 'k'); }
        reveal_strlit("tgz"); assert(e != "tgz"@) by { assert("tgz"@[0] == 't'); }
        reveal_strlit("exe"); assert(e != "exe"@) by { assert("exe"@[0] == 'e'); }
        reveal_strlit("msi"); assert(e != "msi"@) by { assert("msi"@[0] == 'm'); }
        reveal_strlit("apk"); assert(e != "apk"@) by { assert("apk"@[0] == 'a'); }
        reveal_strlit("deb"); assert(e != "deb"@) by { assert("deb"@[0] == 'd'); }
        reveal_strlit("rpm"); assert(e != "rpm"@) by { assert("rpm"@[0] == 'r'); }
        reveal_strlit("appimage"); assert(e != "appimage"@) by { assert("appimage"@.len() == 8); }
        reveal_strlit("bat"); assert(e != "bat"@) by { assert("bat"@[0] == 'b'); }
        reveal_strlit("cmd"); assert(e != "cmd"@) by { assert("cmd"@[0] == 'c'); }
        reveal_strlit("ps1"); assert(e != "ps1"@) by { assert("ps1"@[1] == 's'); }
        reveal_strlit("mp4"); assert(e != "mp4"@) by { assert("mp4"@[0] == 'm'); }
        reveal_strlit("mkv"); assert(e != "mkv"@) by { assert("mkv"@[0] == 'm'); }
        reveal_strlit("mov"); assert(e != "mov"@) by { assert("mov"@[0] == 'm'); }
        reveal_strlit("avi"); assert(e != "avi"@) by { assert("avi"@[0] == 'a'); }
        reveal_strlit("wmv"); assert(e != "wmv"@) by { assert("wmv"@[0] == 'w'); }
        reveal_strlit("flv"); assert(e != "flv"@) by { assert("flv"@[0] == 'f'); }
        reveal_strlit("webm"); assert(e != "webm"@) by { assert("webm"@.len() == 4); }
        reveal_strlit("m4v"); assert(e != "m4v"@) by { assert("m4v"@[0] == 'm'); }
        reveal_strlit("m2ts"); assert(e != "m2ts"@) by { assert("m2ts"@.len() == 4); }
        reveal_strlit("mp3"); assert(e != "mp3"@) by { assert("mp3"@[0] == 'm'); }
        reveal_strlit("wav"); assert(e != "wav"@) by { assert("wav"@[0] == 'w'); }
        reveal_strlit("flac"); assert(e != "flac"@) by { assert("flac"@.len() == 4); }
        reveal_strlit("aac"); assert(e != "aac"@) by { assert("aac"@[0] == 'a'); }
        reveal_strlit("ogg"); assert(e != "ogg"@) by { assert("ogg"@[0] == 'o'); }
        reveal_strlit("m4a"); assert(e != "m4a"@) by { assert("m4a"@[0] == 'm'); }
        reveal_strlit("wma"); assert(e != "wma"@) by { assert("wma"@[0] == 'w'); }
        reveal_strlit("opus"); assert(e != "opus"@) by { assert("opus"@.len() == 4); }
        reveal_strlit("pdf"); assert(e != "pdf"@) by { assert("pdf"@[1] == 'd'); }
        reveal_strlit("doc"); assert(e != "doc"@) by { assert("doc"@[0] == 'd'); }
        reveal_strlit("docx"); assert(e != "docx"@) by { assert("docx"@.len() == 4); }
        reveal_strlit("xls"); assert(e != "xls"@) by { assert("xls"@[0] == 'x'); }
        reveal_strlit("xlsx"); assert(e != "xlsx"@) by { assert("xlsx"@.len() == 4); }
        reveal_strlit("ppt"); assert(e != "ppt"@) by { assert("ppt"@[1] == 'p'); }
        reveal_strlit("pptx"); assert(e != "pptx"@) by { assert("pptx"@.len() == 4); }
        reveal_strlit("txt"); assert(e != "txt"@) by { assert("txt"@[0] == 't'); }
        reveal_strlit("epub"); assert(e != "epub"@) by { assert("epub"@.len() == 4); }
        reveal_strlit("md"); assert(e != "md"@) by { assert("md"@.len() == 2); }
    }
    if e == "jpg"@ {
        reveal_strlit("jpg");
        assert(e.len() == 3 && e[0] == 'j' && e[1] == 'p' && e[2] == 'g');
        reveal_strlit("zip"); assert(e != "zip"@) by { assert("zip"@[0] == 'z'); }
        reveal_strlit("rar"); assert(e != "rar"@) by { assert("rar"@[0] == 'r'); }
        reveal_strlit("7z"); assert(e != "7z"@) by { assert("7z"@.len() == 2); }
        reveal_strlit("tar"); assert(e != "tar"@) by { assert("tar"@[0] == 't'); }
        reveal_strlit("gz"); assert(e != "gz"@) by { assert("gz"@.len() == 2); }
        reveal_strlit("bz2"); assert(e != "bz2"@) by { assert("bz2"@[0] == 'b'); }
        reveal_strlit("xz"); assert(e != "xz"@) by { assert("xz"@.len() == 2); }
        reveal_strlit("iso"); assert(e != "iso"@) by { assert("iso"@[0] == 'i'); }
        reveal_strlit("dmg"); assert(e != "dmg"@) by { assert("dmg"@[0] == 'd'); }
        reveal_strlit("pkg"); assert(e != "pkg"@) by { assert("pkg"@[0] == 'p'); }
        reveal_strlit("tgz"); assert(e != "tgz"@) by { assert("tgz"@[0] == 't'); }
        reveal_strlit("exe"); assert(e != "exe"@) by { assert("exe"@[0] == 'e'); }
        reveal_strlit("msi"); assert(e != "msi"@) by { assert("msi"@[0] == 'm'); }
        reveal_strlit("apk"); assert(e != "apk"@) by { assert("apk"@[0] == 'a'); }
        reveal_strlit("deb"); assert(e != "deb"@) by { assert("deb"@[0] == 'd'); }
        reveal_strlit("rpm"); assert(e != "rpm"@) by { assert("rpm"@[0] == 'r'); }
        reveal_strlit("appimage"); assert(e != "appimage"@) by { assert("appimage"@.len() == 8); }
        reveal_strlit("bat"); assert(e != "bat"@) by { assert("bat"@[0] == 'b'); }
        reveal_strlit("cmd"); assert(e != "cmd"@) by { assert("cmd"@[0] == 'c'); }
        reveal_strlit("ps1"); assert(e != "ps1"@) by { assert("ps1"@[0] == 'p'); }
        reveal_strlit("mp4"); assert(e != "mp4"@) by { assert("mp4"@[0] == 'm'); }
        reveal_strlit("mkv"); assert(e != "mkv"@) by { assert("mkv"@[0] == 'm'); }
        reveal_strlit("mov"); assert(e != "mov"@) by { assert("mov"@[0] == 'm'); }
        reveal_strlit("avi"); assert(e != "avi"@) by { assert("avi"@[0] == 'a'); }
        reveal_strlit("wmv"); assert(e != "wmv"@) by { assert("wmv"@[0] == 'w'); }
        reveal_strlit("flv"); assert(e != "flv"@) by { assert("flv"@[0] == 'f'); }
        reveal_strlit("webm"); assert(e != "webm"@) by { assert("webm"@.len() == 4); }
        reveal_strlit("m4v"); assert(e != "m4v"@) by { assert("m4v"@[0] == 'm'); }
        reveal_strlit("m2ts"); assert(e != "m2ts"@) by { assert("m2ts"@.len() == 4); }
        reveal_strlit("mp3"); assert(e != "mp3"@) by { assert("mp3"@[0] == 'm'); }
        reveal_strlit("wav"); assert(e != "wav"@) by { assert("wav"@[0] == 'w'); }
        reveal_strlit("flac"); assert(e != "flac"@) by { assert("flac"@.len() == 4); }
        reveal_strlit("aac"); assert(e != "aac"@) by { assert("aac"@[0] == 'a'); }
        reveal_strlit("ogg"); assert(e != "ogg"@) by { assert("ogg"@[0] == 'o'); }
        reveal_strlit("m4a"); assert(e != "m4a"@) by { assert("m4a"@[0] == 'm'); }
        reveal_strlit("wma"); assert(e != "wma"@) by { assert("wma"@[0] == 'w'); }
        reveal_strlit("opus"); assert(e != "opus"@) by { assert("opus"@.len() == 4); }
        reveal_strlit("pdf"); assert(e != "pdf"@) by { assert("pdf"@[0] == 'p'); }
        reveal_strlit("doc"); assert(e != "doc"@) by { assert("doc"@[0] == 'd'); }
        reveal_strlit("docx"); assert(e != "docx"@) by { assert("docx"@.len() == 4); }
        reveal_strlit("xls"); assert(e != "xls"@) by { assert("xls"@[0] == 'x'); }
        reveal_strlit("xlsx"); assert(e != "xlsx"@) by { assert("xlsx"@.len() == 4); }
        reveal_strlit("ppt"); assert(e != "ppt"@) by { assert("ppt"@[0] == 'p'); }
        reveal_strlit("pptx"); assert(e != "pptx"@) by { assert("pptx"@.len() == 4); }
        reveal_strlit("txt"); assert(e != "txt"@) by { assert("txt"@[0] == 't'); }
        reveal_strlit("epub"); assert(e != "epub"@) by { assert("epub"@.len() == 4); }
        reveal_strlit("md"); assert(e != "md"@) by { assert("md"@.len() == 2); }
    }
    if e == "jpeg"@ {
        reveal_strlit("jpeg");
        assert(e.len() == 4 && e[0] == 'j' && e[1] == 'p' && e[2] == 'e' && e[3] == 'g');
        reveal_strlit("zip"); assert(e != "zip"@) by { assert("zip"@.len() == 3); }
        reveal_strlit("rar"); assert(e != "rar"@) by { assert("rar"@.len() == 3); }
        reveal_strlit("7z"); assert(e != "7z"@) by { assert("7z"@.len() == 2); }
        reveal_strlit("tar"); assert(e != "tar"@) by { assert("tar"@.len() == 3); }
        reveal_strlit("gz"); assert(e != "gz"@) by { assert("gz"@.len() == 2); }
        reveal_strlit("bz2"); assert(e != "bz2"@) by { assert("bz2"@.len() == 3); }
        reveal_strlit("xz"); assert(e != "xz"@) by { assert("xz"@.len() == 2); }
        reveal_strlit("iso"); assert(e != "iso"@) by { assert("iso"@.len() == 3); }
        reveal_strlit("dmg"); assert(e != "dmg"@) by { assert("dmg"@.len() == 3); }
        reveal_strlit("pkg"); assert(e != "pkg"@) by { assert("pkg"@.len() == 3); }
        reveal_strlit("tgz"); assert(e != "tgz"@) by { assert("tgz"@.len() == 3); }
        reveal_strlit("exe"); assert(e != "exe"@) by { assert("exe"@.len() == 3); }
        reveal_strlit("msi"); assert(e != "msi"@) by { assert("msi"@.len() == 3); }
        reveal_strlit("apk"); assert(e != "apk"@) by { assert("apk"@.len() == 3); }
        reveal_strlit("deb"); assert(e != "deb"@) by { assert("deb"@.len() == 3); }
        reveal_strlit("rpm"); assert(e != "rpm"@) by { assert("rpm"@.len() == 3); }
        reveal_strlit("appimage"); assert(e != "appimage"@) by { assert("appimage"@.len() == 8); }
        reveal_strlit("bat"); assert(e != "bat"@) by { assert("bat"@.len() == 3); }
        reveal_strlit("cmd"); assert(e != "cmd"@) by { assert("cmd"@.len() == 3); }
        reveal_strlit("ps1"); assert(e != "ps1"@) by { assert("ps1"@.len() == 3); }
        reveal_strlit("mp4"); assert(e != "mp4"@) by { assert("mp4"@.len() == 3); }
        reveal_strlit("mkv"); assert(e != "mkv"@) by { assert("mkv"@.len() == 3); }
        reveal_strlit("mov"); assert(e != "mov"@) by { assert("mov"@.len() == 3); }
        reveal_strlit("avi"); assert(e != "avi"@) by { assert("avi"@.len() == 3); }
        reveal_strlit("wmv"); assert(e != "wmv"@) by { assert("wmv"@.len() == 3); }
        reveal_strlit("flv"); assert(e != "flv"@) by { assert("flv"@.len() == 3); }
        reveal_strlit("webm"); assert(e != "webm"@) by { assert("webm"@[0] == 'w'); }
        reveal_strlit("m4v"); assert(e != "m4v"@) by { assert("m4v"@.len() == 3); }
        reveal_strlit("m2ts"); assert(e != "m2ts"@) by { assert("m2ts"@[0] == 'm'); }
        reveal_strlit("mp3"); assert(e != "mp3"@) by { assert("mp3"@.len() == 3); }
        reveal_strlit("wav"); assert(e != "wav"@) by { assert("wav"@.len() == 3); }
        reveal_strlit("flac"); assert(e != "flac"@) by { assert("flac"@[0] == 'f'); }
        reveal_strlit("aac"); assert(e != "aac"@) by { assert("aac"@.len() == 3); }
        reveal_strlit("ogg"); assert(e != "ogg"@) by { assert("ogg"@.len() == 3); }
        reveal_strlit("m4a"); assert(e != "m4a"@) by { assert("m4a"@.len() == 3); }
        reveal_strlit("wma"); assert(e != "wma"@) by { assert("wma"@.len() == 3); }
        reveal_strlit("opus"); assert(e != "opus"@) by { assert("opus"@[0] == 'o'); }
        reveal_strlit("pdf"); assert(e != "pdf"@) by { assert("pdf"@.len() == 3); }
        reveal_strlit("doc"); assert(e != "doc"@) by { assert("doc"@.len() == 3); }
        reveal_strlit("docx"); assert(e != "docx"@) by { assert("docx"@[0] == 'd'); }
        reveal_strlit("xls"); assert(e != "xls"@) by { assert("xls"@.len() == 3); }
        reveal_strlit("xlsx"); assert(e != "xlsx"@) by { assert("xlsx"@[0] == 'x'); }
        reveal_strlit("ppt"); assert(e != "ppt"@) by { assert("ppt"@.len() == 3); }
        reveal_strlit("pptx"); assert(e != "pptx"@) by { assert("pptx"@[0] == 'p'); }
        reveal_strlit("txt"); assert(e != "txt"@) by { assert("txt"@.len() == 3); }
        reveal_strlit("epub"); assert(e != "epub"@) by { assert("epub"@[0] == 'e'); }
        reveal_strlit("md"); assert(e != "md"@) by { assert("md"@.len() == 2); }
    }
    if e == "gif"@ {
        reveal_strlit("gif");
        assert(e.len() == 3 && e[0] == 'g' && e[1] == 'i' && e[2] == 'f');
        reveal_strlit("zip"); assert(e != "zip"@) by { assert("zip"@[0] == 'z'); }
        reveal_strlit("rar"); assert(e != "rar"@) by { assert("rar"@[0] == 'r'); }
        reveal_strlit("7z"); assert(e != "7z"@) by { assert("7z"@.len() == 2); }
        reveal_strlit("tar"); assert(e != "tar"@) by { assert("tar"@[0] == 't'); }
        reveal_strlit("gz"); assert(e != "gz"@) by { assert("gz"@.len() == 2); }
        reveal_strlit("bz2"); assert(e != "bz2"@) by { assert("bz2"@[0] == 'b'); }
        reveal_strlit("xz"); assert(e != "xz"@) by { assert("xz"@.len() == 2); }
        reveal_strlit("iso"); assert(e != "iso"@) by { assert("iso"@[0] == 'i'); }
        reveal_strlit("dmg"); assert(e != "dmg"@) by { assert("dmg"@[0] == 'd'); }
        reveal_strlit("pkg"); assert(e != "pkg"@) by { assert("pkg"@[0] == 'p'); }
        reveal_strlit("tgz"); assert(e != "tgz"@) by { assert("tgz"@[0] == 't'); }
        reveal_strlit("exe"); assert(e != "exe"@) by { assert("exe"@[0] == 'e'); }
        reveal_strlit("msi"); assert(e != "msi"@) by { assert("msi"@[0] == 'm'); }
        reveal_strlit("apk"); assert(e != "apk"@) by { assert("apk"@[0] == 'a'); }
        reveal_strlit("deb"); assert(e != "deb"@) by { assert("deb"@[0] == 'd'); }
        reveal_strlit("rpm"); assert(e != "rpm"@) by { assert("rpm"@[0] == 'r'); }
        reveal_strlit("appimage"); assert(e != "appimage"@) by { assert("appimage"@.len() == 8); }
        reveal_strlit("bat"); assert(e != "bat"@) by { assert("bat"@[0] == 'b'); }
        reveal_strlit("cmd"); assert(e != "cmd"@) by { assert("cmd"@[0] == 'c'); }
        reveal_strlit("ps1"); assert(e != "ps1"@) by { assert("ps1"@[0] == 'p'); }
        reveal_strlit("mp4"); assert(e != "mp4"@) by { assert("mp4"@[0] == 'm'); }
        reveal_strlit("mkv"); assert(e != "mkv"@) by { assert("mkv"@[0] == 'm'); }
        reveal_strlit("mov"); assert(e != "mov"@) by { assert("mov"@[0] == 'm'); }
        reveal_strlit("avi"); assert(e != "avi"@) by { assert("avi"@[0] == 'a'); }
        reveal_strlit("wmv"); assert(e != "wmv"@) by { assert("wmv"@[0] == 'w'); }
        reveal_strlit("flv"); assert(e != "flv"@) by { assert("flv"@[0] == 'f'); }
        reveal_strlit("webm"); assert(e != "webm"@) by { assert("webm"@.len() == 4); }
        reveal_strlit("m4v"); assert(e != "m4v"@) by { assert("m4v"@[0] == 'm'); }
        reveal_strlit("m2ts"); assert(e != "m2ts"@) by { assert("m2ts"@.len() == 4); }
        reveal_strlit("mp3"); assert(e != "mp3"@) by { assert("mp3"@[0] == 'm'); }
        reveal_strlit("wav"); assert(e != "wav"@) by { assert("wav"@[0] == 'w'); }
        reveal_strlit("flac"); assert(e != "flac"@) by { assert("flac"@.len() == 4); }
        reveal_strlit("aac"); assert(e != "aac"@) by { assert("aac"@[0] == 'a'); }
        reveal_strlit("ogg"); assert(e != "ogg"@) by { assert("ogg"@[0] == 'o'); }
        reveal_strlit("m4a"); assert(e != "m4a"@) by { assert("m4a"@[0] == 'm'); }
        reveal_strlit("wma"); assert(e != "wma"@) by { assert("wma"@[0] == 'w'); }
        reveal_strlit("opus"); assert(e != "opus"@) by { assert("opus"@.len() == 4); }
        reveal_strlit("pdf"); assert(e != "pdf"@) by { assert("pdf"@[0] == 'p'); }
        reveal_strlit("doc"); assert(e != "doc"@) by { assert("doc"@[0] == 'd'); }
        reveal_strlit("docx"); assert(e != "docx"@) by { assert("docx"@.len() == 4); }
        reveal_strlit("xls"); assert(e != "xls"@) by { assert("xls"@[0] == 'x'); }
        reveal_strlit("xlsx"); assert(e != "xlsx"@) by { assert("xlsx"@.len() == 4); }
        reveal_strlit("ppt"); assert(e != "ppt"@) by { assert("ppt"@[0] == 'p'); }
        reveal_strlit("pptx"); assert(e != "pptx"@) by { assert("pptx"@.len() == 4); }
        reveal_strlit("txt"); assert(e != "txt"@) by { assert("txt"@[0] == 't'); }
        reveal_strlit("epub"); assert(e != "epub"@) by { assert("epub"@.len() == 4); }
        reveal_strlit("md"); assert(e != "md"@) by { assert("md"@.len() == 2); }
    }
    if e == "webp"@ {
        reveal_strlit("webp");
        assert(e.len() == 4 && e[0] == 'w' && e[1] == 'e' && e[2] == 'b' && e[3] == 'p');
        reveal_strlit("zip"); assert(e != "zip"@) by { assert("zip"@.len() == 3); }
        reveal_strlit("rar"); assert(e != "rar"@) by { assert("rar"@.len() == 3); }
        reveal_strlit("7z"); assert(e != "7z"@) by { assert("7z"@.len() == 2); }
        reveal_strlit("tar"); assert(e != "tar"@) by { assert("tar"@.len() == 3); }
        reveal_strlit("gz"); assert(e != "gz"@) by { assert("gz"@.len() == 2); }
        reveal_strlit("bz2"); assert(e != "bz2"@) by { assert("bz2"@.len() == 3); }
        reveal_strlit("xz"); assert(e != "xz"@) by { assert("xz"@.len() == 2); }
        reveal_strlit("iso"); assert(e != "iso"@) by { assert("iso"@.len() == 3); }
        reveal_strlit("dmg"); assert(e != "dmg"@) by { assert("dmg"@.len() == 3); }
        reveal_strlit("pkg"); assert(e != "pkg"@) by { assert("pkg"@.len() == 3); }
        reveal_strlit("tgz"); assert(e != "tgz"@) by { assert("tgz"@.len() == 3); }
        reveal_strlit("exe"); assert(e != "exe"@) by { assert("exe"@.len() == 3); }
        reveal_strlit("msi"); assert(e != "msi"@) by { assert("msi"@.len() == 3); }
        reveal_strlit("apk"); assert(e != "apk"@) by { assert("apk"@.len() == 3); }
        reveal_strlit("deb"); assert(e != "deb"@) by { assert("deb"@.len() == 3); }
        reveal_strlit("rpm"); assert(e != "rpm"@) by { assert("rpm"@.len() == 3); }
        reveal_strlit("appimage"); assert(e != "appimage"@) by { assert("appimage"@.len() == 8); }
        reveal_strlit("bat"); assert(e != "bat"@) by { assert("bat"@.len() == 3); }
        reveal_strlit("cmd"); assert(e != "cmd"@) by { assert("cmd"@.len() == 3); }
        reveal_strlit("ps1"); assert(e != "ps1"@) by { assert("ps1"@.len() == 3); }
        reveal_strlit("mp4"); assert(e != "mp4"@) by { assert("mp4"@.len() == 3); }
        reveal_strlit("mkv"); assert(e != "mkv"@) by { assert("mkv"@.len() == 3); }
        reveal_strlit("mov"); assert(e != "mov"@) by { assert("mov"@.len() == 3); }
        reveal_strlit("avi"); assert(e != "avi"@) by { assert("avi"@.len() == 3); }
        reveal_strlit("wmv"); assert(e != "wmv"@) by { assert("wmv"@.len() == 3); }
        reveal_strlit("flv"); assert(e != "flv"@) by { assert("flv"@.len() == 3); }
        reveal_strlit("webm"); assert(e != "webm"@) by { assert("webm"@[3] == 'm'); }
        reveal_strlit("m4v"); assert(e != "m4v"@) by { assert("m4v"@.len() == 3); }
        reveal_strlit("m2ts"); assert(e != "m2ts"@) by { assert("m2ts"@[0] == 'm'); }
        reveal_strlit("mp3"); assert(e != "mp3"@) by { assert("mp3"@.len() == 3); }
        reveal_strlit("wav"); assert(e != "wav"@) by { assert("wav"@.len() == 3); }
        reveal_strlit("flac"); assert(e != "flac"@) by { assert("flac"@[0] == 'f'); }
        reveal_strlit("aac"); assert(e != "aac"@) by { assert("aac"@.len() == 3); }
        reveal_strlit("ogg"); assert(e != "ogg"@) by { assert("ogg"@.len() == 3); }
        reveal_strlit("m4a"); assert(e != "m4a"@) by { assert("m4a"@.len() == 3); }
        reveal_strlit("wma"); assert(e != "wma"@) by { assert("wma"@.len() == 3); }
        reveal_strlit("opus"); assert(e != "opus"@) by { assert("opus"@[0] == 'o'); }
        reveal_strlit("pdf"); assert(e != "pdf"@) by { assert("pdf"@.len() == 3); }
        reveal_strlit("doc"); assert(e != "doc"@) by { assert("doc"@.len() == 3); }
        reveal_strlit("docx"); assert(e != "docx"@) by { assert("docx"@[0] == 'd'); }
        reveal_strlit("xls"); assert(e != "xls"@) by { assert("xls"@.len() == 3); }
        reveal_strlit("xlsx"); assert(e != "xlsx"@) by { assert("xlsx"@[0] == 'x'); }
        reveal_strlit("ppt"); assert(e != "ppt"@) by { assert("ppt"@.len() == 3); }
        reveal_strlit("pptx"); assert(e != "pptx"@) by { assert("pptx"@[0] == 'p'); }
        reveal_strlit("txt"); assert(e != "txt"@) by { assert("txt"@.len() == 3); }
        reveal_strlit("epub"); assert(e != "epub"@) by { assert("epub"@[0] == 'e'); }
        reveal_strlit("md"); assert(e != "md"@) by { assert("md"@.len() == 2); }
    }
    if e == "svg"@ {
        reveal_strlit("svg");
        assert(e.len() == 3 && e[0] == 's' && e[1] == 'v' && e[2] == 'g');
        reveal_strlit("zip"); assert(e != "zip"@) by { assert("zip"@[0] == 'z'); }
        reveal_strlit("rar"); assert(e != "rar"@) by { assert("rar"@[0] == 'r'); }
        reveal_strlit("7z"); assert(e != "7z"@) by { assert("7z"@.len() == 2); }
        reveal_strlit("tar"); assert(e != "tar"@) by { assert("tar"@[0] == 't'); }
        reveal_strlit("gz"); assert(e != "gz"@) by { assert("gz"@.len() == 2); }
        reveal_strlit("bz2"); assert(e != "bz2"@) by { assert("bz2"@[0] == 'b'); }
        reveal_strlit("xz"); assert(e != "xz"@) by { assert("xz"@.len() == 2); }
        reveal_strlit("iso"); assert(e != "iso"@) by { assert("iso"@[0] == 'i'); }
        reveal_strlit("dmg"); assert(e != "dmg"@) by { assert("dmg"@[0] == 'd'); }
        reveal_strlit("pkg"); assert(e != "pkg"@) by { assert("pkg"@[0] == 'p'); }
        reveal_strlit("tgz"); assert(e != "tgz"@) by { assert("tgz"@[0] == 't'); }
        reveal_strlit("exe"); assert(e != "exe"@) by { assert("exe"@[0] == 'e'); }
        reveal_strlit("msi"); assert(e != "msi"@) by { assert("msi"@[0] == 'm'); }
        reveal_strlit("apk"); assert(e != "apk"@) by { assert("apk"@[0] == 'a'); }
        reveal_strlit("deb"); assert(e != "deb"@) by { assert("deb"@[0] == 'd'); }
        reveal_strlit("rpm"); assert(e != "rpm"@) by { assert("rpm"@[0] == 'r'); }
        reveal_strlit("appimage"); assert(e != "appimage"@) by { assert("appimage"@.len() == 8); }
        reveal_strlit("bat"); assert(e != "bat"@) by { assert("bat"@[0] == 'b'); }
        reveal_strlit("cmd"); assert(e != "cmd"@) by { assert("cmd"@[0] == 'c'); }
        reveal_strlit("ps1"); assert(e != "ps1"@) by { assert("ps1"@[0] == 'p'); }
        reveal_strlit("mp4"); assert(e != "mp4"@) by { assert("mp4"@[0] == 'm'); }
        reveal_strlit("mkv"); assert(e != "mkv"@) by { assert("mkv"@[0] == 'm'); }
        reveal_strlit("mov"); assert(e != "mov"@) by { assert("mov"@[0] == 'm'); }
        reveal_strlit("avi"); assert(e != "avi"@) by { assert("avi"@[0] == 'a'); }
        reveal_strlit("wmv"); assert(e != "wmv"@) by { assert("wmv"@[0] == 'w'); }
        reveal_strlit("flv"); assert(e != "flv"@) by { assert("flv"@[0] == 'f'); }
        reveal_strlit("webm"); assert(e != "webm"@) by { assert("webm"@.len() == 4); }
        reveal_strlit("m4v"); assert(e != "m4v"@) by { assert("m4v"@[0] == 'm'); }
        reveal_strlit("m2ts"); assert(e != "m2ts"@) by { assert("m2ts"@.len() == 4); }
        reveal_strlit("mp3"); assert(e != "mp3"@) by { assert("mp3"@[0] == 'm'); }
        reveal_strlit("wav"); assert(e != "wav"@) by { assert("wav"@[0] == 'w'); }
        reveal_strlit("flac"); assert(e != "flac"@) by { assert("flac"@.len() == 4); }
        reveal_strlit("aac"); assert(e != "aac"@) by { assert("aac"@[0] == 'a'); }
        reveal_strlit("ogg"); assert(e != "ogg"@) by { assert("ogg"@[0] == 'o'); }
        reveal_strlit("m4a"); assert(e != "m4a"@) by { assert("m4a"@[0] == 'm'); }
        reveal_strlit("wma"); assert(e != "wma"@) by { assert("wma"@[0] == 'w'); }
        reveal_strlit("opus"); assert(e != "opus"@) by { assert("opus"@.len() == 4); }
        reveal_strlit("pdf"); assert(e != "pdf"@) by { assert("pdf"@[0] == 'p'); }
        reveal_strlit("doc"); assert(e != "doc"@) by { assert("doc"@[0] == 'd'); }
        reveal_strlit("docx"); assert(e != "docx"@) by { assert("docx"@.len() == 4); }
        reveal_strlit("xls"); assert(e != "xls"@) by { assert("xls"@[0] == 'x'); }
        reveal_strlit("xlsx"); assert(e != "xlsx"@) by { assert("xlsx"@.len() == 4); }
        reveal_strlit("ppt"); assert(e != "ppt"@) by { assert("ppt"@[0] == 'p'); }
        reveal_strlit("pptx"); assert(e != "pptx"@) by { assert("pptx"@.len() == 4); }
        reveal_strlit("txt"); assert(e != "txt"@) by { assert("txt"@[0] == 't'); }
        reveal_strlit("epub"); assert(e != "epub"@) by { assert("epub"@.len() == 4); }
        reveal_strlit("md"); assert(e != "md"@) by { assert("md"@.len() == 2); }
    }
    if e == "bmp"@ {
        reveal_strlit("bmp");
        assert(e.len() == 3 && e[0] == 'b' && e[1] == 'm' && e[2] == 'p');
        reveal_strlit("zip"); assert(e != "zip"@) by { assert("zip"@[0] == 'z'); }
        reveal_strlit("rar"); assert(e != "rar"@) by { assert("rar"@[0] == 'r'); }
        reveal_strlit("7z"); assert(e != "7z"@) by { assert("7z"@.len() == 2); }
        reveal_strlit("tar"); assert(e != "tar"@) by { assert("tar"@[0] == 't'); }
        reveal_strlit("gz"); assert(e != "gz"@) by { assert("gz"@.len() == 2); }
        reveal_strlit("bz2"); assert(e != "bz2"@) by { assert("bz2"@[1] == 'z'); }
        reveal_strlit("xz"); assert(e != "xz"@) by { assert("xz"@.len() == 2); }
        reveal_strlit("iso"); assert(e != "iso"@) by { assert("iso"@[0] == 'i'); }
        reveal_strlit("dmg"); assert(e != "dmg"@) by { assert("dmg"@[0] == 'd'); }
        reveal_strlit("pkg"); assert(e != "pkg"@) by { assert("pkg"@[0] == 'p'); }
        reveal_strlit("tgz"); assert(e != "tgz"@) by { assert("tgz"@[0] == 't'); }
        reveal_strlit("exe"); assert(e != "exe"@) by { assert("exe"@[0] == 'e'); }
        reveal_strlit("msi"); assert(e != "msi"@) by { assert("msi"@[0] == 'm'); }
        reveal_strlit("apk"); assert(e != "apk"@) by { assert("apk"@[0] == 'a'); }
        reveal_strlit("deb"); assert(e != "deb"@) by { assert("deb"@[0] == 'd'); }
        reveal_strlit("rpm"); assert(e != "rpm"@) by { assert("rpm"@[0] == 'r'); }
        reveal_strlit("appimage"); assert(e != "appimage"@) by { assert("appimage"@.len() == 8); }
        reveal_strlit("bat"); assert(e != "bat"@) by { assert("bat"@[1] == 'a'); }
        reveal_strlit("cmd"); assert(e != "cmd"@) by { assert("cmd"@[0] == 'c'); }
        reveal_strlit("ps1"); assert(e != "ps1"@) by { assert("ps1"@[0] == 'p'); }
        reveal_strlit("mp4"); assert(e != "mp4"@) by { assert("mp4"@[0] == 'm'); }
        reveal_strlit("mkv"); assert(e != "mkv"@) by { assert("mkv"@[0] == 'm'); }
        reveal_strlit("mov"); assert(e != "mov"@) by { assert("mov"@[0] == 'm'); }
        reveal_strlit("avi"); assert(e != "avi"@) by { assert("avi"@[0] == 'a'); }
        reveal_strlit("wmv"); assert(e != "wmv"@) by { assert("wmv"@[0] == 'w'); }
        reveal_strlit("flv"); assert(e != "flv"@) by { assert("flv"@[0] == 'f'); }
        reveal_strlit("webm"); assert(e != "webm"@) by { assert("webm"@.len() == 4); }
        reveal_strlit("m4v"); assert(e != "m4v"@) by { assert("m4v"@[0] == 'm'); }
        reveal_strlit("m2ts"); assert(e != "m2ts"@) by { assert("m2ts"@.len() == 4); }
        reveal_strlit("mp3"); assert(e != "mp3"@) by { assert("mp3"@[0] == 'm'); }
        reveal_strlit("wav"); assert(e != "wav"@) by { assert("wav"@[0] == 'w'); }
        reveal_strlit("flac"); assert(e != "flac"@) by { assert("flac"@.len() == 4); }
        reveal_strlit("aac"); assert(e != "aac"@) by { assert("aac"@[0] == 'a'); }
        reveal_strlit("ogg"); assert(e != "ogg"@) by { assert("ogg"@[0] == 'o'); }
        reveal_strlit("m4a"); assert(e != "m4a"@) by { assert("m4a"@[0] == 'm'); }
        reveal_strlit("wma"); assert(e != "wma"@) by { assert("wma"@[0] == 'w'); }
        reveal_strlit("opus"); assert(e != "opus"@) by { assert("opus"@.len() == 4); }
        reveal_strlit("pdf"); assert(e != "pdf"@) by { assert("pdf"@[0] == 'p'); }
        reveal_strlit("doc"); assert(e != "doc"@) by { assert("doc"@[0] == 'd'); }
        reveal_strlit("docx"); assert(e != "docx"@) by { assert("docx"@.len() == 4); }
        reveal_strlit("xls"); assert(e != "xls"@) by { assert("xls"@[0] == 'x'); }
        reveal_strlit("xlsx"); assert(e != "xlsx"@) by { assert("xlsx"@.len() == 4); }
        reveal_strlit("ppt"); assert(e != "ppt"@) by { assert("ppt"@[0] == 'p'); }
        reveal_strlit("pptx"); assert(e != "pptx"@) by { assert("pptx"@.len() == 4); }
        reveal_strlit("txt"); assert(e != "txt"@) by { assert("txt"@[0] == 't'); }
        reveal_strlit("epub"); assert(e != "epub"@) by { assert("epub"@.len() == 4); }
        reveal_strlit("md"); assert(e != "md"@) by { assert("md"@.len() == 2); }
    }
    if e == "ico"@ {
        reveal_strlit("ico");
        assert(e.len() == 3 && e[0] == 'i' && e[1] == 'c' && e[2] == 'o');
        reveal_strlit("zip"); assert(e != "zip"@) by { assert("zip"@[0] == 'z'); }
        reveal_strlit("rar"); assert(e != "rar"@) by { assert("rar"@[0] == 'r'); }
        reveal_strlit("7z"); assert(e != "7z"@) by { assert("7z"@.len() == 2); }
        reveal_strlit("tar"); assert(e != "tar"@) by { assert("tar"@[0] == 't'); }
        reveal_strlit("gz"); assert(e != "gz"@) by { assert("gz"@.len() == 2); }
        reveal_strlit("bz2"); assert(e != "bz2"@) by { assert("bz2"@[0] == 'b'); }
        reveal_strlit("xz"); assert(e != "xz"@) by { assert("xz"@.len() == 2); }
        reveal_strlit("iso"); assert(e != "iso"@) by { assert("iso"@[1] == 's'); }
        reveal_strlit("dmg"); assert(e != "dmg"@) by { assert("dmg"@[0] == 'd'); }
        reveal_strlit("pkg"); assert(e != "pkg"@) by { assert("pkg"@[0] == 'p'); }
        reveal_strlit("tgz"); assert(e != "tgz"@) by { assert("tgz"@[0] == 't'); }
        reveal_strlit("exe"); assert(e != "exe"@) by { assert("exe"@[0] == 'e'); }
        reveal_strlit("msi"); assert(e != "msi"@) by { assert("msi"@[0] == 'm'); }
        reveal_strlit("apk"); assert(e != "apk"@) by { assert("apk"@[0] == 'a'); }
        reveal_strlit("deb"); assert(e != "deb"@) by { assert("deb"@[0] == 'd'); }
        reveal_strlit("rpm"); assert(e != "rpm"@) by { assert("rpm"@[0] == 'r'); }
        reveal_strlit("appimage"); assert(e != "appimage"@) by { assert("appimage"@.len() == 8); }
        reveal_strlit("bat"); assert(e != "bat"@) by { assert("bat"@[0] == 'b'); }
        reveal_strlit("cmd"); assert(e != "cmd"@) by { assert("cmd"@[0] == 'c'); }
        reveal_strlit("ps1"); assert(e != "ps1"@) by { assert("ps1"@[0] == 'p'); }
        reveal_strlit("mp4"); assert(e != "mp4"@) by { assert("mp4"@[0] == 'm'); }
        reveal_strlit("mkv"); assert(e != "mkv"@) by { assert("mkv"@[0] == 'm'); }
        reveal_strlit("mov"); assert(e != "mov"@) by { assert("mov"@[0] == 'm'); }
        reveal_strlit("avi"); assert(e != "avi"@) by { assert("avi"@[0] == 'a'); }
        reveal_strlit("wmv"); assert(e != "wmv"@) by { assert("wmv"@[0] == 'w'); }
        reveal_strlit("flv"); assert(e != "flv"@) by { assert("flv"@[0] == 'f'); }
        reveal_strlit("webm"); assert(e != "webm"@) by { assert("webm"@.len() == 4); }
        reveal_strlit("m4v"); assert(e != "m4v"@) by { assert("m4v"@[0] == 'm'); }
        reveal_strlit("m2ts"); assert(e != "m2ts"@) by { assert("m2ts"@.len() == 4); }
        reveal_strlit("mp3"); assert(e != "mp3"@) by { assert("mp3"@[0] == 'm'); }
        reveal_strlit("wav"); assert(e != "wav"@) by { assert("wav"@[0] == 'w'); }
        reveal_strlit("flac"); assert(e != "flac"@) by { assert("flac"@.len() == 4); }
        reveal_strlit("aac"); assert(e != "aac"@) by { assert("aac"@[0] == 'a'); }
        reveal_strlit("ogg"); assert(e != "ogg"@) by { assert("ogg"@[0] == 'o'); }
        reveal_strlit("m4a"); assert(e != "m4a"@) by { assert("m4a"@[0] == 'm'); }
        reveal_strlit("wma"); assert(e != "wma"@) by { assert("wma"@[0] == 'w'); }
        reveal_strlit("opus"); assert(e != "opus"@) by { assert("opus"@.len() == 4); }
        reveal_strlit("pdf"); assert(e != "pdf"@) by { assert("pdf"@[0] == 'p'); }
        reveal_strlit("doc"); assert(e != "doc"@) by { assert("doc"@[0] == 'd'); }
        reveal_strlit("docx"); assert(e != "docx"@) by { assert("docx"@.len() == 4); }
        reveal_strlit("xls"); assert(e != "xls"@) by { assert("xls"@[0] == 'x'); }
        reveal_strlit("xlsx"); assert(e != "xlsx"@) by { assert("xlsx"@.len() == 4); }
        reveal_strlit("ppt"); assert(e != "ppt"@) by { assert("ppt"@[0] == 'p'); }
        reveal_strlit("pptx"); assert(e != "pptx"@) by { assert("pptx"@.len() == 4); }
        reveal_strlit("txt"); assert(e != "txt"@) by { assert("txt"@[0] == 't'); }
        reveal_strlit("epub"); assert(e != "epub"@) by { assert("epub"@.len() == 4); }
        reveal_strlit("md"); assert(e != "md"@) by { assert("md"@.len() == 2); }
    }
    if e == "tiff"@ {
        reveal_strlit("tiff");
        assert(e.len() == 4 && e[0] == 't' && e[1] == 'i' && e[2] == 'f' && e[3] == 'f');
        reveal_strlit("zip"); assert(e != "zip"@) by { assert("zip"@.len() == 3); }
        reveal_strlit("rar"); assert(e != "rar"@) by { assert("rar"@.len() == 3); }
        reveal_strlit("7z"); assert(e != "7z"@) by { assert("7z"@.len() == 2); }
        reveal_strlit("tar"); assert(e != "tar"@) by { assert("tar"@.len() == 3); }
        reveal_strlit("gz"); assert(e != "gz"@) by { assert("gz"@.len() == 2); }
        reveal_strlit("bz2"); assert(e != "bz2"@) by { assert("bz2"@.len() == 3); }
        reveal_strlit("xz"); assert(e != "xz"@) by { assert("xz"@.len() == 2); }
        reveal_strlit("iso"); assert(e != "iso"@) by { assert("iso"@.len() == 3); }
        reveal_strlit("dmg"); assert(e != "dmg"@) by { assert("dmg"@.len() == 3); }
        reveal_strlit("pkg"); assert(e != "pkg"@) by { assert("pkg"@.len() == 3); }
        reveal_strlit("tgz"); assert(e != "tgz"@) by { assert("tgz"@.len() == 3); }
        reveal_strlit("exe"); assert(e != "exe"@) by { assert("exe"@.len() == 3); }
        reveal_strlit("msi"); assert(e != "msi"@) by { assert("msi"@.len() == 3); }
        reveal_strlit("apk"); assert(e != "apk"@) by { assert("apk"@.len() == 3); }
        reveal_strlit("deb"); assert(e != "deb"@) by { assert("deb"@.len() == 3); }
        reveal_strlit("rpm"); assert(e != "rpm"@) by { assert("rpm"@.len() == 3); }
        reveal_strlit("appimage"); assert(e != "appimage"@) by { assert("appimage"@.len() == 8); }
        reveal_strlit("bat"); assert(e != "bat"@) by { assert("bat"@.len() == 3); }
        reveal_strlit("cmd"); assert(e != "cmd"@) by { assert("cmd"@.len() == 3); }
        reveal_strlit("ps1"); assert(e != "ps1"@) by { assert("ps1"@.len() == 3); }
        reveal_strlit("mp4"); assert(e != "mp4"@) by { assert("mp4"@.len() == 3); }
        reveal_strlit("mkv"); assert(e != "mkv"@) by { assert("mkv"@.len() == 3); }
        reveal_strlit("mov"); assert(e != "mov"@) by { assert("mov"@.len() == 3); }
        reveal_strlit("avi"); assert(e != "avi"@) by { assert("avi"@.len() == 3); }
        reveal_strlit("wmv"); assert(e != "wmv"@) by { assert("wmv"@.len() == 3); }
        reveal_strlit("flv"); assert(e != "flv"@) by { assert("flv"@.len() == 3); }
        reveal_strlit("webm"); assert(e != "webm"@) by { assert("webm"@[0] == 'w'); }
        reveal_strlit("m4v"); assert(e != "m4v"@) by { assert("m4v"@.len() == 3); }
        reveal_strlit("m2ts"); assert(e != "m2ts"@) by { assert("m2ts"@[0] == 'm'); }
        reveal_strlit("mp3"); assert(e != "mp3"@) by { assert("mp3"@.len() == 3); }
        reveal_strlit("wav"); assert(e != "wav"@) by { assert("wav"@.len() == 3); }
        reveal_strlit("flac"); assert(e != "flac"@) by { assert("flac"@[0] == 'f'); }
        reveal_strlit("aac"); assert(e != "aac"@) by { assert("aac"@.len() == 3); }
        reveal_strlit("ogg"); assert(e != "ogg"@) by { assert("ogg"@.len() == 3); }
        reveal_strlit("m4a"); assert(e != "m4a"@) by { assert("m4a"@.len() == 3); }
        reveal_strlit("wma"); assert(e != "wma"@) by { assert("wma"@.len() == 3); }
        reveal_strlit("opus"); assert(e != "opus"@) by { assert("opus"@[0] == 'o'); }
        reveal_strlit("pdf"); assert(e != "pdf"@) by { assert("pdf"@.len() == 3); }
        reveal_strlit("doc"); assert(e != "doc"@) by { assert("doc"@.len() == 3); }
        reveal_strlit("docx"); assert(e != "docx"@) by { assert("docx"@[0] == 'd'); }
        reveal_strlit("xls"); assert(e != "xls"@) by { assert("xls"@.len() == 3); }
        reveal_strlit("xlsx"); assert(e != "xlsx"@) by { assert("xlsx"@[0] == 'x'); }
        reveal_strlit("ppt"); assert(e != "ppt"@) by { assert("ppt"@.len() == 3); }
        reveal_strlit("pptx"); assert(e != "pptx"@) by { assert("pptx"@[0] == 'p'); }
        reveal_strlit("txt"); assert(e != "txt"@) by { assert("txt"@.len() == 3); }
        reveal_strlit("epub"); assert(e != "epub"@) by { assert("epub"@[0] == 'e'); }
        reveal_strlit("md"); assert(e != "md"@) by { assert("md"@.len() == 2); }
    }
}

} // verus!
