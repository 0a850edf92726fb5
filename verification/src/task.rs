//! The bulk-import job lifecycle: the `Task` data model, the in-memory
//! registry of jobs, the worker step that advances one job's progress, and
//! the progress-reporting read path.

use vstd::prelude::*;
use std::collections::HashMap;
use crate::model::AppError;

verus! {

/// State machine of one bulk-import job.
#[derive(Debug)]
pub enum TaskStatus {
    /// In progress; carries the number of records inserted so far.
    Padding(u32),
    /// Terminal: every record was inserted.
    Done,
    /// Terminal: a record insert failed; carries the reason.
    Failed(String),
}

/// One bulk-import job: a descriptive title, the record count fixed at
/// creation, and the progress state machine.
#[derive(Debug)]
pub struct Task {
    pub title: String,
    pub total: u32,
    pub status: TaskStatus,
}

/// Snapshot of a job as served to a polling client. `status` is one of
/// `"padding"`, `"done"`, `"error"`; `progress` is present exactly while
/// `"padding"`, `err_msg` exactly on `"error"`.
#[derive(Debug)]
pub struct TaskBody {
    pub title: String,
    pub total: u32,
    pub status: String,
    pub progress: Option<u32>,
    pub err_msg: Option<String>,
}

/// Mathematical model of a `TaskStatus`.
pub enum StatusView {
    Padding(u32),
    Done,
    Failed(Seq<char>),
}

/// Mathematical model of a `Task`.
pub struct TaskView {
    pub title: Seq<char>,
    pub total: u32,
    pub status: StatusView,
}

pub open spec fn status_view(s: TaskStatus) -> StatusView {
    match s {
        TaskStatus::Padding(n) => StatusView::Padding(n),
        TaskStatus::Done => StatusView::Done,
        TaskStatus::Failed(m) => StatusView::Failed(m@),
    }
}

impl View for Task {
    type V = TaskView;

    open spec fn view(&self) -> TaskView {
        TaskView { title: self.title@, total: self.total, status: status_view(self.status) }
    }
}

/// A well-formed job never counts more inserted records than it has in
/// total, and a failed job always carries a non-empty reason.
pub open spec fn wf_view(t: TaskView) -> bool {
    &&& t.status matches StatusView::Padding(n) ==> n <= t.total
    &&& t.status matches StatusView::Failed(m) ==> m.len() > 0
}

impl Task {
    /// A fresh job: `total` fixed to the record count, no record inserted yet.
    pub fn new(title: &str, total: usize) -> (r: Task)
        requires
            total <= u32::MAX,
        ensures
            r@ == (TaskView {
                title: title@,
                total: total as u32,
                status: StatusView::Padding(0),
            }),
            wf_view(r@),
    {
        Task { title: title.to_string(), total: total as u32, status: TaskStatus::Padding(0) }
    }
}

/// The reason recorded when a record insert fails: the store's error
/// description, or a fixed fallback so that the reason is never empty.
pub open spec fn failed_reason(msg: Seq<char>) -> Seq<char> {
    if msg.len() == 0 {
        "record insert failed"@
    } else {
        msg
    }
}

pub proof fn lemma_failed_reason_nonempty(msg: Seq<char>)
    ensures
        failed_reason(msg).len() > 0,
{
    reveal_strlit("record insert failed");
}

/// The outcome of one store insert, abstracted: the error is its description.
pub open spec fn outcome_view(r: Result<(), String>) -> Result<(), Seq<char>> {
    match r {
        Result::Ok(_) => Result::Ok(()),
        Result::Err(m) => Result::Err(m@),
    }
}

/// One worker step applied to a job: on a successful insert the progress
/// count advances, reaching `Done` exactly when it reaches `total`; on a
/// failed insert the job moves to `Failed` with the store's reason; a
/// terminal job never changes again.
pub open spec fn step_view(t: TaskView, outcome: Result<(), Seq<char>>) -> TaskView {
    match t.status {
        StatusView::Padding(n) => match outcome {
            Result::Ok(_) => if n + 1 >= t.total {
                TaskView { title: t.title, total: t.total, status: StatusView::Done }
            } else {
                TaskView {
                    title: t.title,
                    total: t.total,
                    status: StatusView::Padding((n + 1) as u32),
                }
            },
            Result::Err(m) => TaskView {
                title: t.title,
                total: t.total,
                status: StatusView::Failed(failed_reason(m)),
            },
        },
        _ => t,
    }
}

/// Whether the worker stops after this step: it goes on only while the job
/// stays in progress.
pub open spec fn step_stops(t: TaskView, outcome: Result<(), Seq<char>>) -> bool {
    !(step_view(t, outcome).status matches StatusView::Padding(_))
}

fn make_reason(msg: String) -> (r: String)
    ensures
        r@ == failed_reason(msg@),
{
    if msg.as_str().is_empty() {
        "record insert failed".to_string()
    } else {
        msg
    }
}

/// How a polled snapshot reports a job: the title and total verbatim, a
/// textual status in `"padding"`, `"done"`, `"error"`, the progress count
/// exactly while in progress, and the failure reason exactly on failure.
pub open spec fn snapshot_of(t: TaskView, b: TaskBody) -> bool {
    &&& b.title@ == t.title
    &&& b.total == t.total
    &&& match t.status {
        StatusView::Padding(n) => b.status@ == "padding"@ && b.progress == Some(n)
            && b.err_msg is None,
        StatusView::Done => b.status@ == "done"@ && b.progress is None && b.err_msg is None,
        StatusView::Failed(m) => b.status@ == "error"@ && b.progress is None && (
        b.err_msg matches Some(e) && e@ == m),
    }
}

/// Right after a job of `total` records is created — and before any record
/// is inserted — every snapshot of it reports it in progress, with the total
/// fixed to the record count and a progress count between zero and the
/// total.
pub proof fn lemma_fresh_job_snapshot(title: Seq<char>, total: u32, b: TaskBody)
    requires
        snapshot_of(
            (TaskView { title, total, status: StatusView::Padding(0) }),
            b,
        ),
    ensures
        b.status@ == "padding"@,
        b.total == total,
        b.progress matches Some(p) && 0 <= p <= total,
{
}

/// In-memory mapping from job id to job, retained for the process lifetime:
/// entries are added by the import coordinator, advanced by the worker that
/// owns them, and read by the progress reporter.
pub struct TaskRegistry {
    tasks: HashMap<u128, Task>,
}

impl View for TaskRegistry {
    type V = Map<u128, TaskView>;

    closed spec fn view(&self) -> Map<u128, TaskView> {
        self.tasks@.map_values(|t: Task| t@)
    }
}

impl TaskRegistry {
    /// Every job in the registry is well-formed.
    pub open spec fn wf(self) -> bool {
        forall|id: u128| #[trigger] self@.contains_key(id) ==> wf_view(self@[id])
    }

    /// An empty registry.
    pub fn new() -> (r: TaskRegistry)
        ensures
            r@ == Map::<u128, TaskView>::empty(),
            r.wf(),
    {
        let r = TaskRegistry { tasks: HashMap::new() };
        proof {
            assert(r@ =~= Map::<u128, TaskView>::empty());
        }
        r
    }

    /// How many jobs have ever been registered.
    pub fn task_count(&self) -> (n: usize)
        ensures
            n == self@.len(),
    {
        proof {
            assert(self@.dom() =~= self.tasks@.dom());
        }
        self.tasks.len()
    }

    /// Registers a job under a freshly generated id and returns the id. The
    /// id is fresh — not a key of the registry before the call — so the job
    /// enters as exactly one new entry and every existing entry is
    /// untouched. Should the randomly drawn id collide with an existing one
    /// (astronomically unlikely), the registry is left unchanged and an
    /// error is returned.
    pub fn build_task(&mut self, task: Task) -> (r: Result<u128, AppError>)
        ensures
            r matches Ok(id) ==> !old(self)@.contains_key(id) && final(self)@ == old(self)@.insert(
                id,
                task@,
            ),
            r matches Err(e) ==> final(self)@ == old(self)@ && e.0@ == "task id collision"@,
            old(self).wf() && wf_view(task@) ==> final(self).wf(),
    {
        let id = fresh_task_id();
        proof {
            assert(self@.dom() =~= self.tasks@.dom());
        }
        if self.tasks.contains_key(&id) {
            return Err(AppError::new("task id collision".to_string()));
        }
        self.tasks.insert(id, task);
        proof {
            assert(self@ =~= old(self)@.insert(id, task@));
        }
        Ok(id)
    }

    /// The progress reporter: a snapshot of one job, or `None` for an
    /// unknown id. The textual status is `"padding"`, `"done"` or `"error"`;
    /// the progress count is present exactly while `"padding"`, the error
    /// message exactly on `"error"`.
    pub fn get_status(&self, id: u128) -> (r: Option<TaskBody>)
        ensures
            r is None <==> !self@.contains_key(id),
            r matches Some(b) ==> snapshot_of(self@[id], b),
    {
        match self.tasks.get(&id) {
            None => None,
            Some(t) => {
                let status: &str;
                let mut progress: Option<u32> = None;
                let mut err_msg: Option<String> = None;
                match &t.status {
                    TaskStatus::Padding(n) => {
                        status = "padding";
                        progress = Some(*n);
                    },
                    TaskStatus::Done => {
                        status = "done";
                    },
                    TaskStatus::Failed(m) => {
                        status = "error";
                        err_msg = Some(m.clone());
                    },
                }
                Some(
                    TaskBody {
                        title: t.title.clone(),
                        total: t.total,
                        status: status.to_string(),
                        progress,
                        err_msg,
                    },
                )
            },
        }
    }

    /// One worker step for the job `id`, given the outcome of one store
    /// insert. The job advances as `step_view` says; every other entry is
    /// untouched. Returns whether the worker must stop draining records for
    /// this job.
    pub fn worker_step(&mut self, id: u128, outcome: Result<(), String>) -> (stop: bool)
        ensures
            !old(self)@.contains_key(id) ==> final(self)@ == old(self)@ && stop,
            old(self)@.contains_key(id) ==> final(self)@ == old(self)@.insert(
                id,
                step_view(old(self)@[id], outcome_view(outcome)),
            ),
            old(self)@.contains_key(id) ==> stop == step_stops(
                old(self)@[id],
                outcome_view(outcome),
            ),
            old(self).wf() ==> final(self).wf(),
    {
        let title: String;
        let total: u32;
        let n: u32;
        match self.tasks.get(&id) {
            None => {
                return true;
            },
            Some(t) => {
                match &t.status {
                    TaskStatus::Padding(m) => {
                        title = t.title.clone();
                        total = t.total;
                        n = *m;
                    },
                    _ => {
                        proof {
                            assert(self@ =~= self@.insert(id, self@[id]));
                        }
                        return true;
                    },
                }
            },
        }
        let new_task: Task;
        let stop: bool;
        match outcome {
            Result::Ok(_) => {
                if n < total {
                    let next: u32 = n + 1;
                    if next == total {
                        new_task = Task { title, total, status: TaskStatus::Done };
                        stop = true;
                    } else {
                        new_task = Task { title, total, status: TaskStatus::Padding(next) };
                        stop = false;
                    }
                } else {
                    new_task = Task { title, total, status: TaskStatus::Done };
                    stop = true;
                }
            },
            Result::Err(m) => {
                proof {
                    lemma_failed_reason_nonempty(m@);
                }
                new_task = Task { title, total, status: TaskStatus::Failed(make_reason(m)) };
                stop = true;
            },
        }
        proof {
            assert(new_task@ == step_view(old(self)@[id], outcome_view(outcome)));
        }
        self.tasks.insert(id, new_task);
        proof {
            assert(self@ =~= old(self)@.insert(id, new_task@));
            assert forall|k: u128| old(self).wf() && #[trigger] self@.contains_key(k) implies
                wf_view(self@[k]) by {
                if k != id {
                    assert(old(self)@.contains_key(k));
                }
            }
        }
        stop
    }
}

/// The job reached by starting from `t` and applying one worker step per
/// outcome, in order.
pub open spec fn run_steps(t: TaskView, outcomes: Seq<Result<(), Seq<char>>>) -> TaskView
    decreases outcomes.len(),
{
    if outcomes.len() == 0 {
        t
    } else {
        run_steps(step_view(t, outcomes[0]), outcomes.drop_first())
    }
}

/// Once a job is terminal (`Done` or `Failed`), no later worker step changes
/// it: a finished job never regresses, and a failed job's progress never
/// increases again.
pub proof fn lemma_terminal_immutable(t: TaskView, outcomes: Seq<Result<(), Seq<char>>>)
    requires
        !(t.status matches StatusView::Padding(_)),
    ensures
        run_steps(t, outcomes) == t,
    decreases outcomes.len(),
{
    if outcomes.len() > 0 {
        lemma_terminal_immutable(t, outcomes.drop_first());
    }
}

/// The progress count is non-decreasing: whenever a job is observed in
/// progress before and after any sequence of worker steps, the later count
/// is at least the earlier one.
pub proof fn lemma_progress_monotone(t: TaskView, outcomes: Seq<Result<(), Seq<char>>>)
    ensures
        t.status matches StatusView::Padding(n1) ==> (run_steps(
            t,
            outcomes,
        ).status matches StatusView::Padding(n2) ==> n1 <= n2),
    decreases outcomes.len(),
{
    if outcomes.len() > 0 {
        let t1 = step_view(t, outcomes[0]);
        lemma_progress_monotone(t1, outcomes.drop_first());
        if !(t1.status matches StatusView::Padding(_)) {
            lemma_terminal_immutable(t1, outcomes.drop_first());
        }
    }
}

/// Every outcome reports a successful insert.
pub open spec fn all_ok(outcomes: Seq<Result<(), Seq<char>>>) -> bool {
    forall|i: int| 0 <= i < outcomes.len() ==> outcomes[i] is Ok
}

/// A job whose every insert succeeds reaches `Done` once enough steps have
/// run: an in-progress job with `n` of `total` records inserted is `Done`
/// after any `total - n` or more successful steps, with its title and total
/// unchanged.
pub proof fn lemma_all_ok_reaches_done(t: TaskView, outcomes: Seq<Result<(), Seq<char>>>)
    requires
        t.status matches StatusView::Padding(n) && n < t.total,
        all_ok(outcomes),
        (t.status matches StatusView::Padding(n) ==> n + outcomes.len() >= t.total),
    ensures
        run_steps(t, outcomes).status is Done,
        run_steps(t, outcomes).total == t.total,
        run_steps(t, outcomes).title == t.title,
    decreases outcomes.len(),
{
    let t1 = step_view(t, outcomes[0]);
    if t1.status is Done {
        lemma_terminal_immutable(t1, outcomes.drop_first());
    } else {
        lemma_all_ok_reaches_done(t1, outcomes.drop_first());
    }
}

/// A failed insert moves an in-progress job to `Failed` with a non-empty
/// reason that captures the store's error description, and no later step
/// changes the job again.
pub proof fn lemma_failure_recorded(t: TaskView, m: Seq<char>, later: Seq<Result<(), Seq<char>>>)
    requires
        t.status matches StatusView::Padding(_),
    ensures
        step_view(t, Result::Err(m)).status matches StatusView::Failed(r) && r == failed_reason(m)
            && r.len() > 0,
        run_steps(step_view(t, Result::Err(m)), later) == step_view(t, Result::Err(m)),
{
    lemma_failed_reason_nonempty(m);
    lemma_terminal_immutable(step_view(t, Result::Err(m)), later);
}

/// Relies on uuid::Uuid::new_v4 to draw a fresh random 128-bit job id;
/// nothing is promised of the value.
#[verifier::external_body]
fn fresh_task_id() -> u128 {
    uuid::Uuid::new_v4().as_u128()
}

} // verus!
