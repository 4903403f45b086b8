use vstd::prelude::*;

use crate::gluetun::controller::{GluetunError, GluetunRestartOutcome};
use crate::job_tracking::metrics::{
    AllMetrics, TaskMetricData, after_finalize, after_restart_begin, published_metrics,
    restart_finished,
};
use crate::job_tracking::task::{TaskState, TaskStatus, TaskType, TaskUpdate, published};
use crate::text::same_text;

verus! {

/// Registry of in-flight and recently finished tasks, with per-kind metrics
/// and the flags that guard VPN restarts. Instants are milliseconds on a
/// monotonic clock that the caller reads.
#[derive(Debug)]
pub struct TaskManager {
    pub tasks: Vec<TaskStatus>,
    pub refresh: TaskMetricData,
    pub download: TaskMetricData,
    pub gluetun_enabled: bool,
    pub gluetun_restart_in_progress: bool,
}

/// No two records share an id.
pub open spec fn ids_unique(s: Seq<TaskStatus>) -> bool {
    forall|i: int, j: int|
        0 <= i < s.len() && 0 <= j < s.len() && i != j ==> s[i].id@ != s[j].id@
}

pub open spec fn holds_id(s: Seq<TaskStatus>, id: Seq<char>, i: int) -> bool {
    0 <= i < s.len() && s[i].id@ == id
}

/// Position of the record with the given id, if any.
pub open spec fn task_index(s: Seq<TaskStatus>, id: Seq<char>) -> Option<int> {
    if exists|i: int| holds_id(s, id, i) {
        Some(choose|i: int| holds_id(s, id, i))
    } else {
        None
    }
}

/// The records after applying `f` to the one with the given id.
pub open spec fn apply_to(
    s: Seq<TaskStatus>,
    id: Seq<char>,
    f: spec_fn(TaskStatus) -> TaskStatus,
) -> Seq<TaskStatus> {
    match task_index(s, id) {
        Some(i) => s.update(i, f(s[i])),
        None => s,
    }
}

/// The records after inserting `t`, replacing a record with the same id.
pub open spec fn inserted(s: Seq<TaskStatus>, t: TaskStatus) -> Seq<TaskStatus> {
    match task_index(s, t.id@) {
        Some(i) => s.update(i, t),
        None => s.push(t),
    }
}

pub open spec fn queued_record(id: String, kind: TaskType, title: String, now: u64) -> TaskStatus {
    TaskStatus {
        id,
        task_type: kind,
        title,
        created_at: now,
        state: TaskState::Queued,
        completed_at: None,
        status: None,
    }
}

pub open spec fn with_title(t: TaskStatus, title: String) -> TaskStatus {
    TaskStatus { title, ..t }
}

pub open spec fn with_status(t: TaskStatus, status: String) -> TaskStatus {
    TaskStatus { status: Some(status), ..t }
}

pub open spec fn started(t: TaskStatus) -> TaskStatus {
    TaskStatus { state: TaskState::InProgress, ..t }
}

pub open spec fn failed(t: TaskStatus, message: String, now: u64) -> TaskStatus {
    TaskStatus { state: TaskState::Failed(message), completed_at: Some(now), ..t }
}

pub open spec fn completed(t: TaskStatus, now: u64) -> TaskStatus {
    TaskStatus { state: TaskState::Completed, completed_at: Some(now), ..t }
}

/// A finalized record carries a completion instant; an existing one is kept.
pub open spec fn finalized(t: TaskStatus, now: u64) -> TaskStatus {
    match t.completed_at {
        Some(_) => t,
        None => TaskStatus { completed_at: Some(now), ..t },
    }
}

/// Milliseconds that a finalized record stays visible: failures linger
/// longer so that their message can be read.
pub open spec fn retention_ms(s: TaskState) -> int {
    match s {
        TaskState::Failed(_) => 30_000,
        _ => 5_000,
    }
}

/// A record is dropped by the sweep once more than its retention has passed
/// since it was finalized.
pub open spec fn expired(t: TaskStatus, now: u64) -> bool {
    match t.completed_at {
        Some(c) => c <= now && now - c > retention_ms(t.state),
        None => false,
    }
}

/// The records that survive a sweep at `now`.
pub open spec fn retained(s: Seq<TaskStatus>, now: u64) -> Seq<TaskStatus> {
    s.filter(|t: TaskStatus| !expired(t, now))
}

/// The kind whose restart bookkeeping records a restart; one that no kind
/// triggered is recorded against downloads.
pub open spec fn restart_kind(trigger: Option<TaskType>) -> TaskType {
    match trigger {
        Some(k) => k,
        None => TaskType::DownloadVideo,
    }
}

/// Relies on `uuid::Uuid::new_v4` and its `Display`: a fresh random id in
/// hyphenated form, which is 36 characters long.
#[verifier::external_body]
fn new_task_id() -> (r: String)
    ensures
        r@.len() == 36,
{
    uuid::Uuid::new_v4().to_string()
}

pub proof fn lemma_index_found(s: Seq<TaskStatus>, id: Seq<char>, i: int)
    requires
        ids_unique(s),
        holds_id(s, id, i),
    ensures
        task_index(s, id) == Some(i),
{
    let j = choose|j: int| holds_id(s, id, j);
    assert(holds_id(s, id, j));
}

impl TaskManager {
    pub open spec fn wf(&self) -> bool {
        ids_unique(self.tasks@)
    }

    pub open spec fn data(&self, kind: TaskType) -> TaskMetricData {
        match kind {
            TaskType::RefreshIndex => self.refresh,
            TaskType::DownloadVideo => self.download,
        }
    }

    /// Only the counters of `k` may differ between the two registries.
    pub open spec fn others_kept(&self, other: &TaskManager, k: TaskType) -> bool {
        &&& forall|j: TaskType| j != k ==> #[trigger] self.data(j) == other.data(j)
        &&& self.gluetun_enabled == other.gluetun_enabled
        &&& self.gluetun_restart_in_progress == other.gluetun_restart_in_progress
    }

    /// Everything but the task list is the same in both registries.
    pub open spec fn same_metrics(&self, other: &TaskManager) -> bool {
        &&& self.refresh == other.refresh
        &&& self.download == other.download
        &&& self.gluetun_enabled == other.gluetun_enabled
        &&& self.gluetun_restart_in_progress == other.gluetun_restart_in_progress
    }

    /// An empty registry with fresh metrics for every kind and the VPN
    /// integration disabled.
    pub fn new() -> (r: TaskManager)
        ensures
            r.wf(),
            r.tasks@.len() == 0,
            r.refresh.is_fresh(),
            r.download.is_fresh(),
            !r.gluetun_enabled,
            !r.gluetun_restart_in_progress,
    {
        TaskManager {
            tasks: Vec::new(),
            refresh: TaskMetricData::new(),
            download: TaskMetricData::new(),
            gluetun_enabled: false,
            gluetun_restart_in_progress: false,
        }
    }

    /// Position of the record with the given id.
    pub fn find(&self, id: &str) -> (r: Option<usize>)
        requires
            self.wf(),
        ensures
            match r {
                Some(i) => i < self.tasks@.len() && task_index(self.tasks@, id@) == Some(i as int),
                None => task_index(self.tasks@, id@) is None,
            },
    {
        let mut i: usize = 0;
        while i < self.tasks.len()
            invariant
                i <= self.tasks@.len(),
                self.wf(),
                forall|j: int| 0 <= j < i ==> self.tasks@[j].id@ != id@,
            decreases self.tasks@.len() - i,
        {
            if same_text(self.tasks[i].id.as_str(), id) {
                proof {
                    lemma_index_found(self.tasks@, id@, i as int);
                }
                return Some(i);
            }
            i = i + 1;
        }
        None
    }

    /// The record with the given id.
    pub fn task(&self, id: &str) -> (r: Option<&TaskStatus>)
        requires
            self.wf(),
        ensures
            match task_index(self.tasks@, id@) {
                Some(i) => r == Some(&self.tasks@[i]),
                None => r is None,
            },
    {
        match self.find(id) {
            Some(i) => Some(&self.tasks[i]),
            None => None,
        }
    }

    /// Replaces the record at `i` by one built from it.
    fn rewrite(&mut self, i: usize, t: TaskStatus)
        requires
            old(self).wf(),
            i < old(self).tasks@.len(),
            t.id@ == old(self).tasks@[i as int].id@,
        ensures
            final(self).wf(),
            final(self).tasks@ == old(self).tasks@.update(i as int, t),
            final(self).same_metrics(old(self)),
    {
        self.tasks.set(i, t);
    }

    /// Registers a queued task under the given id; a record with the same
    /// id is replaced.
    pub fn add_task_with_id(&mut self, id: String, kind: TaskType, title: String, now: u64)
        requires
            old(self).wf(),
        ensures
            final(self).wf(),
            final(self).tasks@ == inserted(old(self).tasks@, queued_record(id, kind, title, now)),
            final(self).same_metrics(old(self)),
    {
        let ghost rec = queued_record(id, kind, title, now);
        let found = self.find(id.as_str());
        let t = TaskStatus {
            id,
            task_type: kind,
            title,
            created_at: now,
            state: TaskState::Queued,
            completed_at: None,
            status: None,
        };
        match found {
            Some(i) => {
                self.rewrite(i, t);
            },
            None => {
                self.tasks.push(t);
                assert forall|a: int, b: int|
                    0 <= a < self.tasks@.len() && 0 <= b < self.tasks@.len() && a != b implies
                    self.tasks@[a].id@ != self.tasks@[b].id@ by {
                    if a == self.tasks@.len() - 1 {
                        assert(!holds_id(old(self).tasks@, rec.id@, b));
                    } else if b == self.tasks@.len() - 1 {
                        assert(!holds_id(old(self).tasks@, rec.id@, a));
                    }
                }
            },
        }
    }

    /// Sets the title of the task with the given id.
    pub fn update_task_title(&mut self, id: &str, title: String)
        requires
            old(self).wf(),
        ensures
            final(self).wf(),
            final(self).tasks@ == apply_to(old(self).tasks@, id@, |t| with_title(t, title)),
            final(self).same_metrics(old(self)),
    {
        if let Some(i) = self.find(id) {
            let t = self.tasks.remove(i);
            let u = TaskStatus { title, ..t };
            self.tasks.insert(i, u);
            assert(self.tasks@ =~= old(self).tasks@.update(i as int, u));
        }
    }

    /// Sets the progress line of the task with the given id.
    pub fn update_task_status(&mut self, id: &str, status: String)
        requires
            old(self).wf(),
        ensures
            final(self).wf(),
            final(self).tasks@ == apply_to(old(self).tasks@, id@, |t| with_status(t, status)),
            final(self).same_metrics(old(self)),
    {
        if let Some(i) = self.find(id) {
            let t = self.tasks.remove(i);
            let u = TaskStatus { status: Some(status), ..t };
            self.tasks.insert(i, u);
            assert(self.tasks@ =~= old(self).tasks@.update(i as int, u));
        }
    }

    /// Marks the task with the given id as running.
    pub fn mark_task_started(&mut self, id: &str)
        requires
            old(self).wf(),
        ensures
            final(self).wf(),
            final(self).tasks@ == apply_to(old(self).tasks@, id@, |t| started(t)),
            final(self).same_metrics(old(self)),
    {
        if let Some(i) = self.find(id) {
            let t = self.tasks.remove(i);
            let u = TaskStatus { state: TaskState::InProgress, ..t };
            self.tasks.insert(i, u);
            assert(self.tasks@ =~= old(self).tasks@.update(i as int, u));
        }
    }

    /// Marks the task with the given id as failed with a message.
    pub fn mark_task_failed(&mut self, id: &str, error_message: String, now: u64)
        requires
            old(self).wf(),
        ensures
            final(self).wf(),
            final(self).tasks@ == apply_to(
                old(self).tasks@,
                id@,
                |t| failed(t, error_message, now),
            ),
            final(self).same_metrics(old(self)),
    {
        if let Some(i) = self.find(id) {
            let t = self.tasks.remove(i);
            let u = TaskStatus {
                state: TaskState::Failed(error_message),
                completed_at: Some(now),
                ..t
            };
            self.tasks.insert(i, u);
            assert(self.tasks@ =~= old(self).tasks@.update(i as int, u));
        }
    }

    /// Registers a queued task under a fresh random id and returns the id.
    pub fn add_task(&mut self, kind: TaskType, title: String, now: u64) -> (id: String)
        requires
            old(self).wf(),
        ensures
            id@.len() == 36,
            final(self).wf(),
            final(self).tasks@ == inserted(old(self).tasks@, queued_record(id, kind, title, now)),
            final(self).same_metrics(old(self)),
    {
        let id = new_task_id();
        let copy = id.clone();
        self.add_task_with_id(id, kind, title, now);
        copy
    }

    fn record_finalize(&mut self, kind: TaskType, state: &TaskState, now: u64)
        ensures
            final(self).tasks == old(self).tasks,
            final(self).gluetun_enabled == old(self).gluetun_enabled,
            final(self).gluetun_restart_in_progress == old(self).gluetun_restart_in_progress,
            final(self).refresh == if kind == TaskType::RefreshIndex {
                after_finalize(old(self).refresh, *state, now)
            } else {
                old(self).refresh
            },
            final(self).download == if kind == TaskType::DownloadVideo {
                after_finalize(old(self).download, *state, now)
            } else {
                old(self).download
            },
    {
        match kind {
            TaskType::RefreshIndex => self.refresh.record_finalize(state, now),
            TaskType::DownloadVideo => self.download.record_finalize(state, now),
        }
    }

    /// Finalizes the task with the given id: it receives a completion
    /// instant if it has none, and the counters of its kind take its state
    /// into account.
    pub fn remove_task(&mut self, id: &str, now: u64)
        requires
            old(self).wf(),
        ensures
            final(self).wf(),
            match task_index(old(self).tasks@, id@) {
                None => final(self).tasks@ == old(self).tasks@ && final(self).same_metrics(old(self)),
                Some(i) => {
                    let t = old(self).tasks@[i];
                    &&& final(self).tasks@ == old(self).tasks@.update(i, finalized(t, now))
                    &&& final(self).data(t.task_type) == after_finalize(
                        old(self).data(t.task_type),
                        t.state,
                        now,
                    )
                    &&& final(self).others_kept(old(self), t.task_type)
                },
            },
    {
        if let Some(i) = self.find(id) {
            let t = self.tasks.remove(i);
            let kind = t.task_type;
            let u = match t.completed_at {
                Some(_) => t,
                None => TaskStatus { completed_at: Some(now), ..t },
            };
            self.record_finalize(kind, &u.state, now);
            self.tasks.insert(i, u);
            assert(self.tasks@ =~= old(self).tasks@.update(i as int, u));
        }
    }

    /// Marks the task with the given id as completed and finalizes it.
    pub fn complete_task(&mut self, id: &str, now: u64)
        requires
            old(self).wf(),
        ensures
            final(self).wf(),
            match task_index(old(self).tasks@, id@) {
                None => final(self).tasks@ == old(self).tasks@ && final(self).same_metrics(old(self)),
                Some(i) => {
                    let t = old(self).tasks@[i];
                    &&& final(self).tasks@ == old(self).tasks@.update(i, completed(t, now))
                    &&& final(self).data(t.task_type) == after_finalize(
                        old(self).data(t.task_type),
                        TaskState::Completed,
                        now,
                    )
                    &&& final(self).others_kept(old(self), t.task_type)
                },
            },
    {
        if let Some(i) = self.find(id) {
            let t = self.tasks.remove(i);
            let kind = t.task_type;
            let u = TaskStatus { state: TaskState::Completed, completed_at: Some(now), ..t };
            self.record_finalize(kind, &u.state, now);
            self.tasks.insert(i, u);
            assert(self.tasks@ =~= old(self).tasks@.update(i as int, u));
        }
    }

    /// Drops the finalized records whose retention has passed.
    pub fn cleanup_old_tasks(&mut self, now: u64)
        requires
            old(self).wf(),
        ensures
            final(self).wf(),
            final(self).tasks@ == retained(old(self).tasks@, now),
            final(self).same_metrics(old(self)),
    {
        let mut kept: Vec<TaskStatus> = Vec::new();
        let mut i: usize = 0;
        while i < self.tasks.len()
            invariant
                *self == *old(self),
                i <= self.tasks@.len(),
                kept@ == retained(self.tasks@.take(i as int), now),
                ids_unique(self.tasks@),
                ids_unique(kept@),
                forall|k: int|
                    0 <= k < kept@.len() ==> exists|j: int|
                        0 <= j < i && #[trigger] kept@[k] == self.tasks@[j],
            decreases self.tasks@.len() - i,
        {
            proof {
                reveal(Seq::filter);
                assert(self.tasks@.take(i + 1).drop_last() =~= self.tasks@.take(i as int));
            }
            let t = &self.tasks[i];
            if !self.is_expired(t, now) {
                let c = t.duplicate();
                proof {
                    assert forall|k: int| 0 <= k < kept@.len() implies kept@[k].id@ != c.id@ by {
                        let j = choose|j: int| 0 <= j < i && #[trigger] kept@[k] == self.tasks@[j];
                        assert(j != i);
                    }
                }
                kept.push(c);
                proof {
                    assert forall|k: int|
                        0 <= k < kept@.len() implies exists|j: int|
                            0 <= j < i + 1 && #[trigger] kept@[k] == self.tasks@[j] by {
                        if k == kept@.len() - 1 {
                            assert(kept@[k] == self.tasks@[i as int]);
                        } else {
                            let j = choose|j: int| 0 <= j < i && #[trigger] kept@[k] == self.tasks@[j];
                            assert(kept@[k] == self.tasks@[j]);
                        }
                    }
                }
            }
            i = i + 1;
        }
        assert(self.tasks@.take(i as int) =~= self.tasks@);
        self.tasks = kept;
    }

    fn is_expired(&self, t: &TaskStatus, now: u64) -> (r: bool)
        ensures
            r == expired(*t, now),
    {
        match t.completed_at {
            Some(c) => {
                let limit: u64 = match t.state {
                    TaskState::Failed(_) => 30_000,
                    _ => 5_000,
                };
                c <= now && now - c > limit
            },
            None => false,
        }
    }

    /// Published metrics of every kind, with ages measured at `now`.
    pub fn get_metrics(&self, now: u64) -> (r: AllMetrics)
        ensures
            r.refresh_index == published_metrics(self.refresh, now),
            r.download_video == published_metrics(self.download, now),
            r.gluetun_enabled == self.gluetun_enabled,
    {
        AllMetrics {
            refresh_index: self.refresh.snapshot(now),
            download_video: self.download.snapshot(now),
            gluetun_enabled: self.gluetun_enabled,
        }
    }

    /// Snapshot of the task list, in registry order.
    pub fn task_update(&self) -> (r: TaskUpdate)
        ensures
            r.tasks@ == self.tasks@.map_values(|t: TaskStatus| published(t)),
    {
        let mut out: Vec<crate::job_tracking::task::SerializableTaskStatus> = Vec::new();
        let mut i: usize = 0;
        while i < self.tasks.len()
            invariant
                i <= self.tasks@.len(),
                out@ == self.tasks@.take(i as int).map_values(|t: TaskStatus| published(t)),
            decreases self.tasks@.len() - i,
        {
            out.push(self.tasks[i].to_serializable());
            i = i + 1;
            assert(out@ =~= self.tasks@.take(i as int).map_values(|t: TaskStatus| published(t)));
        }
        assert(self.tasks@.take(i as int) =~= self.tasks@);
        TaskUpdate { tasks: out }
    }

    pub fn gluetun_enabled(&self) -> (r: bool)
        ensures
            r == self.gluetun_enabled,
    {
        self.gluetun_enabled
    }

    /// Turns the VPN integration on or off; turning it off also abandons a
    /// restart in progress.
    pub fn set_gluetun_enabled(&mut self, enabled: bool)
        requires
            old(self).wf(),
        ensures
            final(self).wf(),
            final(self).tasks == old(self).tasks,
            final(self).gluetun_enabled == enabled,
            enabled ==> final(self).same_metrics(&TaskManager { gluetun_enabled: true, ..*old(self) }),
            !enabled ==> {
                &&& !final(self).gluetun_restart_in_progress
                &&& forall|k: TaskType| #[trigger] final(self).data(k) == (TaskMetricData {
                    restart: crate::job_tracking::metrics::RestartMetrics {
                        in_progress: false,
                        ..old(self).data(k).restart
                    },
                    ..old(self).data(k)
                })
            },
    {
        self.gluetun_enabled = enabled;
        if !enabled {
            self.gluetun_restart_in_progress = false;
            self.refresh.restart.in_progress = false;
            self.download.restart.in_progress = false;
        }
    }

    /// Claims the single restart slot. Succeeds exactly when the VPN
    /// integration is enabled and no restart is in progress; the restart is
    /// then recorded against the triggering kind.
    pub fn begin_gluetun_restart(&mut self, trigger: Option<TaskType>, now: u64) -> (r: bool)
        requires
            old(self).wf(),
        ensures
            final(self).wf(),
            r == (old(self).gluetun_enabled && !old(self).gluetun_restart_in_progress),
            !r ==> *final(self) == *old(self),
            r ==> {
                let k = restart_kind(trigger);
                &&& final(self).tasks == old(self).tasks
                &&& final(self).gluetun_restart_in_progress
                &&& final(self).gluetun_enabled == old(self).gluetun_enabled
                &&& final(self).data(k) == after_restart_begin(old(self).data(k), now)
                &&& forall|j: TaskType| j != k ==> #[trigger] final(self).data(j) == old(self).data(j)
            },
    {
        if !self.gluetun_enabled || self.gluetun_restart_in_progress {
            return false;
        }
        self.gluetun_restart_in_progress = true;
        match trigger {
            Some(TaskType::RefreshIndex) => self.refresh.record_restart_begin(now),
            _ => self.download.record_restart_begin(now),
        }
        true
    }

    /// Releases the restart slot and records the outcome against the
    /// triggering kind; a successful restart ends that kind's streak of
    /// failures.
    pub fn finish_gluetun_restart(
        &mut self,
        trigger: Option<TaskType>,
        outcome: &Result<GluetunRestartOutcome, GluetunError>,
        now: u64,
    )
        requires
            old(self).wf(),
        ensures
            final(self).wf(),
            final(self).tasks == old(self).tasks,
            !final(self).gluetun_restart_in_progress,
            final(self).gluetun_enabled == old(self).gluetun_enabled,
            restart_finished(
                old(self).data(restart_kind(trigger)),
                final(self).data(restart_kind(trigger)),
                trigger == Some(restart_kind(trigger)),
                *outcome,
                now,
            ),
            forall|j: TaskType|
                j != restart_kind(trigger) ==> #[trigger] final(self).data(j) == old(self).data(j),
    {
        let triggered = trigger.is_some();
        match trigger {
            Some(TaskType::RefreshIndex) => self.refresh.record_restart_finish(
                triggered,
                outcome,
                now,
            ),
            _ => self.download.record_restart_finish(triggered, outcome, now),
        }
        self.gluetun_restart_in_progress = false;
    }
}

} // verus!
