use vstd::prelude::*;

use crate::gluetun::controller::{
    GluetunError, GluetunRestartOutcome, error_text, outcome_text,
};
use crate::job_tracking::task::{duplicate_text, TaskState, TaskType};
use crate::text::opt_view;

verus! {

/// Consecutive failures of one kind after which a VPN restart is considered.
pub const MAX_CONSECUTIVE_FAILURES_BEFORE_RESTART: u64 = 3;

/// Seconds that must have passed since the last success and the last restart
/// before another restart is allowed.
pub const MIN_SUCCESS_AGE_BEFORE_RESTART_SECS: u64 = 30 * 60;

/// Milliseconds in one second of the registry's clock.
pub const MILLIS_PER_SEC: u64 = 1000;

/// Bookkeeping of the VPN restarts recorded against one task kind.
#[derive(Debug)]
pub struct RestartMetrics {
    pub count: u64,
    pub last_started: Option<u64>,
    pub last_completed: Option<u64>,
    pub last_outcome: Option<String>,
    pub last_error: Option<String>,
    pub in_progress: bool,
}

/// Counters of one task kind.
#[derive(Debug)]
pub struct TaskMetricData {
    pub success: u64,
    pub failure: u64,
    pub consecutive_failures: u64,
    pub last_success: Option<u64>,
    pub last_failure: Option<u64>,
    pub restart: RestartMetrics,
}

/// Published metrics of one task kind, with ages in whole seconds.
#[derive(Debug, Clone)]
pub struct TaskMetrics {
    pub success_count: u64,
    pub failure_count: u64,
    pub consecutive_failures: u64,
    pub last_success_seconds_ago: Option<u64>,
    pub last_failure_seconds_ago: Option<u64>,
    pub restart_count: u64,
    pub last_restart_seconds_ago: Option<u64>,
    pub last_restart_outcome: Option<String>,
    pub last_restart_error: Option<String>,
    pub restart_in_progress: bool,
}

/// Published metrics of every task kind.
#[derive(Debug, Clone)]
pub struct AllMetrics {
    pub refresh_index: TaskMetrics,
    pub download_video: TaskMetrics,
    pub gluetun_enabled: bool,
}

/// One more, stopping at the largest value.
pub open spec fn bumped(n: u64) -> u64 {
    if n < u64::MAX { (n + 1) as u64 } else { n }
}

/// Whole seconds from `at` to `now`; none when `at` lies after `now`.
pub open spec fn seconds_between(at: u64, now: u64) -> Option<u64> {
    if at <= now { Some(((now - at) / 1000) as u64) } else { None }
}

pub open spec fn age_of(at: Option<u64>, now: u64) -> Option<u64> {
    match at {
        Some(t) => seconds_between(t, now),
        None => None,
    }
}

/// The instant that the age of the last restart is measured from: its start
/// while it runs, else its end, else its start.
pub open spec fn restart_reference(r: RestartMetrics) -> Option<u64> {
    if r.in_progress {
        r.last_started
    } else {
        match r.last_completed {
            Some(t) => Some(t),
            None => r.last_started,
        }
    }
}

pub open spec fn published_metrics(d: TaskMetricData, now: u64) -> TaskMetrics {
    TaskMetrics {
        success_count: d.success,
        failure_count: d.failure,
        consecutive_failures: d.consecutive_failures,
        last_success_seconds_ago: age_of(d.last_success, now),
        last_failure_seconds_ago: age_of(d.last_failure, now),
        restart_count: d.restart.count,
        last_restart_seconds_ago: age_of(restart_reference(d.restart), now),
        last_restart_outcome: d.restart.last_outcome,
        last_restart_error: d.restart.last_error,
        restart_in_progress: d.restart.in_progress,
    }
}

pub fn age(at: Option<u64>, now: u64) -> (r: Option<u64>)
    ensures
        r == age_of(at, now),
{
    match at {
        Some(t) => if t <= now {
            Some((now - t) / MILLIS_PER_SEC)
        } else {
            None
        },
        None => None,
    }
}

impl RestartMetrics {
    pub fn new() -> (r: RestartMetrics)
        ensures
            r.count == 0,
            r.last_started is None,
            r.last_completed is None,
            r.last_outcome is None,
            r.last_error is None,
            !r.in_progress,
    {
        RestartMetrics {
            count: 0,
            last_started: None,
            last_completed: None,
            last_outcome: None,
            last_error: None,
            in_progress: false,
        }
    }
}

/// Counters after a task of this kind was finalized in the given state: a
/// failure extends the streak of failures, a completion ends it, any other
/// state changes nothing.
pub open spec fn after_finalize(d: TaskMetricData, state: TaskState, now: u64) -> TaskMetricData {
    match state {
        TaskState::Failed(_) => TaskMetricData {
            failure: bumped(d.failure),
            consecutive_failures: bumped(d.consecutive_failures),
            last_failure: Some(now),
            ..d
        },
        TaskState::Completed => TaskMetricData {
            success: bumped(d.success),
            consecutive_failures: 0,
            last_success: Some(now),
            ..d
        },
        _ => d,
    }
}

/// Counters after a restart recorded against this kind began.
pub open spec fn after_restart_begin(d: TaskMetricData, now: u64) -> TaskMetricData {
    TaskMetricData {
        restart: RestartMetrics {
            in_progress: true,
            last_started: Some(now),
            last_error: None,
            last_outcome: None,
            ..d.restart
        },
        ..d
    }
}

/// Counters after a restart recorded against this kind ended. A success
/// ends the streak of failures only when this kind triggered the restart.
pub open spec fn restart_finished(
    d: TaskMetricData,
    e: TaskMetricData,
    triggered: bool,
    outcome: Result<GluetunRestartOutcome, GluetunError>,
    now: u64,
) -> bool {
    &&& e.success == d.success
    &&& e.failure == d.failure
    &&& e.last_success == d.last_success
    &&& e.last_failure == d.last_failure
    &&& e.restart.last_started == d.restart.last_started
    &&& !e.restart.in_progress
    &&& e.restart.last_completed == Some(now)
    &&& match outcome {
        Ok(o) => {
            &&& e.consecutive_failures == (if triggered { 0 } else { d.consecutive_failures })
            &&& e.restart.count == bumped(d.restart.count)
            &&& opt_view(e.restart.last_outcome) == Some(outcome_text(o))
            &&& e.restart.last_error is None
        },
        Err(er) => {
            &&& e.consecutive_failures == d.consecutive_failures
            &&& e.restart.count == d.restart.count
            &&& e.restart.last_outcome == d.restart.last_outcome
            &&& opt_view(e.restart.last_error) == Some(error_text(er))
        },
    }
}

impl TaskMetricData {
    pub open spec fn is_fresh(&self) -> bool {
        &&& self.success == 0
        &&& self.failure == 0
        &&& self.consecutive_failures == 0
        &&& self.last_success is None
        &&& self.last_failure is None
        &&& self.restart.count == 0
        &&& self.restart.last_started is None
        &&& self.restart.last_completed is None
        &&& self.restart.last_outcome is None
        &&& self.restart.last_error is None
        &&& !self.restart.in_progress
    }

    pub fn new() -> (r: TaskMetricData)
        ensures
            r.is_fresh(),
    {
        TaskMetricData {
            success: 0,
            failure: 0,
            consecutive_failures: 0,
            last_success: None,
            last_failure: None,
            restart: RestartMetrics::new(),
        }
    }

    pub fn record_finalize(&mut self, state: &TaskState, now: u64)
        ensures
            *final(self) == after_finalize(*old(self), *state, now),
    {
        match state {
            TaskState::Failed(_) => {
                self.failure = self.failure.saturating_add(1);
                self.consecutive_failures = self.consecutive_failures.saturating_add(1);
                self.last_failure = Some(now);
            },
            TaskState::Completed => {
                self.success = self.success.saturating_add(1);
                self.consecutive_failures = 0;
                self.last_success = Some(now);
            },
            _ => {},
        }
    }

    pub fn record_restart_begin(&mut self, now: u64)
        ensures
            *final(self) == after_restart_begin(*old(self), now),
    {
        self.restart.in_progress = true;
        self.restart.last_started = Some(now);
        self.restart.last_error = None;
        self.restart.last_outcome = None;
    }

    pub fn record_restart_finish(
        &mut self,
        triggered: bool,
        outcome: &Result<GluetunRestartOutcome, GluetunError>,
        now: u64,
    )
        ensures
            restart_finished(*old(self), *final(self), triggered, *outcome, now),
    {
        self.restart.in_progress = false;
        self.restart.last_completed = Some(now);
        match outcome {
            Ok(o) => {
                self.restart.count = self.restart.count.saturating_add(1);
                self.restart.last_outcome = Some(o.describe());
                self.restart.last_error = None;
                if triggered {
                    self.consecutive_failures = 0;
                }
            },
            Err(e) => {
                self.restart.last_error = Some(e.message());
            },
        }
    }

    pub fn snapshot(&self, now: u64) -> (r: TaskMetrics)
        ensures
            r == published_metrics(*self, now),
    {
        let reference = if self.restart.in_progress {
            self.restart.last_started
        } else {
            match self.restart.last_completed {
                Some(t) => Some(t),
                None => self.restart.last_started,
            }
        };
        TaskMetrics {
            success_count: self.success,
            failure_count: self.failure,
            consecutive_failures: self.consecutive_failures,
            last_success_seconds_ago: age(self.last_success, now),
            last_failure_seconds_ago: age(self.last_failure, now),
            restart_count: self.restart.count,
            last_restart_seconds_ago: age(reference, now),
            last_restart_outcome: duplicate_text(&self.restart.last_outcome),
            last_restart_error: duplicate_text(&self.restart.last_error),
            restart_in_progress: self.restart.in_progress,
        }
    }
}

impl AllMetrics {
    pub open spec fn spec_get(&self, kind: TaskType) -> TaskMetrics {
        match kind {
            TaskType::RefreshIndex => self.refresh_index,
            TaskType::DownloadVideo => self.download_video,
        }
    }

    /// Metrics of one task kind.
    pub fn get(&self, kind: TaskType) -> (r: &TaskMetrics)
        ensures
            *r == self.spec_get(kind),
    {
        match kind {
            TaskType::RefreshIndex => &self.refresh_index,
            TaskType::DownloadVideo => &self.download_video,
        }
    }
}

/// Success and failure counts never decrease. The streak of failures ends
/// exactly when a task of the kind completes, or when a restart that this
/// kind triggered succeeds; a failure extends it and nothing else changes
/// it.
pub proof fn lemma_counters_monotone(
    d: TaskMetricData,
    state: TaskState,
    e: TaskMetricData,
    triggered: bool,
    outcome: Result<GluetunRestartOutcome, GluetunError>,
    now: u64,
)
    requires
        restart_finished(d, e, triggered, outcome, now),
    ensures
        after_finalize(d, state, now).success >= d.success,
        after_finalize(d, state, now).failure >= d.failure,
        after_finalize(d, state, now).consecutive_failures == match state {
            TaskState::Completed => 0,
            TaskState::Failed(_) => bumped(d.consecutive_failures),
            _ => d.consecutive_failures,
        },
        e.success == d.success,
        e.failure == d.failure,
        e.consecutive_failures == (if triggered && outcome is Ok {
            0
        } else {
            d.consecutive_failures
        }),
{
}

} // verus!
