use vstd::prelude::*;

use crate::job_tracking::manager::{TaskManager, restart_kind};
use crate::job_tracking::metrics::{
    AllMetrics, TaskMetrics, after_restart_begin, MAX_CONSECUTIVE_FAILURES_BEFORE_RESTART,
    MIN_SUCCESS_AGE_BEFORE_RESTART_SECS,
};
use crate::job_tracking::task::TaskType;

verus! {

/// The time gate of a restart: open when neither a success nor a restart
/// was ever seen, else only when the younger of the two is at least the
/// minimum age.
pub open spec fn gate_open(m: TaskMetrics) -> bool {
    let t = MIN_SUCCESS_AGE_BEFORE_RESTART_SECS;
    match (m.last_success_seconds_ago, m.last_restart_seconds_ago) {
        (None, None) => true,
        (Some(s), None) => s >= t,
        (None, Some(r)) => r >= t,
        (Some(s), Some(r)) => s >= t && r >= t,
    }
}

/// A kind asks for a restart when none is running, its streak of failures
/// reached the threshold, and the time gate is open.
pub open spec fn wants_restart(m: TaskMetrics) -> bool {
    &&& !m.restart_in_progress
    &&& m.consecutive_failures >= MAX_CONSECUTIVE_FAILURES_BEFORE_RESTART
    &&& gate_open(m)
}

/// The kind that triggers a restart; downloads take precedence.
pub open spec fn trigger_of(m: AllMetrics) -> Option<TaskType> {
    if wants_restart(m.download_video) {
        Some(TaskType::DownloadVideo)
    } else if wants_restart(m.refresh_index) {
        Some(TaskType::RefreshIndex)
    } else {
        None
    }
}

pub fn restart_gate_allows(metrics: &TaskMetrics) -> (r: bool)
    ensures
        r == gate_open(*metrics),
{
    let threshold_secs = MIN_SUCCESS_AGE_BEFORE_RESTART_SECS;
    match (metrics.last_success_seconds_ago, metrics.last_restart_seconds_ago) {
        (None, None) => true,
        (Some(success), None) => success >= threshold_secs,
        (None, Some(restart)) => restart >= threshold_secs,
        (Some(success), Some(restart)) => {
            let younger = if success < restart { success } else { restart };
            younger >= threshold_secs
        },
    }
}

pub fn should_trigger_restart(metrics: &TaskMetrics) -> (r: bool)
    ensures
        r == wants_restart(*metrics),
{
    if metrics.restart_in_progress {
        return false;
    }
    if metrics.consecutive_failures < MAX_CONSECUTIVE_FAILURES_BEFORE_RESTART {
        return false;
    }
    restart_gate_allows(metrics)
}

pub fn select_restart_trigger(metrics: &AllMetrics) -> (r: Option<TaskType>)
    ensures
        r == trigger_of(*metrics),
{
    if should_trigger_restart(metrics.get(TaskType::DownloadVideo)) {
        return Some(TaskType::DownloadVideo);
    }
    if should_trigger_restart(metrics.get(TaskType::RefreshIndex)) {
        return Some(TaskType::RefreshIndex);
    }
    None
}

/// Reacts to a metrics snapshot: when the integration is enabled and some
/// kind asks for a restart, claims the restart slot for it. Returns the kind
/// whose restart the caller must now run and then finish; none when nothing
/// is to be done or another restart holds the slot.
pub fn handle_metrics(all_metrics: &AllMetrics, task_manager: &mut TaskManager, now: u64) -> (r:
    Option<TaskType>)
    requires
        old(task_manager).wf(),
    ensures
        final(task_manager).wf(),
        r is Some ==> all_metrics.gluetun_enabled && r == trigger_of(*all_metrics),
        r is None ==> *final(task_manager) == *old(task_manager),
        match (all_metrics.gluetun_enabled, trigger_of(*all_metrics)) {
            (true, Some(k)) => (r == Some(k)) == (old(task_manager).gluetun_enabled
                && !old(task_manager).gluetun_restart_in_progress),
            _ => r is None,
        },
        r matches Some(k) ==> {
            &&& final(task_manager).tasks == old(task_manager).tasks
            &&& final(task_manager).gluetun_restart_in_progress
            &&& final(task_manager).data(k) == after_restart_begin(old(task_manager).data(k), now)
            &&& forall|j: TaskType|
                j != k ==> #[trigger] final(task_manager).data(j) == old(task_manager).data(j)
        },
{
    if !all_metrics.gluetun_enabled {
        return None;
    }
    let trigger = match select_restart_trigger(all_metrics) {
        Some(t) => t,
        None => return None,
    };
    if task_manager.begin_gluetun_restart(Some(trigger), now) {
        assert(restart_kind(Some(trigger)) == trigger);
        Some(trigger)
    } else {
        None
    }
}

/// Answer to a manual request to restart the VPN.
#[derive(Debug, Clone, Copy, PartialEq, Eq, Structural)]
pub enum ManualRestart {
    /// The VPN integration is not configured.
    Disabled,
    /// The integration is enabled but no controller is registered.
    ControllerMissing,
    /// Another restart holds the slot.
    AlreadyRunning,
    /// The slot was claimed; the caller runs the restart and finishes it
    /// without a triggering kind.
    Started,
}

impl ManualRestart {
    /// Severity shown with the answer.
    pub fn kind(&self) -> (r: &'static str)
        ensures
            r@ == match *self {
                ManualRestart::Started => "success"@,
                ManualRestart::AlreadyRunning => "warning"@,
                _ => "error"@,
            },
    {
        match self {
            ManualRestart::Started => "success",
            ManualRestart::AlreadyRunning => "warning",
            _ => "error",
        }
    }

    /// Text shown with the answer.
    pub fn message(&self) -> (r: &'static str)
        ensures
            r@ == match *self {
                ManualRestart::Disabled => "Gluetun integration is disabled. Set LOCALTUBE_GLUETUN_CONTROL_ADDR to enable it."@,
                ManualRestart::ControllerMissing => "Gluetun controller is not available. Check server logs."@,
                ManualRestart::AlreadyRunning => "VPN restart is already in progress."@,
                ManualRestart::Started => "VPN restart triggered. Check server logs for progress."@,
            },
    {
        match self {
            ManualRestart::Disabled => "Gluetun integration is disabled. Set LOCALTUBE_GLUETUN_CONTROL_ADDR to enable it.",
            ManualRestart::ControllerMissing => "Gluetun controller is not available. Check server logs.",
            ManualRestart::AlreadyRunning => "VPN restart is already in progress.",
            ManualRestart::Started => "VPN restart triggered. Check server logs for progress.",
        }
    }
}

/// Handles a manual restart request. It claims the same single slot as the
/// automatic restarts, so the two never overlap.
pub fn manual_restart(task_manager: &mut TaskManager, has_controller: bool, now: u64) -> (r:
    ManualRestart)
    requires
        old(task_manager).wf(),
    ensures
        final(task_manager).wf(),
        r == (if !old(task_manager).gluetun_enabled {
            ManualRestart::Disabled
        } else if !has_controller {
            ManualRestart::ControllerMissing
        } else if old(task_manager).gluetun_restart_in_progress {
            ManualRestart::AlreadyRunning
        } else {
            ManualRestart::Started
        }),
        r != ManualRestart::Started ==> *final(task_manager) == *old(task_manager),
        r == ManualRestart::Started ==> {
            &&& final(task_manager).tasks == old(task_manager).tasks
            &&& final(task_manager).gluetun_restart_in_progress
            &&& final(task_manager).data(TaskType::DownloadVideo) == after_restart_begin(
                old(task_manager).data(TaskType::DownloadVideo),
                now,
            )
            &&& final(task_manager).data(TaskType::RefreshIndex) == old(task_manager).data(
                TaskType::RefreshIndex,
            )
        },
{
    if !task_manager.gluetun_enabled() {
        return ManualRestart::Disabled;
    }
    if !has_controller {
        return ManualRestart::ControllerMissing;
    }
    if !task_manager.begin_gluetun_restart(None, now) {
        return ManualRestart::AlreadyRunning;
    }
    ManualRestart::Started
}

} // verus!
