use localtube::gluetun::controller::{GluetunError, GluetunRestartOutcome};
use localtube::job_tracking::manager::TaskManager;
use localtube::job_tracking::metrics::MAX_CONSECUTIVE_FAILURES_BEFORE_RESTART;
use localtube::job_tracking::task::{TaskState, TaskType};

fn state_of(m: &TaskManager, id: &str) -> TaskState {
    m.task(id).expect("task should exist").state.clone()
}

#[test]
fn task_type_names() {
    assert_eq!(TaskType::RefreshIndex.as_str(), "refresh_index");
    assert_eq!(TaskType::DownloadVideo.as_str(), "download_video");
}

#[test]
fn added_tasks_get_distinct_uuid_ids() {
    let mut m = TaskManager::new();
    let a = m.add_task(TaskType::DownloadVideo, "A".to_string(), 0);
    let b = m.add_task(TaskType::DownloadVideo, "B".to_string(), 0);
    assert_eq!(a.len(), 36);
    assert_ne!(a, b);
    assert_eq!(m.tasks.len(), 2);
}

#[test]
fn test_queued_to_active_transition() {
    let mut m = TaskManager::new();
    let id = m.add_task(TaskType::DownloadVideo, "Test Task".into(), 0);
    assert!(matches!(state_of(&m, &id), TaskState::Queued));
    m.mark_task_started(&id);
    assert!(matches!(state_of(&m, &id), TaskState::InProgress));
}

#[test]
fn test_active_task_complete() {
    let mut m = TaskManager::new();
    let id = m.add_task(TaskType::DownloadVideo, "Complete Task".into(), 0);
    m.mark_task_started(&id);
    m.complete_task(&id, 10);
    assert!(matches!(state_of(&m, &id), TaskState::Completed));
    let metrics = m.get_metrics(10);
    assert_eq!(metrics.download_video.success_count, 1);
    assert_eq!(metrics.download_video.consecutive_failures, 0);
    assert_eq!(metrics.download_video.last_success_seconds_ago, Some(0));
}

#[test]
fn test_active_task_failed() {
    let mut m = TaskManager::new();
    let id = m.add_task(TaskType::DownloadVideo, "Failed Task".into(), 0);
    m.mark_task_started(&id);
    m.mark_task_failed(&id, "Test error message".to_string(), 5);
    match state_of(&m, &id) {
        TaskState::Failed(msg) => assert_eq!(msg, "Test error message", "Error message mismatch"),
        other => panic!("Expected Failed state, got {:?}", other),
    }
    m.remove_task(&id, 6);
    let metrics = m.get_metrics(2_500);
    assert_eq!(metrics.download_video.failure_count, 1);
    assert_eq!(metrics.download_video.consecutive_failures, 1);
    assert_eq!(metrics.download_video.last_failure_seconds_ago, Some(2));
    assert_eq!(m.task(&id).unwrap().completed_at, Some(5));
}

#[test]
fn updates_title_and_status() {
    let mut m = TaskManager::new();
    let id = m.add_task(TaskType::RefreshIndex, "Old".into(), 0);
    m.update_task_title(&id, "New".into());
    m.update_task_status(&id, "Downloading...".into());
    let t = m.task(&id).unwrap();
    assert_eq!(t.title, "New");
    assert_eq!(t.status.as_deref(), Some("Downloading..."));
    let update = m.task_update();
    assert_eq!(update.tasks.len(), 1);
    assert_eq!(update.tasks[0].title, "New");
    m.update_task_title("missing", "X".into());
    assert_eq!(m.tasks.len(), 1);
}

#[test]
fn dropping_without_finalize_counts_nothing() {
    let mut m = TaskManager::new();
    let id = m.add_task(TaskType::DownloadVideo, "Abandoned".into(), 0);
    m.mark_task_started(&id);
    m.remove_task(&id, 100);
    let metrics = m.get_metrics(100);
    assert_eq!(metrics.download_video.success_count, 0);
    assert_eq!(metrics.download_video.failure_count, 0);
    assert!(matches!(state_of(&m, &id), TaskState::InProgress));
    m.cleanup_old_tasks(5_100);
    assert!(m.task(&id).is_some());
    m.cleanup_old_tasks(5_101);
    assert!(m.task(&id).is_none());
}

#[test]
fn test_cleanup_timing() {
    let mut m = TaskManager::new();
    let id = m.add_task(TaskType::DownloadVideo, "Cleanup Test".into(), 0);
    m.mark_task_started(&id);
    m.complete_task(&id, 1_000);
    m.cleanup_old_tasks(1_000);
    assert!(m.task(&id).is_some(), "Task should exist after completion");
    m.cleanup_old_tasks(4_000);
    assert!(m.task(&id).is_some(), "Task should still exist after 3s");
    m.cleanup_old_tasks(7_000);
    assert!(m.task(&id).is_none(), "Task should be cleaned up after 6s");
}

#[test]
fn test_failed_task_cleanup_timing() {
    let mut m = TaskManager::new();
    let id = m.add_task(TaskType::DownloadVideo, "Failed Cleanup Test".into(), 0);
    m.mark_task_started(&id);
    m.mark_task_failed(&id, "Test failure".into(), 1_000);
    m.remove_task(&id, 1_000);
    m.cleanup_old_tasks(26_000);
    assert!(m.task(&id).is_some(), "Failed task should still exist after 25s");
    m.cleanup_old_tasks(36_000);
    assert!(m.task(&id).is_none(), "Failed task should be cleaned up after 35s");
}

#[test]
fn cleanup_keeps_unfinished_tasks_and_order() {
    let mut m = TaskManager::new();
    let a = m.add_task(TaskType::DownloadVideo, "a".into(), 0);
    let b = m.add_task(TaskType::DownloadVideo, "b".into(), 0);
    let c = m.add_task(TaskType::RefreshIndex, "c".into(), 0);
    m.complete_task(&b, 0);
    m.cleanup_old_tasks(1_000_000);
    assert_eq!(m.tasks.len(), 2);
    assert_eq!(m.tasks[0].id, a);
    assert_eq!(m.tasks[1].id, c);
}

fn fail_times(m: &mut TaskManager, kind: TaskType, n: u64, now: u64) {
    for idx in 0..n {
        let id = m.add_task(kind, format!("fail-{idx}"), now);
        m.mark_task_failed(&id, "simulated failure".to_string(), now);
        m.remove_task(&id, now);
    }
}

fn success() -> Result<GluetunRestartOutcome, GluetunError> {
    Ok(GluetunRestartOutcome {
        stop_outcome: Some("stopped".to_string()),
        start_outcome: Some("running".to_string()),
    })
}

#[test]
fn triggers_restart_after_threshold() {
    let mut m = TaskManager::new();
    m.set_gluetun_enabled(true);
    fail_times(&mut m, TaskType::DownloadVideo, MAX_CONSECUTIVE_FAILURES_BEFORE_RESTART, 0);
    let snapshot = m.get_metrics(0);
    let trigger = localtube::gluetun::supervisor::handle_metrics(&snapshot, &mut m, 0);
    assert_eq!(trigger, Some(TaskType::DownloadVideo));
    assert!(m.get_metrics(0).download_video.restart_in_progress);
    m.finish_gluetun_restart(trigger, &success(), 10);
    let download = m.get_metrics(10).download_video;
    assert!(!download.restart_in_progress);
    assert_eq!(download.restart_count, 1);
    assert_eq!(download.consecutive_failures, 0);
    assert!(download.last_restart_error.is_none());
    assert_eq!(
        download.last_restart_outcome.as_deref(),
        Some("stop_outcome=Some(\"stopped\"), start_outcome=Some(\"running\")")
    );
}

#[test]
fn records_restart_failure() {
    let mut m = TaskManager::new();
    m.set_gluetun_enabled(true);
    fail_times(&mut m, TaskType::DownloadVideo, MAX_CONSECUTIVE_FAILURES_BEFORE_RESTART, 0);
    let snapshot = m.get_metrics(0);
    let trigger = localtube::gluetun::supervisor::handle_metrics(&snapshot, &mut m, 0);
    assert_eq!(trigger, Some(TaskType::DownloadVideo));
    m.finish_gluetun_restart(trigger, &Err(GluetunError::PollTimeout), 10);
    let download = m.get_metrics(10).download_video;
    assert!(!download.restart_in_progress);
    assert_eq!(download.restart_count, 0);
    assert_eq!(download.consecutive_failures, 3);
    assert_eq!(
        download.last_restart_error.as_deref(),
        Some("gluetun did not report desired state after polling")
    );
}

#[test]
fn triggers_restart_after_threshold_on_refresh_failures() {
    let mut m = TaskManager::new();
    m.set_gluetun_enabled(true);
    fail_times(&mut m, TaskType::RefreshIndex, MAX_CONSECUTIVE_FAILURES_BEFORE_RESTART, 0);
    let snapshot = m.get_metrics(0);
    let trigger = localtube::gluetun::supervisor::handle_metrics(&snapshot, &mut m, 0);
    assert_eq!(trigger, Some(TaskType::RefreshIndex));
    m.finish_gluetun_restart(trigger, &success(), 10);
    let refresh = m.get_metrics(10).refresh_index;
    assert!(!refresh.restart_in_progress);
    assert_eq!(refresh.restart_count, 1);
    assert_eq!(refresh.consecutive_failures, 0);
    assert!(refresh.last_restart_error.is_none());
}

#[test]
fn refresh_restart_does_not_reset_download_failure_streak() {
    let mut m = TaskManager::new();
    m.set_gluetun_enabled(true);
    fail_times(&mut m, TaskType::DownloadVideo, 1, 0);
    fail_times(&mut m, TaskType::RefreshIndex, MAX_CONSECUTIVE_FAILURES_BEFORE_RESTART, 0);
    let snapshot = m.get_metrics(0);
    let trigger = localtube::gluetun::supervisor::handle_metrics(&snapshot, &mut m, 0);
    assert_eq!(trigger, Some(TaskType::RefreshIndex));
    m.finish_gluetun_restart(trigger, &success(), 10);
    let metrics = m.get_metrics(10);
    assert_eq!(metrics.refresh_index.restart_count, 1);
    assert_eq!(metrics.refresh_index.consecutive_failures, 0);
    assert_eq!(metrics.download_video.restart_count, 0);
    assert_eq!(metrics.download_video.consecutive_failures, 1);
}

#[test]
fn only_one_restart_at_a_time() {
    let mut m = TaskManager::new();
    assert!(!m.begin_gluetun_restart(None, 0), "disabled integration never restarts");
    m.set_gluetun_enabled(true);
    assert!(m.begin_gluetun_restart(None, 0));
    assert!(!m.begin_gluetun_restart(Some(TaskType::RefreshIndex), 0));
    m.set_gluetun_enabled(false);
    assert!(!m.gluetun_restart_in_progress);
    assert!(!m.get_metrics(0).download_video.restart_in_progress);
}

#[test]
fn no_restart_below_threshold_or_inside_the_gate() {
    let mut m = TaskManager::new();
    m.set_gluetun_enabled(true);
    fail_times(&mut m, TaskType::DownloadVideo, 2, 0);
    let snapshot = m.get_metrics(0);
    assert_eq!(localtube::gluetun::supervisor::handle_metrics(&snapshot, &mut m, 0), None);
    let id = m.add_task(TaskType::DownloadVideo, "ok".into(), 0);
    m.complete_task(&id, 0);
    fail_times(&mut m, TaskType::DownloadVideo, 3, 0);
    let snapshot = m.get_metrics(600_000);
    assert_eq!(localtube::gluetun::supervisor::handle_metrics(&snapshot, &mut m, 600_000), None);
    let snapshot = m.get_metrics(1_800_000);
    assert_eq!(
        localtube::gluetun::supervisor::handle_metrics(&snapshot, &mut m, 1_800_000),
        Some(TaskType::DownloadVideo)
    );
}
