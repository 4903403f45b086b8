use localtube::gluetun::config::GluetunConfig;
use localtube::gluetun::controller::{
    check_status_change, poll_decision, GluetunError, GluetunRestartOutcome, PollStep,
};
use localtube::gluetun::supervisor::{
    manual_restart, restart_gate_allows, select_restart_trigger, should_trigger_restart,
    ManualRestart,
};
use localtube::job_tracking::manager::TaskManager;
use localtube::job_tracking::metrics::{AllMetrics, TaskMetrics};
use localtube::job_tracking::task::TaskType;

#[test]
fn control_address_becomes_a_base_url() {
    assert!(GluetunConfig::from_setting(None).is_none());
    assert!(GluetunConfig::from_setting(Some("   ")).is_none());
    let c = GluetunConfig::from_setting(Some(" gluetun:8000 ")).unwrap();
    assert_eq!(c.base_url, "http://gluetun:8000");
    assert_eq!(c.poll_attempts, 5);
    assert_eq!(c.poll_interval_secs, 1);
    assert_eq!(c.status_url(), "http://gluetun:8000/v1/vpn/status");
    let s = GluetunConfig::from_setting(Some("https://vpn.local")).unwrap();
    assert_eq!(s.base_url, "https://vpn.local");
}

#[test]
fn status_change_answers_are_checked() {
    assert!(check_status_change("stopped", 200, "stopped").is_ok());
    match check_status_change("stopped", 500, "stopped") {
        Err(GluetunError::UnexpectedStatus(code)) => assert_eq!(code, 500),
        other => panic!("unexpected {:?}", other),
    }
    match check_status_change("running", 200, "stopped") {
        Err(e) => assert_eq!(
            e.message(),
            "gluetun returned unexpected state: expected running, got stopped"
        ),
        Ok(()) => panic!("state mismatch accepted"),
    }
}

#[test]
fn polling_retries_until_the_budget_is_spent() {
    assert!(matches!(poll_decision("stopped", 200, "stopped", 0, 5), PollStep::Reached));
    assert!(matches!(poll_decision("stopped", 200, "running", 0, 5), PollStep::Retry));
    assert!(matches!(poll_decision("stopped", 200, "running", 3, 5), PollStep::Retry));
    assert!(matches!(
        poll_decision("stopped", 200, "running", 4, 5),
        PollStep::Fail(GluetunError::PollTimeout)
    ));
    assert!(matches!(
        poll_decision("stopped", 404, "stopped", 0, 5),
        PollStep::Fail(GluetunError::UnexpectedStatus(404))
    ));
}

#[test]
fn error_and_outcome_descriptions() {
    assert_eq!(GluetunError::UnexpectedStatus(503).message(), "unexpected status code: 503");
    assert_eq!(GluetunError::Http("timed out".into()).message(), "HTTP request failed: timed out");
    let o = GluetunRestartOutcome { stop_outcome: Some("a\"b".into()), start_outcome: None };
    assert_eq!(o.describe(), "stop_outcome=Some(\"a\\\"b\"), start_outcome=None");
}

fn metrics(consecutive: u64, success_ago: Option<u64>, restart_ago: Option<u64>) -> TaskMetrics {
    TaskMetrics {
        success_count: 0,
        failure_count: consecutive,
        consecutive_failures: consecutive,
        last_success_seconds_ago: success_ago,
        last_failure_seconds_ago: Some(0),
        restart_count: 0,
        last_restart_seconds_ago: restart_ago,
        last_restart_outcome: None,
        last_restart_error: None,
        restart_in_progress: false,
    }
}

#[test]
fn restart_gate() {
    assert!(restart_gate_allows(&metrics(3, None, None)));
    assert!(restart_gate_allows(&metrics(3, Some(1800), None)));
    assert!(!restart_gate_allows(&metrics(3, Some(1799), None)));
    assert!(!restart_gate_allows(&metrics(3, None, Some(10))));
    assert!(!restart_gate_allows(&metrics(3, Some(4000), Some(10))));
    assert!(restart_gate_allows(&metrics(3, Some(4000), Some(1800))));
    assert!(!should_trigger_restart(&metrics(2, None, None)));
    let mut busy = metrics(5, None, None);
    busy.restart_in_progress = true;
    assert!(!should_trigger_restart(&busy));
}

#[test]
fn downloads_take_precedence() {
    let both = AllMetrics {
        refresh_index: metrics(3, None, None),
        download_video: metrics(3, None, None),
        gluetun_enabled: true,
    };
    assert_eq!(select_restart_trigger(&both), Some(TaskType::DownloadVideo));
    let refresh_only = AllMetrics {
        refresh_index: metrics(3, None, None),
        download_video: metrics(1, None, None),
        gluetun_enabled: true,
    };
    assert_eq!(select_restart_trigger(&refresh_only), Some(TaskType::RefreshIndex));
    let neither = AllMetrics {
        refresh_index: metrics(0, None, None),
        download_video: metrics(1, None, None),
        gluetun_enabled: true,
    };
    assert_eq!(select_restart_trigger(&neither), None);
    assert_eq!(refresh_only.get(TaskType::RefreshIndex).consecutive_failures, 3);
}

#[test]
fn manual_restart_answers() {
    let mut m = TaskManager::new();
    assert_eq!(manual_restart(&mut m, true, 0), ManualRestart::Disabled);
    m.set_gluetun_enabled(true);
    assert_eq!(manual_restart(&mut m, false, 0), ManualRestart::ControllerMissing);
    assert_eq!(manual_restart(&mut m, true, 0), ManualRestart::Started);
    assert_eq!(manual_restart(&mut m, true, 0), ManualRestart::AlreadyRunning);
    assert_eq!(ManualRestart::Started.kind(), "success");
    assert_eq!(ManualRestart::AlreadyRunning.kind(), "warning");
    assert_eq!(ManualRestart::AlreadyRunning.message(), "VPN restart is already in progress.");
    m.finish_gluetun_restart(None, &Err(GluetunError::PollTimeout), 5);
    assert_eq!(manual_restart(&mut m, true, 6), ManualRestart::Started);
}
