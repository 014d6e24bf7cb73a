use cartographer_agent::device::{Device, ResponseTime};
use cartographer_agent::persistence::AgentState;
use cartographer_agent::scheduler::{
    begin_scan, clear_scan_cancel, dispatch_cloud_command, end_health_check, end_scan,
    get_health_check_interval, get_known_devices, get_last_scan_time, get_scan_interval,
    health_command_message, init, is_background_running, is_busy, is_health_checking,
    is_scan_cancelled, is_scanning, merge_devices_preserving_health, on_interval_tick,
    persist_state, record_scan_time, record_scan_time_at, request_scan_cancel, reset_scan_state,
    scan_command_message, set_automatic_full_scan_min_interval_seconds, set_health_check_interval,
    set_scan_interval, start_background_scanning, stop_background_scanning,
    try_begin_health_check, update_known_devices, next_scan_step, ScanRunStep, CommandDispatch, HealthCheckGate,
    SchedulerState, TickAction,
};

fn dev(ip: &str, ms: Option<f64>) -> Device {
    Device {
        ip: ip.to_string(),
        mac: None,
        response_time_ms: ms.map(|m| ResponseTime { bits: m.to_bits() }),
        hostname: None,
        vendor: None,
        device_type: None,
    }
}

#[test]
fn new_state_has_defaults() {
    let s = SchedulerState::new();
    assert_eq!(get_scan_interval(&s), 5);
    assert_eq!(s.scan_interval_secs, 300);
    assert_eq!(get_health_check_interval(&s), 60);
    assert_eq!(s.automatic_full_scan_min_interval_secs, 7200);
    assert!(!is_background_running(&s));
    assert!(!is_busy(&s));
    assert!(!is_scan_cancelled(&s));
    assert!(get_known_devices(&s).is_empty());
    assert_eq!(get_last_scan_time(&s), None);
}

#[test]
fn scan_interval_reads_back_in_minutes() {
    let mut s = SchedulerState::new();
    set_scan_interval(&mut s, 15);
    assert_eq!(s.scan_interval_secs, 900);
    assert_eq!(get_scan_interval(&s), 15);
    set_scan_interval(&mut s, 0);
    assert_eq!(get_scan_interval(&s), 0);
}

#[test]
fn scan_interval_minutes_round_down() {
    let mut s = SchedulerState::new();
    s.scan_interval_secs = 150;
    assert_eq!(get_scan_interval(&s), 2);
}

#[test]
fn health_check_interval_reads_back() {
    let mut s = SchedulerState::new();
    set_health_check_interval(&mut s, 45);
    assert_eq!(get_health_check_interval(&s), 45);
    assert_eq!(get_scan_interval(&s), 5);
}

#[test]
fn automatic_scan_cooldown_is_set() {
    let mut s = SchedulerState::new();
    set_automatic_full_scan_min_interval_seconds(&mut s, 600);
    assert_eq!(s.automatic_full_scan_min_interval_secs, 600);
}

#[test]
fn cancel_request_and_clear() {
    let mut s = SchedulerState::new();
    request_scan_cancel(&mut s);
    assert!(is_scan_cancelled(&s));
    clear_scan_cancel(&mut s);
    assert!(!is_scan_cancelled(&s));
}

#[test]
fn busy_while_scanning_or_checking() {
    let mut s = SchedulerState::new();
    begin_scan(&mut s);
    assert!(is_scanning(&s) && is_busy(&s));
    end_scan(&mut s);
    assert!(!is_busy(&s));
    assert_eq!(try_begin_health_check(&mut s), HealthCheckGate::Started);
    assert!(is_health_checking(&s) && is_busy(&s));
    end_health_check(&mut s);
    assert!(!is_busy(&s));
}

#[test]
fn health_check_skipped_during_scan_or_another_check() {
    let mut s = SchedulerState::new();
    begin_scan(&mut s);
    assert_eq!(try_begin_health_check(&mut s), HealthCheckGate::ScanInProgress);
    assert!(!is_health_checking(&s));
    end_scan(&mut s);
    assert_eq!(try_begin_health_check(&mut s), HealthCheckGate::Started);
    assert_eq!(try_begin_health_check(&mut s), HealthCheckGate::AlreadyRunning);
    assert!(is_health_checking(&s));
}

#[test]
fn reset_clears_scan_state_only() {
    let mut s = SchedulerState::new();
    set_scan_interval(&mut s, 10);
    record_scan_time_at(&mut s, 1_700_000_000);
    begin_scan(&mut s);
    s.health_check_in_progress = true;
    request_scan_cancel(&mut s);
    update_known_devices(&mut s, vec![dev("10.0.0.1", None)]);
    reset_scan_state(&mut s);
    assert_eq!(s.last_scan_time, 0);
    assert_eq!(get_last_scan_time(&s), None);
    assert!(!is_busy(&s));
    assert!(!is_scan_cancelled(&s));
    assert_eq!(get_scan_interval(&s), 10);
    assert_eq!(get_known_devices(&s).len(), 1);
}

#[test]
fn last_scan_time_as_rfc3339() {
    let mut s = SchedulerState::new();
    record_scan_time_at(&mut s, 1_431_648_000);
    assert_eq!(get_last_scan_time(&s).as_deref(), Some("2015-05-15T00:00:00+00:00"));
    record_scan_time_at(&mut s, 1);
    assert_eq!(get_last_scan_time(&s).as_deref(), Some("1970-01-01T00:00:01+00:00"));
}

#[test]
fn last_scan_time_out_of_chrono_range() {
    let mut s = SchedulerState::new();
    record_scan_time_at(&mut s, u64::MAX);
    // u64::MAX read as i64 is -1: one second before the epoch.
    assert_eq!(get_last_scan_time(&s).as_deref(), Some("1969-12-31T23:59:59+00:00"));
    record_scan_time_at(&mut s, i64::MAX as u64);
    assert_eq!(get_last_scan_time(&s), None);
}

#[test]
fn record_scan_time_uses_current_time() {
    let mut s = SchedulerState::new();
    let mut loaded = AgentState::default();
    loaded.scan_interval_minutes = 4;
    let saved = record_scan_time(&mut s, Some(loaded));
    assert!(s.last_scan_time > 1_600_000_000);
    assert_eq!(saved.last_scan_time, s.last_scan_time);
    assert_eq!(saved.scan_interval_minutes, 4);
    let expected = chrono::DateTime::from_timestamp(s.last_scan_time as i64, 0).unwrap().to_rfc3339();
    assert_eq!(get_last_scan_time(&s), Some(expected));
    let fresh = record_scan_time(&mut s, None);
    assert_eq!(fresh.last_scan_time, s.last_scan_time);
    assert!(fresh.devices.is_empty());
}

#[test]
fn background_start_is_idempotent_and_stop_allows_restart() {
    let mut s = SchedulerState::new();
    let token = start_background_scanning(&mut s).expect("first start");
    assert!(is_background_running(&s));
    assert!(start_background_scanning(&mut s).is_none());
    let cancelled = stop_background_scanning(&mut s).expect("a token was held");
    assert!(cancelled.token().is_cancelled());
    assert!(*cancelled.token() == token);
    assert!(token.is_cancelled());
    assert!(!is_background_running(&s));
    assert!(s.cancel_token.is_none());
    let again = start_background_scanning(&mut s).expect("restart");
    assert!(!again.is_cancelled());
}

#[test]
fn stop_without_running_tasks_changes_nothing() {
    let mut s = SchedulerState::new();
    assert!(stop_background_scanning(&mut s).is_none());
    assert!(!is_background_running(&s));
}

#[test]
fn init_without_persisted_state_uses_defaults() {
    let s = init(None);
    assert_eq!(get_scan_interval(&s), 5);
    assert_eq!(get_health_check_interval(&s), 60);
    assert_eq!(s.last_scan_time, 0);
}

#[test]
fn init_takes_persisted_settings_and_devices() {
    let mut loaded = AgentState::default();
    loaded.last_scan_time = 1234;
    loaded.scan_interval_minutes = 10;
    loaded.health_check_interval_seconds = 30;
    loaded.devices = vec![dev("10.0.0.1", Some(1.0))];
    let s = init(Some(loaded));
    assert_eq!(s.last_scan_time, 1234);
    assert_eq!(s.scan_interval_secs, 600);
    assert_eq!(get_health_check_interval(&s), 30);
    assert_eq!(get_known_devices(&s), vec![dev("10.0.0.1", Some(1.0))]);
}

#[test]
fn init_ignores_zero_intervals() {
    let loaded = AgentState::default();
    let s = init(Some(loaded));
    assert_eq!(s.scan_interval_secs, 300);
    assert_eq!(s.health_check_interval_secs, 60);
}

#[test]
fn persist_then_init_restores_devices_and_scan_time() {
    let mut s = SchedulerState::new();
    update_known_devices(&mut s, vec![dev("10.0.0.1", Some(2.0)), dev("10.0.0.2", None)]);
    record_scan_time_at(&mut s, 99);
    let mut loaded = AgentState::default();
    loaded.scan_interval_minutes = 7;
    let saved = persist_state(&s, Some(loaded));
    assert_eq!(saved.scan_interval_minutes, 7);
    assert_eq!(saved.last_scan_time, 99);
    let restored = init(Some(saved));
    assert_eq!(get_known_devices(&restored), get_known_devices(&s));
    assert_eq!(restored.last_scan_time, 99);
    assert_eq!(get_scan_interval(&restored), 7);
}

#[test]
fn merge_into_state_updates_known_devices() {
    let mut s = SchedulerState::new();
    update_known_devices(&mut s, vec![dev("192.168.0.5", Some(3.0))]);
    merge_devices_preserving_health(&mut s, vec![dev("192.168.0.5", None), dev("192.168.0.6", None)], "192.168.0.0/24");
    let known = get_known_devices(&s);
    assert_eq!(known.len(), 2);
    assert_eq!(known[0].response_time_ms, Some(ResponseTime { bits: 3.0f64.to_bits() }));
}

#[test]
fn interval_tick_restarts_on_change() {
    assert_eq!(on_interval_tick(300, 300), TickAction::Run);
    assert_eq!(on_interval_tick(300, 600), TickAction::Restart(600));
}

#[test]
fn dispatch_known_commands() {
    let mut s = SchedulerState::new();
    assert_eq!(dispatch_cloud_command(&s, "scan_network"), CommandDispatch::RunScan);
    assert_eq!(dispatch_cloud_command(&s, "health_check"), CommandDispatch::RunHealthCheck);
    begin_scan(&mut s);
    assert_eq!(
        dispatch_cloud_command(&s, "scan_network"),
        CommandDispatch::Reject("A scan is already in progress".to_string())
    );
    assert_eq!(dispatch_cloud_command(&s, "health_check"), CommandDispatch::RunHealthCheck);
    s.health_check_in_progress = true;
    assert_eq!(
        dispatch_cloud_command(&s, "health_check"),
        CommandDispatch::Reject("A health check is already in progress".to_string())
    );
}

#[test]
fn dispatch_unknown_command() {
    let s = SchedulerState::new();
    assert_eq!(
        dispatch_cloud_command(&s, "reboot"),
        CommandDispatch::Reject("Unknown command type: reboot".to_string())
    );
}

#[test]
fn command_result_messages() {
    assert_eq!(scan_command_message(12), "Scan completed: 12 devices found");
    let devices = vec![dev("a", Some(1.0)), dev("b", None), dev("c", Some(0.0))];
    assert_eq!(health_command_message(&devices), "Health check completed: 2/3 healthy");
    assert_eq!(health_command_message(&Vec::new()), "Health check completed: 0/0 healthy");
}

#[test]
fn scan_run_steps() {
    assert_eq!(next_scan_step(ScanRunStep::Scan, true), ScanRunStep::Absorb);
    assert_eq!(next_scan_step(ScanRunStep::Scan, false), ScanRunStep::Release);
    assert_eq!(next_scan_step(ScanRunStep::Absorb, true), ScanRunStep::Upload);
    assert_eq!(next_scan_step(ScanRunStep::Upload, true), ScanRunStep::AnnounceComplete);
    assert_eq!(next_scan_step(ScanRunStep::AnnounceComplete, true), ScanRunStep::Release);
    assert_eq!(next_scan_step(ScanRunStep::Release, false), ScanRunStep::Done);
    assert_eq!(next_scan_step(ScanRunStep::Done, true), ScanRunStep::Done);
}
