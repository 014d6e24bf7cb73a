use cartographer_agent::cloud_commands::{next_command_action, CommandAction, CommandProgress};
use cartographer_agent::auth::should_start_background_work;
use cartographer_agent::scheduler::{begin_scan, should_trigger_immediate_scan};
use cartographer_agent::auth::{
    agent_status, apply_token_settings, auth_status_from_token, login_deadline_passed,
    login_expired_message, login_flow_response, login_poll_step, LoginPollAction, LoginPollEvent, login_flow_started, login_url_event,
    verification_link, AuthStatus,
};
use cartographer_agent::cloud::{DeviceCodeResponse, TokenResponse};
use cartographer_agent::cloud_commands::{
    executing_event, finished_event, received_event, result_report, CloudCommandStage,
    CommandPollLoop, PendingCommand, PollAction, PollEvent, ResultReport,
};
use cartographer_agent::scheduler::SchedulerState;

#[test]
fn backoff_doubles_to_maximum_and_resets() {
    let mut l = CommandPollLoop::new();
    let mut waits = Vec::new();
    for _ in 0..7 {
        match l.step(PollEvent::PollFailed) {
            PollAction::WaitThenPoll(w) => waits.push(w),
            other => panic!("unexpected {:?}", other),
        }
    }
    assert_eq!(waits, vec![1, 2, 4, 8, 16, 30, 30]);
    assert_eq!(l.step(PollEvent::PollSucceeded), PollAction::ExecuteCommands);
    assert_eq!(l.backoff_secs(), 1);
}

#[test]
fn poll_loop_other_events() {
    let mut l = CommandPollLoop::new();
    assert_eq!(l.step(PollEvent::NoCredentials), PollAction::WaitThenPoll(10));
    assert_eq!(l.step(PollEvent::Cancelled), PollAction::Stop);
    assert_eq!(l.backoff_secs(), 1);
}

fn command() -> PendingCommand {
    PendingCommand { id: 7, command_type: "scan_network".to_string(), payload: None }
}

#[test]
fn command_events() {
    let c = command();
    let r = received_event(&c);
    assert_eq!(r.stage, CloudCommandStage::Received);
    assert_eq!(r.command_id, 7);
    assert_eq!(r.message, "Received command: scan_network");
    let e = executing_event(&c);
    assert_eq!(e.stage, CloudCommandStage::Executing);
    assert_eq!(e.message, "Executing: scan_network");
    let ok = finished_event(&c, &Ok("Scan completed: 3 devices found".to_string()));
    assert_eq!(ok.stage, CloudCommandStage::Completed);
    assert_eq!(ok.message, "Scan completed: 3 devices found");
    let err = finished_event(&c, &Err("A scan is already in progress".to_string()));
    assert_eq!(err.stage, CloudCommandStage::Failed);
    assert_eq!(err.message, "A scan is already in progress");
    assert_eq!(err.command_type, "scan_network");
}

#[test]
fn command_reports() {
    assert_eq!(
        result_report(&Ok("done".to_string())),
        ResultReport { success: true, result: Some("done".to_string()), error_message: None }
    );
    assert_eq!(
        result_report(&Err("bad".to_string())),
        ResultReport { success: false, result: None, error_message: Some("bad".to_string()) }
    );
}

#[test]
fn login_link_and_flow() {
    assert_eq!(verification_link("https://x.io/device", "ABCD-1234"), "https://x.io/device?code=ABCD-1234");
    let started = login_flow_started(DeviceCodeResponse {
        device_code: "dc".to_string(),
        user_code: "UC".to_string(),
        verification_uri: "https://x.io/device".to_string(),
        expires_in: 900,
        interval: None,
    });
    assert_eq!(started.verification_url, "https://x.io/device?code=UC");
    assert_eq!(started.poll_interval, 5);
    assert_eq!(started.expires_in, 900);
    let event = login_url_event(&started);
    assert_eq!(event.user_code, "UC");
    assert_eq!(event.verification_url, "https://x.io/device?code=UC");
    let resp = login_flow_response(started);
    assert_eq!(resp.device_code, "dc");
    let with_interval = login_flow_started(DeviceCodeResponse {
        device_code: "dc".to_string(),
        user_code: "UC".to_string(),
        verification_uri: "u".to_string(),
        expires_in: 1,
        interval: Some(2),
    });
    assert_eq!(with_interval.poll_interval, 2);
}

#[test]
fn login_deadline() {
    assert!(!login_deadline_passed(0, 0));
    assert!(login_deadline_passed(1, 0));
    assert!(!login_deadline_passed(900_000_000_000, 900));
    assert!(login_deadline_passed(900_000_000_001, 900));
    assert_eq!(login_expired_message(), "Device code expired. Please try again.");
}

fn token(auto: Option<u64>, health: Option<u64>) -> TokenResponse {
    TokenResponse {
        access_token: "tok".to_string(),
        token_type: "Bearer".to_string(),
        expires_in: Some(3600),
        network_id: "n1".to_string(),
        network_name: "Home".to_string(),
        user_email: "a@b.c".to_string(),
        automatic_full_scan_min_interval_seconds: auto,
        health_poll_interval_seconds: health,
    }
}

#[test]
fn login_result_and_settings() {
    let t = token(Some(600), None);
    let status = auth_status_from_token(&t);
    assert!(status.authenticated);
    assert_eq!(status.user_email.as_deref(), Some("a@b.c"));
    assert_eq!(status.network_name.as_deref(), Some("Home"));
    let mut s = SchedulerState::new();
    apply_token_settings(&mut s, &t);
    assert_eq!(s.automatic_full_scan_min_interval_secs, 600);
    assert_eq!(s.health_check_interval_secs, 60);
    apply_token_settings(&mut s, &token(None, Some(20)));
    assert_eq!(s.automatic_full_scan_min_interval_secs, 600);
    assert_eq!(s.health_check_interval_secs, 20);
}

#[test]
fn agent_status_from_auth() {
    let auth = AuthStatus {
        authenticated: true,
        user_email: Some("a@b.c".to_string()),
        network_id: None,
        network_name: Some("Home".to_string()),
    };
    let s = agent_status(auth, Some("2015-05-15T00:00:00+00:00".to_string()), Some(3), false);
    assert!(s.authenticated);
    assert_eq!(s.next_scan, None);
    assert_eq!(s.device_count, Some(3));
    assert_eq!(s.last_scan.as_deref(), Some("2015-05-15T00:00:00+00:00"));
    assert!(!s.scanning_in_progress);
}

#[test]
fn login_poll_decisions() {
    assert_eq!(login_poll_step(900, 5, LoginPollEvent::BeforePoll(0)), LoginPollAction::Poll);
    assert_eq!(login_poll_step(900, 5, LoginPollEvent::BeforePoll(900_000_000_001)), LoginPollAction::Expired);
    assert_eq!(login_poll_step(900, 5, LoginPollEvent::Granted), LoginPollAction::Complete);
    assert_eq!(login_poll_step(900, 5, LoginPollEvent::Pending), LoginPollAction::SleepThenRetry(5));
    assert_eq!(login_poll_step(900, 5, LoginPollEvent::Failed), LoginPollAction::Fail);
}

#[test]
fn command_handling_order() {
    assert_eq!(next_command_action(CommandProgress::Received), CommandAction::Claim);
    assert_eq!(next_command_action(CommandProgress::ClaimFailed), CommandAction::Skip);
    assert_eq!(next_command_action(CommandProgress::Claimed), CommandAction::Execute);
    assert_eq!(next_command_action(CommandProgress::Executed), CommandAction::ReportAndFinish);
}

#[test]
fn background_work_starts_only_when_authenticated() {
    let yes = AuthStatus { authenticated: true, user_email: None, network_id: None, network_name: None };
    let no = AuthStatus { authenticated: false, user_email: None, network_id: None, network_name: None };
    assert!(should_start_background_work(&yes));
    assert!(!should_start_background_work(&no));
}

#[test]
fn immediate_scan_not_while_scanning() {
    let mut s = SchedulerState::new();
    assert!(should_trigger_immediate_scan(&s));
    begin_scan(&mut s);
    assert!(!should_trigger_immediate_scan(&s));
}
