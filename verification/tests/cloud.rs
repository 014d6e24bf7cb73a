use cartographer_agent::cloud::{
    devices_sync_request, health_check_request, scan_sync_request,
    health_results_payload, poll_client_timeout_secs, scan_devices_payload, token_poll_error_outcome,
    token_poll_status, token_request, token_verify_result, CloudClient, CloudEndpointConfig,
    TokenErrorResponse, TokenPollStatus, TokenVerifyResult,
};
use cartographer_agent::device::{Device, ResponseTime};
use cartographer_agent::health::DeviceHealthResult;

fn client() -> CloudClient {
    CloudClient::with_config(CloudEndpointConfig {
        api_url: "https://cartographer.network/api".to_string(),
        dashboard_url: "https://cartographer.network".to_string(),
    })
}

#[test]
fn endpoint_urls() {
    let c = client();
    assert_eq!(c.base_url(), "https://cartographer.network/api");
    assert_eq!(c.dashboard_url(), "https://cartographer.network");
    assert_eq!(c.device_code_url(), "https://cartographer.network/api/agent/device-code");
    assert_eq!(c.token_url(), "https://cartographer.network/api/agent/token");
    assert_eq!(c.verify_url(), "https://cartographer.network/api/agent/verify");
    assert_eq!(c.sync_url(), "https://cartographer.network/api/agent/sync");
    assert_eq!(c.network_url(), "https://cartographer.network/api/agent/network");
    assert_eq!(c.health_url(), "https://cartographer.network/api/agent/health");
    assert_eq!(c.dashboard_network_url("net-42"), "https://cartographer.network/app/network/net-42");
}

#[test]
fn command_urls() {
    let c = client();
    assert_eq!(c.poll_commands_url(30), "https://cartographer.network/api/agent/commands/poll?timeout=30");
    assert_eq!(c.claim_command_url(17), "https://cartographer.network/api/agent/commands/17/claim");
    assert_eq!(c.command_result_url(-3), "https://cartographer.network/api/agent/commands/-3/result");
    assert_eq!(poll_client_timeout_secs(30), 35);
}

#[test]
fn verify_status_codes() {
    assert_eq!(token_verify_result(200), TokenVerifyResult::Valid);
    assert_eq!(token_verify_result(401), TokenVerifyResult::Invalid);
    assert_eq!(token_verify_result(403), TokenVerifyResult::Invalid);
    assert_eq!(token_verify_result(500), TokenVerifyResult::NetworkError("Server returned 500".to_string()));
    assert_eq!(token_verify_result(404), TokenVerifyResult::NetworkError("Server returned 404".to_string()));
}

#[test]
fn token_poll_status_codes() {
    assert_eq!(token_poll_status(200), TokenPollStatus::Granted);
    assert_eq!(token_poll_status(400), TokenPollStatus::NotYet);
    assert_eq!(token_poll_status(401), TokenPollStatus::Failed);
    assert_eq!(token_poll_status(503), TokenPollStatus::Failed);
}

#[test]
fn token_poll_error_bodies() {
    assert_eq!(token_poll_error_outcome(None), Ok(()));
    let pending = TokenErrorResponse { error: "authorization_pending".to_string(), error_description: None };
    assert_eq!(token_poll_error_outcome(Some(pending)), Ok(()));
    let denied = TokenErrorResponse {
        error: "access_denied".to_string(),
        error_description: Some("user refused".to_string()),
    };
    assert_eq!(token_poll_error_outcome(Some(denied)), Err("access_denied: user refused".to_string()));
    let expired = TokenErrorResponse { error: "expired_token".to_string(), error_description: None };
    assert_eq!(token_poll_error_outcome(Some(expired)), Err("expired_token: ".to_string()));
}

#[test]
fn token_request_body() {
    let r = token_request("dev-code");
    assert_eq!(r.device_code, "dev-code");
    assert_eq!(r.grant_type, "device_code");
}

fn dev(ip: &str) -> Device {
    Device {
        ip: ip.to_string(),
        mac: Some("aa:bb".to_string()),
        response_time_ms: Some(ResponseTime { bits: 2.5f64.to_bits() }),
        hostname: Some("host".to_string()),
        vendor: Some("v".to_string()),
        device_type: Some("t".to_string()),
    }
}

#[test]
fn scan_payload_marks_gateway() {
    let devices = vec![dev("192.168.1.1"), dev("192.168.1.2")];
    let payload = scan_devices_payload(&devices, Some("192.168.1.1"));
    assert_eq!(payload.len(), 2);
    assert!(payload[0].is_gateway);
    assert!(!payload[1].is_gateway);
    assert_eq!(payload[1].ip, "192.168.1.2");
    assert_eq!(payload[1].hostname.as_deref(), Some("host"));
    assert_eq!(payload[1].response_time_ms, devices[1].response_time_ms);
    let none = scan_devices_payload(&devices, None);
    assert!(none.iter().all(|d| !d.is_gateway));
}

#[test]
fn health_payload_copies_results() {
    let results = vec![
        DeviceHealthResult { ip: "a".to_string(), reachable: true, response_time_ms: Some(ResponseTime { bits: 1 }) },
        DeviceHealthResult { ip: "b".to_string(), reachable: false, response_time_ms: None },
    ];
    let payload = health_results_payload(&results);
    assert_eq!(payload.len(), 2);
    assert_eq!(payload[0].ip, "a");
    assert!(payload[0].reachable);
    assert_eq!(payload[1].response_time_ms, None);
}

#[test]
fn sync_request_bodies() {
    let devices = vec![dev("192.168.1.1"), dev("192.168.1.2")];
    let r = scan_sync_request("2024-01-01T00:00:00+00:00".to_string(), &devices, Some("192.168.1.1"), "192.168.1.0/24", "eth0");
    assert_eq!(r.timestamp, "2024-01-01T00:00:00+00:00");
    assert_eq!(r.scan_duration_ms, None);
    assert!(r.devices[0].is_gateway && !r.devices[1].is_gateway);
    let info = r.network_info.expect("network info");
    assert_eq!(info.subnet.as_deref(), Some("192.168.1.0/24"));
    assert_eq!(info.interface.as_deref(), Some("eth0"));
    let legacy = devices_sync_request("t".to_string(), &devices);
    assert!(legacy.network_info.is_none());
    assert!(legacy.devices.iter().all(|d| !d.is_gateway));
    let results = vec![DeviceHealthResult { ip: "a".to_string(), reachable: false, response_time_ms: None }];
    let h = health_check_request("t".to_string(), &results);
    assert_eq!(h.timestamp, "t");
    assert_eq!(h.results.len(), 1);
    assert!(!h.results[0].reachable);
}
