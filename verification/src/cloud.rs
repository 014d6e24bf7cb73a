//! The cloud API as the agent sees it: endpoint addresses, wire types, how
//! status codes are read, and the payloads sent. The HTTP exchanges
//! themselves are made by the caller.

use vstd::prelude::*;
use crate::device::{clone_opt_string, Device, ResponseTime};
use crate::health::DeviceHealthResult;
use crate::text::{opt_view, concat2, concat3, decimal, signed_decimal, str_equal, u64_to_decimal, i64_to_decimal};

verus! {

/// Where the cloud API and dashboard live.
#[derive(Debug, PartialEq)]
pub struct CloudEndpointConfig {
    pub api_url: String,
    pub dashboard_url: String,
}

/// The cloud API client's addresses.
#[derive(Debug, PartialEq)]
pub struct CloudClient {
    pub config: CloudEndpointConfig,
}

impl CloudClient {
    /// A client for the given endpoints.
    pub fn with_config(config: CloudEndpointConfig) -> (res: Self)
        ensures
            res.config == config,
    {
        CloudClient { config }
    }

    /// The base API URL.
    pub fn base_url(&self) -> (res: &str)
        ensures
            res@ == self.config.api_url@,
    {
        self.config.api_url.as_str()
    }

    /// The dashboard URL.
    pub fn dashboard_url(&self) -> (res: &str)
        ensures
            res@ == self.config.dashboard_url@,
    {
        self.config.dashboard_url.as_str()
    }

    /// Where device codes are requested.
    pub fn device_code_url(&self) -> (res: String)
        ensures
            res@ == self.config.api_url@ + "/agent/device-code"@,
    {
        concat2(self.config.api_url.as_str(), "/agent/device-code")
    }

    /// Where tokens are polled for.
    pub fn token_url(&self) -> (res: String)
        ensures
            res@ == self.config.api_url@ + "/agent/token"@,
    {
        concat2(self.config.api_url.as_str(), "/agent/token")
    }

    /// Where tokens are verified.
    pub fn verify_url(&self) -> (res: String)
        ensures
            res@ == self.config.api_url@ + "/agent/verify"@,
    {
        concat2(self.config.api_url.as_str(), "/agent/verify")
    }

    /// Where scans are uploaded.
    pub fn sync_url(&self) -> (res: String)
        ensures
            res@ == self.config.api_url@ + "/agent/sync"@,
    {
        concat2(self.config.api_url.as_str(), "/agent/sync")
    }

    /// Where network information is read.
    pub fn network_url(&self) -> (res: String)
        ensures
            res@ == self.config.api_url@ + "/agent/network"@,
    {
        concat2(self.config.api_url.as_str(), "/agent/network")
    }

    /// Where health check results are uploaded.
    pub fn health_url(&self) -> (res: String)
        ensures
            res@ == self.config.api_url@ + "/agent/health"@,
    {
        concat2(self.config.api_url.as_str(), "/agent/health")
    }

    /// The dashboard page of a network.
    pub fn dashboard_network_url(&self, network_id: &str) -> (res: String)
        ensures
            res@ == self.config.dashboard_url@ + "/app/network/"@ + network_id@,
    {
        concat3(self.config.dashboard_url.as_str(), "/app/network/", network_id)
    }

    /// Where commands are long-polled, with the server-side timeout.
    pub fn poll_commands_url(&self, timeout_secs: u64) -> (res: String)
        ensures
            res@ == self.config.api_url@ + "/agent/commands/poll?timeout="@ + decimal(
                timeout_secs as nat,
            ),
    {
        let t = u64_to_decimal(timeout_secs);
        concat3(self.config.api_url.as_str(), "/agent/commands/poll?timeout=", t.as_str())
    }

    /// Where a command is claimed.
    pub fn claim_command_url(&self, command_id: i64) -> (res: String)
        ensures
            res@ == self.config.api_url@ + "/agent/commands/"@ + signed_decimal(command_id as int)
                + "/claim"@,
    {
        let id = i64_to_decimal(command_id);
        let mut res = concat3(self.config.api_url.as_str(), "/agent/commands/", id.as_str());
        res.append("/claim");
        res
    }

    /// Where a command's result is reported.
    pub fn command_result_url(&self, command_id: i64) -> (res: String)
        ensures
            res@ == self.config.api_url@ + "/agent/commands/"@ + signed_decimal(command_id as int)
                + "/result"@,
    {
        let id = i64_to_decimal(command_id);
        let mut res = concat3(self.config.api_url.as_str(), "/agent/commands/", id.as_str());
        res.append("/result");
        res
    }
}

/// The client-side timeout of a long poll: five seconds more than the
/// server's, so that the server answers first.
pub fn poll_client_timeout_secs(timeout_secs: u64) -> (res: u64)
    requires
        timeout_secs + 5 <= u64::MAX,
    ensures
        res == timeout_secs + 5,
{
    timeout_secs + 5
}

/// Result of a token verification attempt.
#[derive(Debug, PartialEq, Eq)]
pub enum TokenVerifyResult {
    /// The token is valid.
    Valid,
    /// The server rejected the token (401/403).
    Invalid,
    /// The server could not be reached or failed (network error, timeout,
    /// server error).
    NetworkError(String),
}

/// How the server's answer to a verification request is read: 200 is
/// valid, 401 and 403 are rejections, anything else is a transient error.
pub fn token_verify_result(status: u16) -> (res: TokenVerifyResult)
    ensures
        status == 200 ==> res == TokenVerifyResult::Valid,
        status == 401 || status == 403 ==> res == TokenVerifyResult::Invalid,
        status != 200 && status != 401 && status != 403 ==> res is NetworkError
            && res->NetworkError_0@ == "Server returned "@ + decimal(status as nat),
{
    if status == 200 {
        TokenVerifyResult::Valid
    } else if status == 401 || status == 403 {
        TokenVerifyResult::Invalid
    } else {
        let s = u64_to_decimal(status as u64);
        TokenVerifyResult::NetworkError(concat2("Server returned ", s.as_str()))
    }
}

/// Answer to a device code request.
#[derive(Debug, PartialEq)]
pub struct DeviceCodeResponse {
    pub device_code: String,
    pub user_code: String,
    pub verification_uri: String,
    pub expires_in: u64,
    pub interval: Option<u64>,
}

/// Request body of a token poll.
#[derive(Debug, PartialEq)]
pub struct TokenRequest {
    pub device_code: String,
    pub grant_type: String,
}

/// The token request for a device code.
pub fn token_request(device_code: &str) -> (res: TokenRequest)
    ensures
        res.device_code@ == device_code@,
        res.grant_type@ == "device_code"@,
{
    TokenRequest {
        device_code: String::from_str(device_code),
        grant_type: String::from_str("device_code"),
    }
}

/// Error body of a token poll.
#[derive(Debug, PartialEq)]
pub struct TokenErrorResponse {
    pub error: String,
    pub error_description: Option<String>,
}

/// A granted token, with the network it belongs to.
#[derive(Debug, PartialEq)]
pub struct TokenResponse {
    pub access_token: String,
    pub token_type: String,
    pub expires_in: Option<u64>,
    pub network_id: String,
    pub network_name: String,
    pub user_email: String,
    pub automatic_full_scan_min_interval_seconds: Option<u64>,
    pub health_poll_interval_seconds: Option<u64>,
}

/// Network information held by the cloud.
#[derive(Debug, PartialEq)]
pub struct NetworkInfoResponse {
    pub network_id: String,
    pub network_name: String,
    pub last_sync_at: Option<String>,
}

/// How the status of a token poll answer is read.
#[derive(Debug, Clone, Copy, PartialEq, Eq, Structural)]
pub enum TokenPollStatus {
    /// 200: the body is the token.
    Granted,
    /// 400: the body says why there is no token yet.
    NotYet,
    /// Anything else: the poll failed.
    Failed,
}

/// Reads the status of a token poll answer.
pub fn token_poll_status(status: u16) -> (res: TokenPollStatus)
    ensures
        status == 200 ==> res == TokenPollStatus::Granted,
        status == 400 ==> res == TokenPollStatus::NotYet,
        status != 200 && status != 400 ==> res == TokenPollStatus::Failed,
{
    if status == 200 {
        TokenPollStatus::Granted
    } else if status == 400 {
        TokenPollStatus::NotYet
    } else {
        TokenPollStatus::Failed
    }
}

/// The error text of a refused token poll: the error code, a colon and the
/// description (empty when missing).
pub open spec fn token_error_text(error: TokenErrorResponse) -> Seq<char> {
    error.error@ + ": "@ + match error.error_description {
        Some(d) => d@,
        None => Seq::empty(),
    }
}

/// Reads the body of a 400 answer to a token poll (`None` when it could not
/// be parsed): still waiting (`Ok(())`) when the error is
/// `authorization_pending` or the body is unreadable, otherwise an error.
pub fn token_poll_error_outcome(error: Option<TokenErrorResponse>) -> (res: Result<(), String>)
    ensures
        error is None ==> res is Ok,
        error is Some && error->0.error@ == "authorization_pending"@ ==> res is Ok,
        error is Some && error->0.error@ != "authorization_pending"@ ==> res is Err
            && res->Err_0@ == token_error_text(error->0),
{
    match error {
        None => Ok(()),
        Some(e) => {
            if str_equal(e.error.as_str(), "authorization_pending") {
                Ok(())
            } else {
                let mut text = concat2(e.error.as_str(), ": ");
                match &e.error_description {
                    Some(d) => {
                        text.append(d.as_str());
                    },
                    None => {
                        assert(text@ + Seq::<char>::empty() =~= text@);
                    },
                }
                Err(text)
            }
        },
    }
}

/// A device as uploaded with a scan.
#[derive(Debug, PartialEq)]
pub struct ScanDevice {
    pub ip: String,
    pub mac: Option<String>,
    pub response_time_ms: Option<ResponseTime>,
    pub hostname: Option<String>,
    /// The device is the detected gateway.
    pub is_gateway: bool,
    pub vendor: Option<String>,
    pub device_type: Option<String>,
}

/// The upload form of a device: its fields, and whether its IP is the
/// gateway's.
pub open spec fn scan_device(d: Device, gateway_ip: Option<Seq<char>>) -> ScanDevice {
    ScanDevice {
        ip: d.ip,
        mac: d.mac,
        response_time_ms: d.response_time_ms,
        hostname: d.hostname,
        is_gateway: gateway_ip == Some(d.ip@),
        vendor: d.vendor,
        device_type: d.device_type,
    }
}

/// `u` carries every field of `d` as it is (IP, MAC, round-trip time,
/// hostname, vendor, device type), and is marked as gateway exactly when the
/// gateway's IP is `d`'s.
pub open spec fn uploads_device(u: ScanDevice, d: Device, gateway_ip: Option<Seq<char>>) -> bool {
    &&& u.ip == d.ip
    &&& u.mac == d.mac
    &&& u.response_time_ms == d.response_time_ms
    &&& u.hostname == d.hostname
    &&& u.vendor == d.vendor
    &&& u.device_type == d.device_type
    &&& u.is_gateway == (gateway_ip == Some(d.ip@))
}

/// The upload form of a device drops nothing: every field of the device is
/// sent as it is, and only the gateway's IP is marked as gateway.
pub proof fn lemma_scan_device_uploads_device()
    ensures
        forall|d: Device, g: Option<Seq<char>>| #[trigger] uploads_device(scan_device(d, g), d, g),
{
}

/// The view of an optional string slice.
pub open spec fn opt_str_view(o: Option<&str>) -> Option<Seq<char>> {
    match o {
        Some(s) => Some(s@),
        None => None,
    }
}

/// The devices of a scan upload, in order; a device is marked as gateway
/// when its IP is the detected gateway's (none when no gateway is given).
pub fn scan_devices_payload(devices: &Vec<Device>, gateway_ip: Option<&str>) -> (res: Vec<ScanDevice>)
    ensures
        res@.len() == devices@.len(),
        forall|i: int|
            0 <= i < devices@.len() ==> #[trigger] res@[i] == scan_device(
                devices@[i],
                opt_str_view(gateway_ip),
            ),
        forall|i: int|
            0 <= i < devices@.len() ==> uploads_device(#[trigger] res@[i], devices@[i], opt_str_view(gateway_ip)),
{
    proof {
        lemma_scan_device_uploads_device();
    }
    let mut res: Vec<ScanDevice> = Vec::new();
    let mut i: usize = 0;
    while i < devices.len()
        invariant
            i <= devices@.len(),
            res@.len() == i,
            forall|j: int|
                0 <= j < i ==> #[trigger] res@[j] == scan_device(
                    devices@[j],
                    opt_str_view(gateway_ip),
                ),
        decreases devices.len() - i,
    {
        let d = &devices[i];
        let is_gateway = match gateway_ip {
            Some(gw) => str_equal(gw, d.ip.as_str()),
            None => false,
        };
        res.push(
            ScanDevice {
                ip: d.ip.clone(),
                mac: clone_opt_string(&d.mac),
                response_time_ms: d.response_time_ms,
                hostname: clone_opt_string(&d.hostname),
                is_gateway,
                vendor: clone_opt_string(&d.vendor),
                device_type: clone_opt_string(&d.device_type),
            },
        );
        i = i + 1;
    }
    res
}

/// A health result as uploaded.
#[derive(Debug, PartialEq)]
pub struct HealthCheckResult {
    pub ip: String,
    pub reachable: bool,
    pub response_time_ms: Option<ResponseTime>,
}

/// The results of a health check upload, one per device result, in order.
pub fn health_results_payload(results: &Vec<DeviceHealthResult>) -> (res: Vec<HealthCheckResult>)
    ensures
        res@.len() == results@.len(),
        forall|i: int|
            0 <= i < results@.len() ==> #[trigger] res@[i] == (HealthCheckResult {
                ip: results@[i].ip,
                reachable: results@[i].reachable,
                response_time_ms: results@[i].response_time_ms,
            }),
{
    let mut res: Vec<HealthCheckResult> = Vec::new();
    let mut i: usize = 0;
    while i < results.len()
        invariant
            i <= results@.len(),
            res@.len() == i,
            forall|j: int|
                0 <= j < i ==> #[trigger] res@[j] == (HealthCheckResult {
                    ip: results@[j].ip,
                    reachable: results@[j].reachable,
                    response_time_ms: results@[j].response_time_ms,
                }),
        decreases results.len() - i,
    {
        let r = &results[i];
        res.push(
            HealthCheckResult {
                ip: r.ip.clone(),
                reachable: r.reachable,
                response_time_ms: r.response_time_ms,
            },
        );
        i = i + 1;
    }
    res
}

/// The network a scan upload describes.
#[derive(Debug, PartialEq)]
pub struct NetworkInfo {
    pub subnet: Option<String>,
    pub interface: Option<String>,
}

/// Body of a scan upload.
#[derive(Debug, PartialEq)]
pub struct SyncRequest {
    /// When the upload was made (RFC 3339).
    pub timestamp: String,
    pub scan_duration_ms: Option<u64>,
    pub devices: Vec<ScanDevice>,
    pub network_info: Option<NetworkInfo>,
}

/// The upload of a scan, made at `timestamp`: its devices (the gateway's
/// marked), no duration, and the scanned subnet and interface.
pub fn scan_sync_request(
    timestamp: String,
    devices: &Vec<Device>,
    gateway_ip: Option<&str>,
    subnet: &str,
    interface: &str,
) -> (res: SyncRequest)
    ensures
        res.timestamp == timestamp,
        res.scan_duration_ms is None,
        res.devices@.len() == devices@.len(),
        forall|i: int|
            0 <= i < devices@.len() ==> #[trigger] res.devices@[i] == scan_device(
                devices@[i],
                opt_str_view(gateway_ip),
            ),
        forall|i: int|
            0 <= i < devices@.len() ==> uploads_device(
                #[trigger] res.devices@[i],
                devices@[i],
                opt_str_view(gateway_ip),
            ),
        res.network_info is Some,
        opt_view(res.network_info->0.subnet) == Some(subnet@),
        opt_view(res.network_info->0.interface) == Some(interface@),
{
    SyncRequest {
        timestamp,
        scan_duration_ms: None,
        devices: scan_devices_payload(devices, gateway_ip),
        network_info: Some(
            NetworkInfo {
                subnet: Some(String::from_str(subnet)),
                interface: Some(String::from_str(interface)),
            },
        ),
    }
}

/// The upload of a bare device list, made at `timestamp`: no gateway, no
/// duration, no network information.
pub fn devices_sync_request(timestamp: String, devices: &Vec<Device>) -> (res: SyncRequest)
    ensures
        res.timestamp == timestamp,
        res.scan_duration_ms is None,
        res.devices@.len() == devices@.len(),
        forall|i: int|
            0 <= i < devices@.len() ==> #[trigger] res.devices@[i] == scan_device(
                devices@[i],
                None,
            ),
        forall|i: int|
            0 <= i < devices@.len() ==> uploads_device(#[trigger] res.devices@[i], devices@[i], None),
        res.network_info is None,
{
    SyncRequest {
        timestamp,
        scan_duration_ms: None,
        devices: scan_devices_payload(devices, None),
        network_info: None,
    }
}

/// Body of a health check upload.
#[derive(Debug, PartialEq)]
pub struct HealthCheckRequest {
    /// When the upload was made (RFC 3339).
    pub timestamp: String,
    pub results: Vec<HealthCheckResult>,
}

/// The upload of health check results, made at `timestamp`.
pub fn health_check_request(timestamp: String, results: &Vec<DeviceHealthResult>) -> (res:
    HealthCheckRequest)
    ensures
        res.timestamp == timestamp,
        res.results@.len() == results@.len(),
        forall|i: int|
            0 <= i < results@.len() ==> #[trigger] res.results@[i] == (HealthCheckResult {
                ip: results@[i].ip,
                reachable: results@[i].reachable,
                response_time_ms: results@[i].response_time_ms,
            }),
{
    HealthCheckRequest { timestamp, results: health_results_payload(results) }
}

} // verus!
