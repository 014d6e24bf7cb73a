//! Device-flow login: the verification link, the login flow records, the
//! decisions of the token polling loop and the agent status built from an
//! authentication status.

use vstd::prelude::*;
use crate::cloud::{DeviceCodeResponse, TokenResponse};
use crate::device::Device;
use crate::scheduler::SchedulerState;
use crate::text::concat3;

verus! {

/// Whether the agent is signed in, and to which network.
#[derive(Debug, PartialEq)]
pub struct AuthStatus {
    pub authenticated: bool,
    pub user_email: Option<String>,
    pub network_id: Option<String>,
    pub network_name: Option<String>,
}

/// Event payload announcing the login URL.
#[derive(Debug, PartialEq)]
pub struct LoginUrlEvent {
    pub verification_url: String,
    pub user_code: String,
}

/// A started login flow, with the URL for manual access.
#[derive(Debug, PartialEq)]
pub struct LoginFlowStarted {
    pub verification_url: String,
    pub user_code: String,
    pub device_code: String,
    pub expires_in: u64,
    pub poll_interval: u64,
}

/// Answer of the login request to the front end.
#[derive(Debug, PartialEq)]
pub struct LoginFlowResponse {
    pub verification_url: String,
    pub user_code: String,
    pub device_code: String,
    pub expires_in: u64,
    pub poll_interval: u64,
}

/// The agent's status as shown to the user.
#[derive(Debug, PartialEq)]
pub struct AgentStatus {
    pub authenticated: bool,
    pub user_email: Option<String>,
    pub network_id: Option<String>,
    pub network_name: Option<String>,
    pub last_scan: Option<String>,
    pub next_scan: Option<String>,
    pub device_count: Option<usize>,
    pub scanning_in_progress: bool,
}

/// Result of a network scan, with whether it reached the cloud.
#[derive(Debug, PartialEq)]
pub struct ScanResultResponse {
    pub devices: Vec<Device>,
    pub synced_to_cloud: bool,
}

/// Token polling interval used when the server names none, in seconds.
pub const DEFAULT_POLL_INTERVAL_SECS: u64 = 5;

/// The verification link: the verification URI with the user code as its
/// `code` query parameter.
pub fn verification_link(verification_uri: &str, user_code: &str) -> (res: String)
    ensures
        res@ == verification_uri@ + "?code="@ + user_code@,
{
    concat3(verification_uri, "?code=", user_code)
}

/// The login flow started from a device code answer.
pub fn login_flow_started(resp: DeviceCodeResponse) -> (res: LoginFlowStarted)
    ensures
        res.verification_url@ == resp.verification_uri@ + "?code="@ + resp.user_code@,
        res.user_code == resp.user_code,
        res.device_code == resp.device_code,
        res.expires_in == resp.expires_in,
        res.poll_interval == match resp.interval {
            Some(i) => i,
            None => DEFAULT_POLL_INTERVAL_SECS,
        },
{
    let url = verification_link(resp.verification_uri.as_str(), resp.user_code.as_str());
    LoginFlowStarted {
        verification_url: url,
        user_code: resp.user_code,
        device_code: resp.device_code,
        expires_in: resp.expires_in,
        poll_interval: match resp.interval {
            Some(i) => i,
            None => DEFAULT_POLL_INTERVAL_SECS,
        },
    }
}

/// The event announcing a started login flow's URL and code.
pub fn login_url_event(info: &LoginFlowStarted) -> (res: LoginUrlEvent)
    ensures
        res.verification_url == info.verification_url,
        res.user_code == info.user_code,
{
    LoginUrlEvent { verification_url: info.verification_url.clone(), user_code: info.user_code.clone() }
}

/// The front end's answer for a started login flow.
pub fn login_flow_response(info: LoginFlowStarted) -> (res: LoginFlowResponse)
    ensures
        res.verification_url == info.verification_url,
        res.user_code == info.user_code,
        res.device_code == info.device_code,
        res.expires_in == info.expires_in,
        res.poll_interval == info.poll_interval,
{
    LoginFlowResponse {
        verification_url: info.verification_url,
        user_code: info.user_code,
        device_code: info.device_code,
        expires_in: info.expires_in,
        poll_interval: info.poll_interval,
    }
}

/// The device code has expired once more time than its lifetime has passed
/// since polling began.
pub fn login_deadline_passed(elapsed_nanos: u128, expires_in_secs: u64) -> (res: bool)
    ensures
        res == (elapsed_nanos > expires_in_secs * 1_000_000_000),
{
    elapsed_nanos > (expires_in_secs as u128) * 1_000_000_000
}

/// The error of an expired device code.
pub fn login_expired_message() -> (res: String)
    ensures
        res@ == "Device code expired. Please try again."@,
{
    String::from_str("Device code expired. Please try again.")
}

/// What happened in the token polling loop.
#[derive(Debug, Clone, Copy, PartialEq, Eq, Structural)]
pub enum LoginPollEvent {
    /// About to poll, this long after polling began.
    BeforePoll(u128),
    /// The server granted the token.
    Granted,
    /// The user has not authorized yet.
    Pending,
    /// The poll failed.
    Failed,
}

/// What the token polling loop does next.
#[derive(Debug, Clone, Copy, PartialEq, Eq, Structural)]
pub enum LoginPollAction {
    /// Poll the server for the token.
    Poll,
    /// Give up: the device code expired.
    Expired,
    /// Save the credentials and report the login.
    Complete,
    /// Wait this many seconds, then go around again.
    SleepThenRetry(u64),
    /// Report the poll's error.
    Fail,
}

/// The token polling loop's decision: before each poll, give up once the
/// code's lifetime has passed; after it, complete on a token, wait the
/// polling interval while authorization is pending, fail on an error.
pub fn login_poll_step(expires_in_secs: u64, poll_interval_secs: u64, event: LoginPollEvent) -> (res:
    LoginPollAction)
    ensures
        event matches LoginPollEvent::BeforePoll(elapsed) ==> res == if elapsed > expires_in_secs
            * 1_000_000_000 {
            LoginPollAction::Expired
        } else {
            LoginPollAction::Poll
        },
        event == LoginPollEvent::Granted ==> res == LoginPollAction::Complete,
        event == LoginPollEvent::Pending ==> res == LoginPollAction::SleepThenRetry(
            poll_interval_secs,
        ),
        event == LoginPollEvent::Failed ==> res == LoginPollAction::Fail,
{
    match event {
        LoginPollEvent::BeforePoll(elapsed) => {
            if login_deadline_passed(elapsed, expires_in_secs) {
                LoginPollAction::Expired
            } else {
                LoginPollAction::Poll
            }
        },
        LoginPollEvent::Granted => LoginPollAction::Complete,
        LoginPollEvent::Pending => LoginPollAction::SleepThenRetry(poll_interval_secs),
        LoginPollEvent::Failed => LoginPollAction::Fail,
    }
}

/// The status of a completed login: authenticated, with the token's user
/// and network.
pub fn auth_status_from_token(token: &TokenResponse) -> (res: AuthStatus)
    ensures
        res.authenticated,
        res.user_email == Some(token.user_email),
        res.network_id == Some(token.network_id),
        res.network_name == Some(token.network_name),
{
    AuthStatus {
        authenticated: true,
        user_email: Some(token.user_email.clone()),
        network_id: Some(token.network_id.clone()),
        network_name: Some(token.network_name.clone()),
    }
}

/// Applies the settings a granted token carries: the automatic scan
/// cooldown and the health check interval, each when present.
pub fn apply_token_settings(state: &mut SchedulerState, token: &TokenResponse)
    ensures
        *final(state) == (SchedulerState {
            automatic_full_scan_min_interval_secs: match token.automatic_full_scan_min_interval_seconds {
                Some(s) => s,
                None => old(state).automatic_full_scan_min_interval_secs,
            },
            health_check_interval_secs: match token.health_poll_interval_seconds {
                Some(s) => s,
                None => old(state).health_check_interval_secs,
            },
            ..*old(state)
        }),
{
    match token.automatic_full_scan_min_interval_seconds {
        Some(seconds) => crate::scheduler::set_automatic_full_scan_min_interval_seconds(
            state,
            seconds,
        ),
        None => {},
    }
    match token.health_poll_interval_seconds {
        Some(seconds) => crate::scheduler::set_health_check_interval(state, seconds),
        None => {},
    }
}

/// Whether background work starts after a login attempt: only once
/// authenticated.
pub fn should_start_background_work(status: &AuthStatus) -> (res: bool)
    ensures
        res == status.authenticated,
{
    status.authenticated
}

/// The agent status shown for an authentication status: its fields, the
/// last scan time, the device count when known, whether a scan runs; no
/// next scan time.
pub fn agent_status(
    auth: AuthStatus,
    last_scan: Option<String>,
    device_count: Option<usize>,
    scanning_in_progress: bool,
) -> (res: AgentStatus)
    ensures
        res == (AgentStatus {
            authenticated: auth.authenticated,
            user_email: auth.user_email,
            network_id: auth.network_id,
            network_name: auth.network_name,
            last_scan,
            next_scan: None,
            device_count,
            scanning_in_progress,
        }),
{
    AgentStatus {
        authenticated: auth.authenticated,
        user_email: auth.user_email,
        network_id: auth.network_id,
        network_name: auth.network_name,
        last_scan,
        next_scan: None,
        device_count,
        scanning_in_progress,
    }
}

} // verus!
