//! Scheduler state: scan and health-check intervals, progress and
//! cancellation flags, the known devices and the last scan time.

use vstd::prelude::*;
use crate::cancellation::{cancel, CancelledToken};
use crate::device::Device;
use crate::merge::{merged_devices, spec_merge_devices};
use crate::persistence::{save_scan_results, save_scan_time, starts_from, AgentState};
use crate::text::{concat2, concat3, decimal, opt_view, str_equal, u64_to_decimal};

verus! {

#[verifier::external_type_specification]
#[verifier::external_body]
pub struct ExCancellationToken(tokio_util::sync::CancellationToken);

/// A fresh token, not cancelled.
///
/// Trusted: wraps `CancellationToken::new`; nothing is stated of the result.
#[verifier::external_body]
fn new_cancel_token() -> tokio_util::sync::CancellationToken {
    tokio_util::sync::CancellationToken::new()
}

/// A handle on the same cancellation state.
///
/// Trusted: wraps `CancellationToken::clone`. The clone shares the
/// original's cancellation state, and tokio-util's `PartialEq` compares
/// tokens by that shared state, so the contract takes the clone to be the
/// same token value.
#[verifier::external_body]
fn clone_cancel_token(token: &tokio_util::sync::CancellationToken) -> (res:
    tokio_util::sync::CancellationToken)
    ensures
        res == *token,
{
    token.clone()
}

/// The current Unix time in whole seconds.
///
/// Trusted: wraps `SystemTime::now`, measured from `UNIX_EPOCH` (0 when the
/// clock is before it). Nothing is stated of the result: it is the time.
#[verifier::external_body]
fn unix_now_seconds() -> u64 {
    std::time::SystemTime::now().duration_since(std::time::UNIX_EPOCH).unwrap_or_default().as_secs()
}

/// What `chrono` writes for the UTC date and time `secs` seconds after the
/// Unix epoch in RFC 3339 form (`None` when `DateTime::from_timestamp`
/// finds the value out of range).
pub uninterp spec fn spec_rfc3339_from_unix_seconds(secs: i64) -> Option<Seq<char>>;

/// Largest timestamp for which this library relies on `chrono` accepting
/// the value (about the year 255,000; chrono's range ends in 262,142).
pub const RFC3339_SAFE_MAX_SECONDS: i64 = 8_000_000_000_000;

/// The RFC 3339 text of a Unix timestamp.
///
/// Trusted: calls `chrono::DateTime::from_timestamp(secs, 0)` and, on
/// success, `to_rfc3339`. The result is named; chrono's source returns
/// `None` only when the day count leaves its date range, which does not
/// happen from 0 to `RFC3339_SAFE_MAX_SECONDS`.
#[verifier::external_body]
fn rfc3339_from_unix_seconds(secs: i64) -> (res: Option<String>)
    ensures
        opt_view(res) == spec_rfc3339_from_unix_seconds(secs),
        0 <= secs <= RFC3339_SAFE_MAX_SECONDS ==> res is Some,
{
    match chrono::DateTime::from_timestamp(secs, 0) {
        Some(datetime) => Some(datetime.to_rfc3339()),
        None => None,
    }
}

/// Default scan interval: five minutes.
pub const DEFAULT_SCAN_INTERVAL_SECONDS: u64 = 300;

/// Default health check interval: one minute.
pub const DEFAULT_HEALTH_CHECK_INTERVAL_SECONDS: u64 = 60;

/// The scheduler's state.
pub struct SchedulerState {
    /// Seconds between background scans.
    pub scan_interval_secs: u64,
    /// Seconds between background health checks.
    pub health_check_interval_secs: u64,
    /// Minimum seconds between automatic discovery scans.
    pub automatic_full_scan_min_interval_secs: u64,
    /// Background tasks have been started and not stopped.
    pub background_running: bool,
    /// A network scan is in progress.
    pub scanning_in_progress: bool,
    /// A health check is in progress.
    pub health_check_in_progress: bool,
    /// Cancellation of the current scan was requested.
    pub scan_cancel_requested: bool,
    /// Devices known from scans and health checks.
    pub known_devices: Vec<Device>,
    /// Unix time of the last completed scan; 0 when never scanned.
    pub last_scan_time: u64,
    /// Token shared with the background tasks, while they run.
    pub cancel_token: Option<tokio_util::sync::CancellationToken>,
}

/// The state of a freshly started agent, before anything is loaded.
pub open spec fn is_initial_state(s: SchedulerState) -> bool {
    &&& s.scan_interval_secs == DEFAULT_SCAN_INTERVAL_SECONDS
    &&& s.health_check_interval_secs == DEFAULT_HEALTH_CHECK_INTERVAL_SECONDS
    &&& s.automatic_full_scan_min_interval_secs
        == crate::persistence::DEFAULT_AUTOMATIC_FULL_SCAN_MIN_INTERVAL_SECONDS
    &&& !s.background_running
    &&& !s.scanning_in_progress
    &&& !s.health_check_in_progress
    &&& !s.scan_cancel_requested
    &&& s.known_devices@.len() == 0
    &&& s.last_scan_time == 0
    &&& s.cancel_token is None
}

impl SchedulerState {
    /// The state of a freshly started agent.
    pub fn new() -> (res: Self)
        ensures
            is_initial_state(res),
    {
        SchedulerState {
            scan_interval_secs: DEFAULT_SCAN_INTERVAL_SECONDS,
            health_check_interval_secs: DEFAULT_HEALTH_CHECK_INTERVAL_SECONDS,
            automatic_full_scan_min_interval_secs:
                crate::persistence::DEFAULT_AUTOMATIC_FULL_SCAN_MIN_INTERVAL_SECONDS,
            background_running: false,
            scanning_in_progress: false,
            health_check_in_progress: false,
            scan_cancel_requested: false,
            known_devices: Vec::new(),
            last_scan_time: 0,
            cancel_token: None,
        }
    }
}

/// `res` is the scheduler state started from the persisted state `l`: the
/// last scan time, the intervals that were set (non-zero) and the devices
/// are taken from it; everything else is as in a fresh agent.
pub open spec fn initialized_from(l: AgentState, res: SchedulerState) -> bool {
    &&& res.last_scan_time == l.last_scan_time
    &&& res.scan_interval_secs == if l.scan_interval_minutes > 0 {
        l.scan_interval_minutes * 60
    } else {
        DEFAULT_SCAN_INTERVAL_SECONDS as int
    }
    &&& res.health_check_interval_secs == if l.health_check_interval_seconds > 0 {
        l.health_check_interval_seconds
    } else {
        DEFAULT_HEALTH_CHECK_INTERVAL_SECONDS
    }
    &&& res.known_devices@ == l.devices@
    &&& res.automatic_full_scan_min_interval_secs
        == crate::persistence::DEFAULT_AUTOMATIC_FULL_SCAN_MIN_INTERVAL_SECONDS
    &&& !res.background_running
    &&& !res.scanning_in_progress
    &&& !res.health_check_in_progress
    &&& !res.scan_cancel_requested
    &&& res.cancel_token is None
}

/// The scheduler's state after loading the persisted state at startup (a
/// fresh state when none could be loaded).
pub fn init(loaded: Option<AgentState>) -> (res: SchedulerState)
    requires
        loaded is Some ==> loaded->0.scan_interval_minutes * 60 <= u64::MAX,
    ensures
        loaded is None ==> is_initial_state(res),
        loaded is Some ==> initialized_from(loaded->0, res),
{
    let mut state = SchedulerState::new();
    match loaded {
        Some(l) => {
            state.last_scan_time = l.last_scan_time;
            if l.scan_interval_minutes > 0 {
                state.scan_interval_secs = l.scan_interval_minutes * 60;
            }
            if l.health_check_interval_seconds > 0 {
                state.health_check_interval_secs = l.health_check_interval_seconds;
            }
            if l.devices.len() > 0 {
                state.known_devices = l.devices;
            } else {
                assert(state.known_devices@ =~= l.devices@);
            }
        },
        None => {},
    }
    state
}

/// `s` with the scan interval set to `minutes` minutes.
pub open spec fn with_scan_interval(s: SchedulerState, minutes: u64) -> SchedulerState {
    SchedulerState { scan_interval_secs: (minutes * 60) as u64, ..s }
}

/// The scan interval of `s` in whole minutes.
pub open spec fn scan_interval_minutes(s: SchedulerState) -> u64 {
    s.scan_interval_secs / 60
}

/// Sets the scan interval, given in minutes.
pub fn set_scan_interval(state: &mut SchedulerState, minutes: u64)
    requires
        minutes * 60 <= u64::MAX,
    ensures
        *final(state) == with_scan_interval(*old(state), minutes),
{
    state.scan_interval_secs = minutes * 60;
}

/// The scan interval in whole minutes.
pub fn get_scan_interval(state: &SchedulerState) -> (res: u64)
    ensures
        res == scan_interval_minutes(*state),
{
    state.scan_interval_secs / 60
}

/// `s` with the health check interval set to `seconds`.
pub open spec fn with_health_check_interval(s: SchedulerState, seconds: u64) -> SchedulerState {
    SchedulerState { health_check_interval_secs: seconds, ..s }
}

/// Sets the health check interval, in seconds.
pub fn set_health_check_interval(state: &mut SchedulerState, seconds: u64)
    ensures
        *final(state) == with_health_check_interval(*old(state), seconds),
{
    state.health_check_interval_secs = seconds;
}

/// The health check interval, in seconds.
pub fn get_health_check_interval(state: &SchedulerState) -> (res: u64)
    ensures
        res == state.health_check_interval_secs,
{
    state.health_check_interval_secs
}

/// Sets the minimum cooldown between automatic discovery scans, in seconds.
pub fn set_automatic_full_scan_min_interval_seconds(state: &mut SchedulerState, seconds: u64)
    ensures
        *final(state) == (SchedulerState {
            automatic_full_scan_min_interval_secs: seconds,
            ..*old(state)
        }),
{
    state.automatic_full_scan_min_interval_secs = seconds;
}

/// Replaces the list of known devices.
pub fn update_known_devices(state: &mut SchedulerState, devices: Vec<Device>)
    ensures
        final(state).known_devices@ == devices@,
        *final(state) == (SchedulerState { known_devices: final(state).known_devices, ..*old(state) }),
{
    state.known_devices = devices;
}

/// Merges a scan's devices into the known ones, preserving health data
/// (see `merged_devices`).
pub fn merge_devices_preserving_health(
    state: &mut SchedulerState,
    new_devices: Vec<Device>,
    subnet: &str,
)
    ensures
        final(state).known_devices@ == spec_merge_devices(
            old(state).known_devices@,
            new_devices@,
            subnet@,
        ),
        *final(state) == (SchedulerState { known_devices: final(state).known_devices, ..*old(state) }),
{
    let merged = merged_devices(&state.known_devices, new_devices, subnet);
    state.known_devices = merged;
}

fn copy_device_vec(devices: &Vec<Device>) -> (res: Vec<Device>)
    ensures
        res@ == devices@,
{
    let mut res: Vec<Device> = Vec::new();
    let mut i: usize = 0;
    while i < devices.len()
        invariant
            i <= devices.len(),
            res@ == devices@.take(i as int),
        decreases devices.len() - i,
    {
        res.push(devices[i].clone());
        i = i + 1;
        assert(res@ =~= devices@.take(i as int));
    }
    assert(devices@.take(devices.len() as int) =~= devices@);
    res
}

/// A copy of the known devices.
pub fn get_known_devices(state: &SchedulerState) -> (res: Vec<Device>)
    ensures
        res@ == state.known_devices@,
{
    copy_device_vec(&state.known_devices)
}

/// `s` recording a scan completed at Unix time `now`.
pub open spec fn with_scan_time(s: SchedulerState, now: u64) -> SchedulerState {
    SchedulerState { last_scan_time: now, ..s }
}

/// Records that a scan completed at Unix time `now`.
pub fn record_scan_time_at(state: &mut SchedulerState, now: u64)
    ensures
        *final(state) == with_scan_time(*old(state), now),
{
    state.last_scan_time = now;
}

/// Records that a scan just completed, at the current time, and returns the
/// state to persist: the loaded state (or the default) with that scan time.
pub fn record_scan_time(state: &mut SchedulerState, loaded: Option<AgentState>) -> (res: AgentState)
    ensures
        *final(state) == with_scan_time(*old(state), final(state).last_scan_time),
        exists|base: AgentState|
            starts_from(loaded, base) && res == (AgentState {
                last_scan_time: final(state).last_scan_time,
                ..base
            }),
        res.last_scan_time == final(state).last_scan_time,
{
    let now = unix_now_seconds();
    record_scan_time_at(state, now);
    save_scan_time(loaded, now)
}

/// The state to persist after a scan or health check: the loaded state (or
/// the default) with the known devices and the last scan time.
pub fn persist_state(state: &SchedulerState, loaded: Option<AgentState>) -> (res: AgentState)
    ensures
        exists|base: AgentState|
            starts_from(loaded, base) && res == (AgentState {
                devices: res.devices,
                last_scan_time: state.last_scan_time,
                ..base
            }),
        res.devices@ == state.known_devices@,
        res.last_scan_time == state.last_scan_time,
{
    save_scan_results(loaded, state.known_devices.as_slice(), state.last_scan_time)
}

/// The text reported as the last scan time of `s`: `None` if never
/// scanned, else chrono's RFC 3339 text of the timestamp.
pub open spec fn last_scan_time_text(s: SchedulerState) -> Option<Seq<char>> {
    if s.last_scan_time == 0 {
        None
    } else {
        spec_rfc3339_from_unix_seconds(s.last_scan_time as i64)
    }
}

/// The last scan time as RFC 3339 text; `None` if never scanned (or if the
/// time cannot be written as a date).
pub fn get_last_scan_time(state: &SchedulerState) -> (res: Option<String>)
    ensures
        opt_view(res) == last_scan_time_text(*state),
        0 < state.last_scan_time <= RFC3339_SAFE_MAX_SECONDS ==> res is Some,
{
    let timestamp = state.last_scan_time;
    if timestamp == 0 {
        return None;
    }
    rfc3339_from_unix_seconds(timestamp as i64)
}

/// Whether background tasks are running.
pub fn is_background_running(state: &SchedulerState) -> (res: bool)
    ensures
        res == state.background_running,
{
    state.background_running
}

/// Whether a network scan is in progress.
pub fn is_scanning(state: &SchedulerState) -> (res: bool)
    ensures
        res == state.scanning_in_progress,
{
    state.scanning_in_progress
}

/// Whether a health check is in progress.
pub fn is_health_checking(state: &SchedulerState) -> (res: bool)
    ensures
        res == state.health_check_in_progress,
{
    state.health_check_in_progress
}

/// Whether any scan or health check is in progress.
pub fn is_busy(state: &SchedulerState) -> (res: bool)
    ensures
        res == (state.scanning_in_progress || state.health_check_in_progress),
{
    is_scanning(state) || is_health_checking(state)
}

/// Whether an immediate scan (and health check) may be started: not while
/// a scan is in progress.
pub fn should_trigger_immediate_scan(state: &SchedulerState) -> (res: bool)
    ensures
        res == !state.scanning_in_progress,
{
    !state.scanning_in_progress
}

/// Background tasks run exactly while a token to stop them is held. Every
/// operation of this module keeps this.
pub open spec fn background_consistent(s: SchedulerState) -> bool {
    s.background_running <==> s.cancel_token is Some
}

/// `after` and `token` are what starting the background tasks of `before`
/// gives: refused (`None`, nothing changed) while they run; otherwise they
/// run and the token returned to them is the one held.
pub open spec fn started_from(
    before: SchedulerState,
    after: SchedulerState,
    token: Option<tokio_util::sync::CancellationToken>,
) -> bool {
    if before.background_running {
        token is None && after == before
    } else {
        token is Some && after == (SchedulerState {
            background_running: true,
            cancel_token: token,
            ..before
        })
    }
}

/// Starts the background tasks unless they already run: marks them running,
/// keeps the token that stops them (the one `stop_background_scanning`
/// cancels) and returns that same token for the tasks; `None` when they
/// already ran. In a consistent state no token is held when the tasks are
/// not running, so the token kept is a new one.
pub fn start_background_scanning(state: &mut SchedulerState) -> (res: Option<
    tokio_util::sync::CancellationToken,
>)
    ensures
        started_from(*old(state), *final(state), res),
        background_consistent(*old(state)) ==> background_consistent(*final(state)),
        background_consistent(*old(state)) && !old(state).background_running
            ==> old(state).cancel_token is None,
{
    if state.background_running {
        return None;
    }
    state.background_running = true;
    let token = new_cancel_token();
    state.cancel_token = Some(clone_cancel_token(&token));
    Some(token)
}

/// The state after stopping the background tasks of `s`: not running, no
/// token held. Nothing changes when no token is held.
pub open spec fn after_stop(s: SchedulerState) -> SchedulerState {
    if s.cancel_token is Some {
        SchedulerState { background_running: false, cancel_token: None, ..s }
    } else {
        s
    }
}

/// Stops the background tasks: cancels their token (returned as evidence of
/// the cancellation) and marks them stopped, so that they can be started
/// again. Nothing changes, and nothing is cancelled, when no token is held.
pub fn stop_background_scanning(state: &mut SchedulerState) -> (res: Option<CancelledToken>)
    ensures
        *final(state) == after_stop(*old(state)),
        background_consistent(*old(state)) ==> background_consistent(*final(state)),
        old(state).cancel_token is Some ==> res is Some && res->0.spec_token() == old(
            state,
        ).cancel_token->0,
        old(state).cancel_token is None ==> res is None,
{
    match state.cancel_token.take() {
        Some(token) => {
            let cancelled = cancel(token);
            state.background_running = false;
            Some(cancelled)
        },
        None => None,
    }
}

/// `s` with all scan-related state reset: never scanned, nothing in
/// progress, no cancellation requested.
pub open spec fn after_reset(s: SchedulerState) -> SchedulerState {
    SchedulerState {
        last_scan_time: 0,
        scanning_in_progress: false,
        health_check_in_progress: false,
        scan_cancel_requested: false,
        ..s
    }
}

/// Resets all scan-related state: never scanned, nothing in progress, no
/// cancellation requested. Intervals, devices and background tasks are kept.
pub fn reset_scan_state(state: &mut SchedulerState)
    ensures
        *final(state) == after_reset(*old(state)),
{
    state.last_scan_time = 0;
    state.scanning_in_progress = false;
    state.health_check_in_progress = false;
    state.scan_cancel_requested = false;
}

/// `s` with the scan cancellation request set to `requested`.
pub open spec fn with_scan_cancel(s: SchedulerState, requested: bool) -> SchedulerState {
    SchedulerState { scan_cancel_requested: requested, ..s }
}

/// Requests cancellation of the current scan.
pub fn request_scan_cancel(state: &mut SchedulerState)
    ensures
        *final(state) == with_scan_cancel(*old(state), true),
{
    state.scan_cancel_requested = true;
}

/// Whether cancellation of the scan was requested.
pub fn is_scan_cancelled(state: &SchedulerState) -> (res: bool)
    ensures
        res == state.scan_cancel_requested,
{
    state.scan_cancel_requested
}

/// Clears the cancellation request (done when a new scan starts).
pub fn clear_scan_cancel(state: &mut SchedulerState)
    ensures
        *final(state) == with_scan_cancel(*old(state), false),
{
    state.scan_cancel_requested = false;
}

/// Marks a network scan as in progress.
pub fn begin_scan(state: &mut SchedulerState)
    ensures
        *final(state) == (SchedulerState { scanning_in_progress: true, ..*old(state) }),
{
    state.scanning_in_progress = true;
}

/// Marks the network scan as complete.
pub fn end_scan(state: &mut SchedulerState)
    ensures
        *final(state) == (SchedulerState { scanning_in_progress: false, ..*old(state) }),
{
    state.scanning_in_progress = false;
}

/// A step of a background scan run.
#[derive(Debug, Clone, Copy, PartialEq, Eq, Structural)]
pub enum ScanRunStep {
    /// Scan the network (the scan is marked in progress first).
    Scan,
    /// Record the scan time, merge the devices and persist them.
    Absorb,
    /// Upload the scan when authenticated.
    Upload,
    /// Announce the completed scan with its device count.
    AnnounceComplete,
    /// Mark the scan complete.
    Release,
    /// Nothing more to do.
    Done,
}

/// The step that follows `step` in a background scan run; `scan_ok` says
/// whether the scan succeeded. A failed scan goes straight to `Release`;
/// every run marks the scan complete exactly once, just before `Done`.
pub fn next_scan_step(step: ScanRunStep, scan_ok: bool) -> (res: ScanRunStep)
    ensures
        step == ScanRunStep::Scan ==> res == if scan_ok {
            ScanRunStep::Absorb
        } else {
            ScanRunStep::Release
        },
        step == ScanRunStep::Absorb ==> res == ScanRunStep::Upload,
        step == ScanRunStep::Upload ==> res == ScanRunStep::AnnounceComplete,
        step == ScanRunStep::AnnounceComplete ==> res == ScanRunStep::Release,
        step == ScanRunStep::Release ==> res == ScanRunStep::Done,
        step == ScanRunStep::Done ==> res == ScanRunStep::Done,
{
    match step {
        ScanRunStep::Scan => if scan_ok {
            ScanRunStep::Absorb
        } else {
            ScanRunStep::Release
        },
        ScanRunStep::Absorb => ScanRunStep::Upload,
        ScanRunStep::Upload => ScanRunStep::AnnounceComplete,
        ScanRunStep::AnnounceComplete => ScanRunStep::Release,
        ScanRunStep::Release => ScanRunStep::Done,
        ScanRunStep::Done => ScanRunStep::Done,
    }
}

/// Whether a health check may start now.
#[derive(Debug, Clone, Copy, PartialEq, Eq, Structural)]
pub enum HealthCheckGate {
    /// Skipped: a network scan is in progress.
    ScanInProgress,
    /// Skipped: another health check is in progress.
    AlreadyRunning,
    /// Started: the health check is now marked in progress.
    Started,
}

/// Claims the health check slot: skipped while a scan runs or another
/// health check runs; otherwise marks a health check in progress.
pub fn try_begin_health_check(state: &mut SchedulerState) -> (res: HealthCheckGate)
    ensures
        old(state).scanning_in_progress ==> res == HealthCheckGate::ScanInProgress && *final(state)
            == *old(state),
        !old(state).scanning_in_progress && old(state).health_check_in_progress ==> res
            == HealthCheckGate::AlreadyRunning && *final(state) == *old(state),
        !old(state).scanning_in_progress && !old(state).health_check_in_progress ==> res
            == HealthCheckGate::Started && *final(state) == (SchedulerState {
            health_check_in_progress: true,
            ..*old(state)
        }),
{
    if state.scanning_in_progress {
        return HealthCheckGate::ScanInProgress;
    }
    if state.health_check_in_progress {
        return HealthCheckGate::AlreadyRunning;
    }
    state.health_check_in_progress = true;
    HealthCheckGate::Started
}

/// Marks the health check as complete.
pub fn end_health_check(state: &mut SchedulerState)
    ensures
        *final(state) == (SchedulerState { health_check_in_progress: false, ..*old(state) }),
{
    state.health_check_in_progress = false;
}

/// What a background task does when its timer ticks.
#[derive(Debug, Clone, Copy, PartialEq, Eq, Structural)]
pub enum TickAction {
    /// The interval changed: restart the timer with this many seconds
    /// (skipping its immediate first tick) and do nothing else this time.
    Restart(u64),
    /// Run the periodic work.
    Run,
}

/// The decision on a timer tick, given the interval the timer was started
/// with and the interval configured now.
pub fn on_interval_tick(last_interval: u64, current_interval: u64) -> (res: TickAction)
    ensures
        current_interval != last_interval ==> res == TickAction::Restart(current_interval),
        current_interval == last_interval ==> res == TickAction::Run,
{
    if current_interval != last_interval {
        TickAction::Restart(current_interval)
    } else {
        TickAction::Run
    }
}

/// What a cloud command asks the agent to do.
#[derive(Debug, PartialEq, Eq)]
pub enum CommandDispatch {
    /// Run a network scan (and upload it).
    RunScan,
    /// Run a health check with progress events.
    RunHealthCheck,
    /// Refuse, with this message.
    Reject(String),
}

/// Decides what to do with a cloud command of the given type:
/// `scan_network` scans unless a scan is in progress, `health_check` checks
/// unless a health check is in progress; any other type is refused.
pub fn dispatch_cloud_command(state: &SchedulerState, command_type: &str) -> (res: CommandDispatch)
    ensures
        command_type@ == "scan_network"@ ==> res == if state.scanning_in_progress {
            CommandDispatch::Reject(res->Reject_0)
        } else {
            CommandDispatch::RunScan
        },
        command_type@ == "scan_network"@ && state.scanning_in_progress ==> res->Reject_0@
            == "A scan is already in progress"@,
        command_type@ == "health_check"@ ==> res == if state.health_check_in_progress {
            CommandDispatch::Reject(res->Reject_0)
        } else {
            CommandDispatch::RunHealthCheck
        },
        command_type@ == "health_check"@ && state.health_check_in_progress ==> res->Reject_0@
            == "A health check is already in progress"@,
        command_type@ != "scan_network"@ && command_type@ != "health_check"@ ==> res is Reject
            && res->Reject_0@ == "Unknown command type: "@ + command_type@,
{
    proof {
        reveal_strlit("scan_network");
        reveal_strlit("health_check");
        assert("scan_network"@[0] != "health_check"@[0]);
    }
    if str_equal(command_type, "scan_network") {
        if state.scanning_in_progress {
            return CommandDispatch::Reject(String::from_str("A scan is already in progress"));
        }
        CommandDispatch::RunScan
    } else if str_equal(command_type, "health_check") {
        if state.health_check_in_progress {
            return CommandDispatch::Reject(String::from_str("A health check is already in progress"));
        }
        CommandDispatch::RunHealthCheck
    } else {
        CommandDispatch::Reject(concat2("Unknown command type: ", command_type))
    }
}

/// The number of devices with a round-trip time (online).
pub open spec fn online_count(devices: Seq<Device>) -> nat
    decreases devices.len(),
{
    if devices.len() == 0 {
        0
    } else {
        online_count(devices.drop_last()) + if devices.last().response_time_ms is Some {
            1nat
        } else {
            0nat
        }
    }
}

proof fn lemma_online_count_bound(devices: Seq<Device>)
    ensures
        online_count(devices) <= devices.len(),
    decreases devices.len(),
{
    if devices.len() > 0 {
        lemma_online_count_bound(devices.drop_last());
    }
}

fn count_online(devices: &Vec<Device>) -> (res: usize)
    ensures
        res == online_count(devices@),
{
    let mut n: usize = 0;
    let mut i: usize = 0;
    while i < devices.len()
        invariant
            i <= devices.len(),
            n == online_count(devices@.take(i as int)),
        decreases devices.len() - i,
    {
        assert(devices@.take(i as int + 1).drop_last() =~= devices@.take(i as int));
        proof {
            lemma_online_count_bound(devices@.take(i as int));
        }
        if devices[i].response_time_ms.is_some() {
            n = n + 1;
        }
        i = i + 1;
    }
    assert(devices@.take(devices.len() as int) =~= devices@);
    n
}

/// The result message of a `scan_network` command, given the number of
/// devices known after the scan.
pub fn scan_command_message(device_count: usize) -> (res: String)
    ensures
        res@ == "Scan completed: "@ + decimal(device_count as nat) + " devices found"@,
{
    let n = u64_to_decimal(device_count as u64);
    concat3("Scan completed: ", n.as_str(), " devices found")
}

/// The result message of a `health_check` command, given the devices known
/// after the check: how many of them are online, out of how many.
pub fn health_command_message(devices: &Vec<Device>) -> (res: String)
    ensures
        res@ == "Health check completed: "@ + decimal(online_count(devices@)) + "/"@ + decimal(
            devices@.len(),
        ) + " healthy"@,
{
    let healthy = u64_to_decimal(count_online(devices) as u64);
    let total = u64_to_decimal(devices.len() as u64);
    let mut res = concat3("Health check completed: ", healthy.as_str(), "/");
    res.append(total.as_str());
    res.append(" healthy");
    res
}

} // verus!
