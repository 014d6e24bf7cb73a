//! The agent's persisted state and the updates made to it. Reading and
//! writing the state file is done by the caller: each update takes the state
//! that was loaded (`None` when it could not be loaded) and returns the state
//! to write back.

use vstd::prelude::*;
use crate::device::{clone_opt_string, Device, ResponseTime};

verus! {

/// Default minimum cooldown between automatic discovery scans: two hours.
pub const DEFAULT_AUTOMATIC_FULL_SCAN_MIN_INTERVAL_SECONDS: u64 = 7200;

/// The default cooldown between automatic discovery scans, in seconds.
pub fn default_automatic_full_scan_min_interval_seconds() -> (res: u64)
    ensures
        res == DEFAULT_AUTOMATIC_FULL_SCAN_MIN_INTERVAL_SECONDS,
{
    DEFAULT_AUTOMATIC_FULL_SCAN_MIN_INTERVAL_SECONDS
}

/// Persisted agent state.
#[derive(Debug, PartialEq)]
pub struct AgentState {
    /// Last scan timestamp (Unix seconds).
    pub last_scan_time: u64,
    /// Known devices from the last scan.
    pub devices: Vec<Device>,
    /// Scan interval in minutes.
    pub scan_interval_minutes: u64,
    /// Health check interval in seconds.
    pub health_check_interval_seconds: u64,
    /// Last automatic discovery scan attempt (Unix seconds).
    pub last_automatic_scan_time: u64,
    /// Minimum cooldown between automatic discovery scans.
    pub automatic_full_scan_min_interval_seconds: u64,
    /// Version from a silent update that just completed.
    pub silent_update_version: Option<String>,
    /// Whether the app should start hidden after a restart.
    pub restart_hidden: bool,
}

/// An `AgentState` equal to the default one, field by field.
pub open spec fn is_default_agent_state(s: AgentState) -> bool {
    &&& s.last_scan_time == 0
    &&& s.devices@.len() == 0
    &&& s.scan_interval_minutes == 0
    &&& s.health_check_interval_seconds == 0
    &&& s.last_automatic_scan_time == 0
    &&& s.automatic_full_scan_min_interval_seconds
        == DEFAULT_AUTOMATIC_FULL_SCAN_MIN_INTERVAL_SECONDS
    &&& s.silent_update_version is None
    &&& !s.restart_hidden
}

impl Default for AgentState {
    fn default() -> (res: Self)
        ensures
            is_default_agent_state(res),
    {
        AgentState {
            last_scan_time: 0,
            devices: Vec::new(),
            scan_interval_minutes: 0,
            health_check_interval_seconds: 0,
            last_automatic_scan_time: 0,
            automatic_full_scan_min_interval_seconds:
                DEFAULT_AUTOMATIC_FULL_SCAN_MIN_INTERVAL_SECONDS,
            silent_update_version: None,
            restart_hidden: false,
        }
    }
}

impl Clone for AgentState {
    fn clone(&self) -> (res: Self)
        ensures
            res.devices@ == self.devices@,
            res == (AgentState { devices: res.devices, ..*self }),
    {
        let devices = copy_devices(self.devices.as_slice());
        assert(devices@ == self.devices@);
        AgentState {
            last_scan_time: self.last_scan_time,
            devices,
            scan_interval_minutes: self.scan_interval_minutes,
            health_check_interval_seconds: self.health_check_interval_seconds,
            last_automatic_scan_time: self.last_automatic_scan_time,
            automatic_full_scan_min_interval_seconds: self.automatic_full_scan_min_interval_seconds,
            silent_update_version: clone_opt_string(&self.silent_update_version),
            restart_hidden: self.restart_hidden,
        }
    }
}

/// The state an update starts from: the loaded one, else the default.
fn loaded_or_default(loaded: Option<AgentState>) -> (res: AgentState)
    ensures
        loaded is Some ==> res == loaded->0,
        loaded is None ==> is_default_agent_state(res),
{
    match loaded {
        Some(s) => s,
        None => AgentState::default(),
    }
}

/// `s` is what an update starting from `loaded` started from.
pub open spec fn starts_from(loaded: Option<AgentState>, s: AgentState) -> bool {
    match loaded {
        Some(l) => s == l,
        None => is_default_agent_state(s),
    }
}

fn copy_devices(devices: &[Device]) -> (res: Vec<Device>)
    ensures
        res@ == devices@,
{
    let mut res: Vec<Device> = Vec::new();
    let mut i: usize = 0;
    while i < devices.len()
        invariant
            i <= devices.len(),
            res@ == devices@.take(i as int),
        decreases devices.len() - i,
    {
        res.push(devices[i].clone());
        i = i + 1;
        assert(res@ =~= devices@.take(i as int));
    }
    assert(devices@.take(devices.len() as int) =~= devices@);
    res
}

/// The state to save after a scan: the loaded state (or the default) with
/// the given devices and scan time.
pub fn save_scan_results(loaded: Option<AgentState>, devices: &[Device], scan_time: u64) -> (res:
    AgentState)
    ensures
        exists|base: AgentState|
            starts_from(loaded, base) && res == (AgentState {
                devices: res.devices,
                last_scan_time: scan_time,
                ..base
            }),
        res.devices@ == devices@,
        res.last_scan_time == scan_time,
{
    let mut state = loaded_or_default(loaded);
    let ghost base = state;
    state.devices = copy_devices(devices);
    state.last_scan_time = scan_time;
    assert(starts_from(loaded, base));
    state
}

/// The state to save when a scan completes: the loaded state (or the
/// default) with the given scan time.
pub fn save_scan_time(loaded: Option<AgentState>, scan_time: u64) -> (res: AgentState)
    ensures
        exists|base: AgentState|
            starts_from(loaded, base) && res == (AgentState { last_scan_time: scan_time, ..base }),
        res.last_scan_time == scan_time,
{
    let mut state = loaded_or_default(loaded);
    let ghost base = state;
    state.last_scan_time = scan_time;
    assert(starts_from(loaded, base));
    state
}

/// The state to save after an automatic scan attempt: the loaded state (or
/// the default) with the given attempt time.
pub fn save_last_automatic_scan_time(loaded: Option<AgentState>, scan_time: u64) -> (res:
    AgentState)
    ensures
        exists|base: AgentState|
            starts_from(loaded, base) && res == (AgentState {
                last_automatic_scan_time: scan_time,
                ..base
            }),
{
    let mut state = loaded_or_default(loaded);
    let ghost base = state;
    state.last_automatic_scan_time = scan_time;
    assert(starts_from(loaded, base));
    state
}

/// The state to save with a new automatic full scan cooldown (seconds).
pub fn save_automatic_full_scan_min_interval_seconds(loaded: Option<AgentState>, seconds: u64) -> (res:
    AgentState)
    ensures
        exists|base: AgentState|
            starts_from(loaded, base) && res == (AgentState {
                automatic_full_scan_min_interval_seconds: seconds,
                ..base
            }),
{
    let mut state = loaded_or_default(loaded);
    let ghost base = state;
    state.automatic_full_scan_min_interval_seconds = seconds;
    assert(starts_from(loaded, base));
    state
}

/// The state to save with a new health check interval (seconds).
pub fn save_health_check_interval_seconds(loaded: Option<AgentState>, seconds: u64) -> (res:
    AgentState)
    ensures
        exists|base: AgentState|
            starts_from(loaded, base) && res == (AgentState {
                health_check_interval_seconds: seconds,
                ..base
            }),
{
    let mut state = loaded_or_default(loaded);
    let ghost base = state;
    state.health_check_interval_seconds = seconds;
    assert(starts_from(loaded, base));
    state
}

/// The stored last scan time: 0 when no state could be loaded.
pub fn get_stored_last_scan_time(loaded: Option<&AgentState>) -> (res: u64)
    ensures
        res == (match loaded {
            Some(s) => s.last_scan_time,
            None => 0,
        }),
{
    match loaded {
        Some(s) => s.last_scan_time,
        None => 0,
    }
}

/// The stored devices: none when no state could be loaded.
pub fn get_stored_devices(loaded: Option<AgentState>) -> (res: Vec<Device>)
    ensures
        res@ == (match loaded {
            Some(s) => s.devices@,
            None => Seq::<Device>::empty(),
        }),
{
    match loaded {
        Some(s) => s.devices,
        None => Vec::new(),
    }
}

/// Index of the first device in `devices` whose IP is `ip`.
pub open spec fn first_index_with_ip(devices: Seq<Device>, ip: Seq<char>) -> Option<int>
    decreases devices.len(),
{
    if devices.len() == 0 {
        None
    } else {
        match first_index_with_ip(devices.drop_last(), ip) {
            Some(i) => Some(i),
            None => if devices.last().ip@ == ip {
                Some(devices.len() - 1)
            } else {
                None
            },
        }
    }
}

/// `devices` with the round-trip time of the first device with IP `ip` set
/// to `time` (unchanged when no device has that IP).
pub open spec fn with_health(devices: Seq<Device>, ip: Seq<char>, time: Option<ResponseTime>) -> Seq<
    Device,
> {
    match first_index_with_ip(devices, ip) {
        Some(i) => devices.update(i, Device { response_time_ms: time, ..devices[i] }),
        None => devices,
    }
}

/// `devices` after applying each `(ip, time)` health result in turn.
pub open spec fn with_health_results(
    devices: Seq<Device>,
    results: Seq<(String, Option<ResponseTime>)>,
) -> Seq<Device>
    decreases results.len(),
{
    if results.len() == 0 {
        devices
    } else {
        let r = results.last();
        with_health(with_health_results(devices, results.drop_last()), r.0@, r.1)
    }
}

proof fn lemma_first_index_with_ip_in_range(devices: Seq<Device>, ip: Seq<char>)
    ensures
        first_index_with_ip(devices, ip) matches Some(i) ==> 0 <= i < devices.len()
            && devices[i].ip@ == ip,
    decreases devices.len(),
{
    if devices.len() > 0 {
        lemma_first_index_with_ip_in_range(devices.drop_last(), ip);
    }
}

fn find_first_ip(devices: &Vec<Device>, ip: &String) -> (res: Option<usize>)
    ensures
        match res {
            Some(i) => first_index_with_ip(devices@, ip@) == Some(i as int),
            None => first_index_with_ip(devices@, ip@) is None,
        },
{
    let mut i: usize = 0;
    while i < devices.len()
        invariant
            i <= devices.len(),
            first_index_with_ip(devices@.take(i as int), ip@) is None,
        decreases devices.len() - i,
    {
        assert(devices@.take(i as int + 1).drop_last() =~= devices@.take(i as int));
        if devices[i].ip == *ip {
            proof {
                lemma_first_index_prefix(devices@, ip@, i as int + 1);
            }
            return Some(i);
        }
        i = i + 1;
    }
    assert(devices@.take(devices.len() as int) =~= devices@);
    None
}

proof fn lemma_first_index_prefix(devices: Seq<Device>, ip: Seq<char>, n: int)
    requires
        0 <= n <= devices.len(),
        first_index_with_ip(devices.take(n), ip) is Some,
    ensures
        first_index_with_ip(devices, ip) == first_index_with_ip(devices.take(n), ip),
    decreases devices.len(),
{
    if n < devices.len() {
        assert(devices.drop_last().take(n) =~= devices.take(n));
        lemma_first_index_prefix(devices.drop_last(), ip, n);
    } else {
        assert(devices.take(n) =~= devices);
    }
}

/// The state to save after a health check: the loaded state (or the
/// default) where, for each `(ip, time)` in turn, the first device with that
/// IP gets that round-trip time. The caller saves it and hands back its
/// devices.
pub fn update_device_health(
    loaded: Option<AgentState>,
    health_results: &[(String, Option<ResponseTime>)],
) -> (res: AgentState)
    ensures
        exists|base: AgentState|
            starts_from(loaded, base) && res == (AgentState { devices: res.devices, ..base })
                && res.devices@ == with_health_results(base.devices@, health_results@),
{
    let mut state = loaded_or_default(loaded);
    let ghost base = state;
    let mut k: usize = 0;
    while k < health_results.len()
        invariant
            k <= health_results.len(),
            state == (AgentState { devices: state.devices, ..base }),
            state.devices@ == with_health_results(base.devices@, health_results@.take(k as int)),
        decreases health_results.len() - k,
    {
        let ghost before = state.devices@;
        let (ip, time) = &health_results[k];
        assert(health_results@.take(k as int + 1).drop_last() =~= health_results@.take(k as int));
        assert(health_results@.take(k as int + 1).last() == health_results@[k as int]);
        match find_first_ip(&state.devices, ip) {
            Some(i) => {
                proof {
                    lemma_first_index_with_ip_in_range(before, ip@);
                }
                let mut d = state.devices[i].clone();
                d.response_time_ms = *time;
                state.devices.set(i, d);
                assert(state.devices@ =~= with_health(before, ip@, *time));
            },
            None => {},
        }
        k = k + 1;
    }
    assert(health_results@.take(health_results.len() as int) =~= health_results@);
    assert(starts_from(loaded, base));
    state
}

/// The state to save with the silent update version flag set.
pub fn set_silent_update_version(loaded: Option<AgentState>, version: &str) -> (res: AgentState)
    ensures
        exists|base: AgentState|
            starts_from(loaded, base) && res == (AgentState {
                silent_update_version: res.silent_update_version,
                ..base
            }),
        res.silent_update_version is Some,
        res.silent_update_version->0@ == version@,
{
    let mut state = loaded_or_default(loaded);
    let ghost base = state;
    state.silent_update_version = Some(String::from_str(version));
    assert(starts_from(loaded, base));
    state
}

/// The silent update version flag, without clearing it; `None` when no
/// state could be loaded.
pub fn get_silent_update_version(loaded: Option<AgentState>) -> (res: Option<String>)
    ensures
        res == (match loaded {
            Some(s) => s.silent_update_version,
            None => None,
        }),
{
    match loaded {
        Some(s) => s.silent_update_version,
        None => None,
    }
}

/// Taking the silent update flag from `loaded`: the version, and the state
/// to save (with the flag cleared) when there was one.
pub open spec fn spec_take_silent_update_version(loaded: Option<AgentState>) -> (
    Option<String>,
    Option<AgentState>,
) {
    match loaded {
        Some(s) => match s.silent_update_version {
            Some(v) => (Some(v), Some(AgentState { silent_update_version: None, ..s })),
            None => (None, None),
        },
        None => (None, None),
    }
}

/// Takes the silent update version flag: returns the version (if a silent
/// update just occurred) and, when there was one, the state to save with the
/// flag cleared. Nothing is taken when no state could be loaded.
pub fn take_silent_update_version(loaded: Option<AgentState>) -> (res: (
    Option<String>,
    Option<AgentState>,
))
    ensures
        res == spec_take_silent_update_version(loaded),
{
    match loaded {
        None => (None, None),
        Some(mut state) => {
            let version = state.silent_update_version.take();
            if version.is_some() {
                (version, Some(state))
            } else {
                (version, None)
            }
        },
    }
}

/// The state to save with the restart hidden flag set to `hidden`.
pub fn set_restart_hidden(loaded: Option<AgentState>, hidden: bool) -> (res: AgentState)
    ensures
        exists|base: AgentState|
            starts_from(loaded, base) && res == (AgentState { restart_hidden: hidden, ..base }),
{
    let mut state = loaded_or_default(loaded);
    let ghost base = state;
    state.restart_hidden = hidden;
    assert(starts_from(loaded, base));
    state
}

/// Taking the restart hidden flag from `loaded`: whether it was set, and the
/// state to save (with the flag cleared) when it was.
pub open spec fn spec_take_restart_hidden(loaded: Option<AgentState>) -> (bool, Option<AgentState>) {
    match loaded {
        Some(s) => if s.restart_hidden {
            (true, Some(AgentState { restart_hidden: false, ..s }))
        } else {
            (false, None)
        },
        None => (false, None),
    }
}

/// Takes the restart hidden flag: returns whether the app should stay
/// hidden and, when it should, the state to save with the flag cleared.
/// `false` when no state could be loaded.
pub fn take_restart_hidden(loaded: Option<AgentState>) -> (res: (bool, Option<AgentState>))
    ensures
        res == spec_take_restart_hidden(loaded),
{
    match loaded {
        None => (false, None),
        Some(mut state) => {
            let hidden = state.restart_hidden;
            if hidden {
                state.restart_hidden = false;
                (true, Some(state))
            } else {
                (false, None)
            }
        },
    }
}

} // verus!
