//! Properties that relate several operations of the library.

use vstd::prelude::*;
use crate::persistence::{spec_take_restart_hidden, spec_take_silent_update_version, AgentState};
use crate::scheduler::{
    after_reset, after_stop, background_consistent, initialized_from, is_initial_state, started_from, last_scan_time_text, scan_interval_minutes, spec_rfc3339_from_unix_seconds,
    with_health_check_interval, with_scan_cancel, with_scan_interval, with_scan_time,
    SchedulerState,
};

verus! {

/// Reading the scan interval back after setting it gives the minutes set
/// (`set_scan_interval`, then `get_scan_interval`), and nothing else changes.
pub proof fn lemma_scan_interval_read_back(s: SchedulerState, minutes: u64)
    requires
        minutes * 60 <= u64::MAX,
    ensures
        scan_interval_minutes(with_scan_interval(s, minutes)) == minutes,
        with_scan_interval(s, minutes).health_check_interval_secs == s.health_check_interval_secs,
{
}

/// Reading the health check interval back after setting it gives the
/// seconds set, and the scan interval is untouched.
pub proof fn lemma_health_check_interval_read_back(s: SchedulerState, seconds: u64)
    ensures
        with_health_check_interval(s, seconds).health_check_interval_secs == seconds,
        scan_interval_minutes(with_health_check_interval(s, seconds)) == scan_interval_minutes(s),
{
}

/// After `request_scan_cancel` the scan reads as cancelled; after
/// `clear_scan_cancel` it does not, whatever came before.
pub proof fn lemma_scan_cancel_read_back(s: SchedulerState)
    ensures
        with_scan_cancel(s, true).scan_cancel_requested,
        !with_scan_cancel(with_scan_cancel(s, true), false).scan_cancel_requested,
        with_scan_cancel(with_scan_cancel(s, true), false) == with_scan_cancel(s, false),
{
}

/// After `reset_scan_state` the agent is idle (not busy, nothing to
/// cancel) and reports no last scan time; its intervals and devices stay.
pub proof fn lemma_reset_leaves_agent_idle(s: SchedulerState)
    ensures
        !(after_reset(s).scanning_in_progress || after_reset(s).health_check_in_progress),
        !after_reset(s).scan_cancel_requested,
        last_scan_time_text(after_reset(s)) is None,
        after_reset(s).scan_interval_secs == s.scan_interval_secs,
        after_reset(s).health_check_interval_secs == s.health_check_interval_secs,
        after_reset(s).known_devices == s.known_devices,
{
}

/// Once a scan was recorded at a non-zero time, the last scan time reported
/// is that time's RFC 3339 text.
pub proof fn lemma_recorded_scan_time_reported(s: SchedulerState, now: u64)
    requires
        now != 0,
    ensures
        last_scan_time_text(with_scan_time(s, now)) == spec_rfc3339_from_unix_seconds(now as i64),
{
}

/// The silent update flag is reported once: taking it from a state where
/// `set_silent_update_version` put a version gives that version, and taking
/// it again from the state saved gives nothing.
pub proof fn lemma_silent_update_version_taken_once(s: AgentState)
    requires
        s.silent_update_version is Some,
    ensures
        spec_take_silent_update_version(Some(s)).0 == s.silent_update_version,
        spec_take_silent_update_version(Some(s)).1 is Some,
        spec_take_silent_update_version(spec_take_silent_update_version(Some(s)).1).0 is None,
{
}

/// The restart-hidden flag is reported once: after `set_restart_hidden(true)`
/// taking it answers `true`, and taking it again from the state saved
/// answers `false`.
pub proof fn lemma_restart_hidden_taken_once(s: AgentState)
    requires
        s.restart_hidden,
    ensures
        spec_take_restart_hidden(Some(s)).0,
        !spec_take_restart_hidden(spec_take_restart_hidden(Some(s)).1).0,
{
}

/// What `persist_state` saved is what `init` restores: starting from the
/// saved state gives back the known devices and the last scan time.
pub proof fn lemma_persisted_scan_restored(s: SchedulerState, saved: AgentState, restored: SchedulerState)
    requires
        saved.devices@ == s.known_devices@,
        saved.last_scan_time == s.last_scan_time,
        initialized_from(saved, restored),
    ensures
        restored.known_devices@ == s.known_devices@,
        restored.last_scan_time == s.last_scan_time,
        !restored.background_running,
{
}

/// Stopping the background tasks makes them startable again: from a
/// consistent state in which they run, `stop_background_scanning` followed
/// by `start_background_scanning` is not refused, and the tasks run again
/// with the new token held.
pub proof fn lemma_stop_allows_restart(
    s0: SchedulerState,
    s2: SchedulerState,
    token: Option<tokio_util::sync::CancellationToken>,
)
    requires
        background_consistent(s0),
        s0.background_running,
        started_from(after_stop(s0), s2, token),
    ensures
        !after_stop(s0).background_running,
        after_stop(s0).cancel_token is None,
        token is Some,
        s2.background_running,
        s2.cancel_token == token,
        background_consistent(s2),
{
}

/// A fresh agent, and one started from a persisted state, run no background
/// tasks and hold no token.
pub proof fn lemma_start_states_background_consistent(s: SchedulerState, l: AgentState)
    ensures
        is_initial_state(s) ==> background_consistent(s),
        initialized_from(l, s) ==> background_consistent(s),
{
}

/// The operations that do not start or stop the background tasks keep them
/// consistent with the token held: they change neither.
pub proof fn lemma_other_operations_keep_background_consistent(s: SchedulerState, minutes: u64, seconds: u64, now: u64)
    requires
        background_consistent(s),
    ensures
        background_consistent(with_scan_interval(s, minutes)),
        background_consistent(with_health_check_interval(s, seconds)),
        background_consistent(with_scan_cancel(s, true)),
        background_consistent(with_scan_time(s, now)),
        background_consistent(after_reset(s)),
{
}

} // verus!
