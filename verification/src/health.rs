//! Health checks: applying reachability outcomes to devices, counting, and
//! the progress reports of a check.

use vstd::prelude::*;
use crate::device::{Device, ResponseTime};
use crate::text::{concat3, decimal, u64_to_decimal};

verus! {

/// The health of one device after a check.
#[derive(Debug, PartialEq)]
pub struct DeviceHealthResult {
    pub ip: String,
    pub reachable: bool,
    pub response_time_ms: Option<ResponseTime>,
}

/// Stage of a health check, as reported in progress events.
#[derive(Debug, Clone, Copy, PartialEq, Eq, Structural)]
pub enum HealthCheckStage {
    Starting,
    CheckingDevices,
    Uploading,
    Complete,
}

/// A health check progress report.
#[derive(Debug, PartialEq)]
pub struct HealthCheckProgress {
    pub stage: HealthCheckStage,
    pub message: String,
    pub total_devices: usize,
    pub checked_devices: usize,
    pub healthy_devices: usize,
    /// Whether the results reached the cloud (set on the `Complete` stage).
    pub synced_to_cloud: Option<bool>,
}

/// Summary of a manual health check.
#[derive(Debug, PartialEq)]
pub struct HealthCheckStatus {
    pub total_devices: usize,
    pub healthy_devices: usize,
    pub unreachable_devices: usize,
    pub synced_to_cloud: bool,
    /// The device list with the latest health data.
    pub devices: Vec<Device>,
}

/// The result recorded for a device whose check gave `outcome` (the
/// round-trip time when it answered, `None` when unreachable).
pub open spec fn health_result(ip: String, outcome: Option<ResponseTime>) -> DeviceHealthResult {
    DeviceHealthResult { ip, reachable: outcome is Some, response_time_ms: outcome }
}

/// Records the outcome of checking one device: the device takes the
/// round-trip time (`None` when unreachable) and the result is returned.
pub fn record_health_outcome(device: &mut Device, outcome: Option<ResponseTime>) -> (res:
    DeviceHealthResult)
    ensures
        *final(device) == (Device { response_time_ms: outcome, ..*old(device) }),
        res == health_result(old(device).ip, outcome),
{
    device.response_time_ms = outcome;
    DeviceHealthResult { ip: device.ip.clone(), reachable: outcome.is_some(), response_time_ms: outcome }
}

/// Records the outcomes of checking each device, in order: `outcomes[i]` is
/// the outcome for `devices[i]`.
pub fn apply_health_outcomes(devices: &mut Vec<Device>, outcomes: &Vec<Option<ResponseTime>>) -> (res:
    Vec<DeviceHealthResult>)
    requires
        old(devices)@.len() == outcomes@.len(),
    ensures
        final(devices)@.len() == old(devices)@.len(),
        res@.len() == outcomes@.len(),
        forall|i: int|
            0 <= i < outcomes@.len() ==> #[trigger] final(devices)@[i] == (Device {
                response_time_ms: outcomes@[i],
                ..old(devices)@[i]
            }),
        forall|i: int|
            0 <= i < outcomes@.len() ==> #[trigger] res@[i] == health_result(
                old(devices)@[i].ip,
                outcomes@[i],
            ),
{
    let ghost before = devices@;
    let mut results: Vec<DeviceHealthResult> = Vec::new();
    let mut i: usize = 0;
    while i < outcomes.len()
        invariant
            i <= outcomes@.len(),
            devices@.len() == before.len(),
            before.len() == outcomes@.len(),
            results@.len() == i,
            forall|j: int|
                0 <= j < i ==> #[trigger] devices@[j] == (Device {
                    response_time_ms: outcomes@[j],
                    ..before[j]
                }),
            forall|j: int| i <= j < before.len() ==> #[trigger] devices@[j] == before[j],
            forall|j: int|
                0 <= j < i ==> #[trigger] results@[j] == health_result(before[j].ip, outcomes@[j]),
        decreases outcomes@.len() - i,
    {
        let mut d = devices[i].clone();
        let r = record_health_outcome(&mut d, outcomes[i]);
        devices.set(i, d);
        results.push(r);
        i = i + 1;
    }
    results
}

/// The number of reachable devices among the results.
pub open spec fn reachable_count(results: Seq<DeviceHealthResult>) -> nat
    decreases results.len(),
{
    if results.len() == 0 {
        0
    } else {
        reachable_count(results.drop_last()) + if results.last().reachable {
            1nat
        } else {
            0nat
        }
    }
}

proof fn lemma_reachable_count_bound(results: Seq<DeviceHealthResult>)
    ensures
        reachable_count(results) <= results.len(),
    decreases results.len(),
{
    if results.len() > 0 {
        lemma_reachable_count_bound(results.drop_last());
    }
}

/// Counts the reachable devices among the results.
pub fn count_reachable(results: &Vec<DeviceHealthResult>) -> (res: usize)
    ensures
        res == reachable_count(results@),
        res <= results@.len(),
{
    let mut n: usize = 0;
    let mut i: usize = 0;
    while i < results.len()
        invariant
            i <= results.len(),
            n == reachable_count(results@.take(i as int)),
        decreases results.len() - i,
    {
        assert(results@.take(i as int + 1).drop_last() =~= results@.take(i as int));
        proof {
            lemma_reachable_count_bound(results@.take(i as int));
        }
        if results[i].reachable {
            n = n + 1;
        }
        i = i + 1;
    }
    assert(results@.take(results.len() as int) =~= results@);
    proof {
        lemma_reachable_count_bound(results@);
    }
    n
}

/// The message of a manual health check refused for want of devices.
pub fn no_devices_to_check() -> (res: String)
    ensures
        res@ == "No devices to check. Run a scan first."@,
{
    String::from_str("No devices to check. Run a scan first.")
}

/// A manual health check may run only when devices are known; otherwise it
/// fails with the message of `no_devices_to_check`.
pub fn check_devices_present(devices: &Vec<Device>) -> (res: Result<(), String>)
    ensures
        res is Ok <==> devices@.len() > 0,
        res is Err ==> res->Err_0@ == "No devices to check. Run a scan first."@,
{
    if devices.len() == 0 {
        Err(no_devices_to_check())
    } else {
        Ok(())
    }
}

/// The summary of a manual health check: totals from the results, whether
/// they reached the cloud, and the updated devices.
pub fn health_check_status(
    results: &Vec<DeviceHealthResult>,
    devices: Vec<Device>,
    synced: bool,
) -> (res: HealthCheckStatus)
    ensures
        res.total_devices == results@.len(),
        res.healthy_devices == reachable_count(results@),
        res.unreachable_devices == results@.len() - reachable_count(results@),
        res.synced_to_cloud == synced,
        res.devices@ == devices@,
{
    let healthy = count_reachable(results);
    HealthCheckStatus {
        total_devices: results.len(),
        healthy_devices: healthy,
        unreachable_devices: results.len() - healthy,
        synced_to_cloud: synced,
        devices,
    }
}

/// A step of a health check run that reports progress.
#[derive(Debug, Clone, Copy, PartialEq, Eq, Structural)]
pub enum HealthRunStep {
    /// Report that there is nothing to check (complete, not synced).
    ReportNoDevices,
    /// Report that the checks start.
    ReportStarting,
    /// Check the next device and report it.
    CheckDevice,
    /// Store the updated devices and persist them.
    SaveResults,
    /// Report that the results are being uploaded.
    ReportUploading,
    /// Upload the results when authenticated.
    Upload,
    /// Report completion (with whether the upload succeeded), and the
    /// healthy and total counts.
    ReportComplete,
    /// Mark the health check complete.
    Release,
    /// Nothing more to do.
    Done,
}

/// The first step of a health check run, from the result of
/// `try_begin_health_check` and the number of devices to check: `Done` when
/// the check did not start (it was never marked in progress), the no-devices
/// report when there are no devices, else the starting report.
pub fn first_health_step(gate: crate::scheduler::HealthCheckGate, total: usize) -> (res:
    HealthRunStep)
    ensures
        gate != crate::scheduler::HealthCheckGate::Started ==> res == HealthRunStep::Done,
        gate == crate::scheduler::HealthCheckGate::Started && total == 0 ==> res
            == HealthRunStep::ReportNoDevices,
        gate == crate::scheduler::HealthCheckGate::Started && total > 0 ==> res
            == HealthRunStep::ReportStarting,
{
    match gate {
        crate::scheduler::HealthCheckGate::Started => if total == 0 {
            HealthRunStep::ReportNoDevices
        } else {
            HealthRunStep::ReportStarting
        },
        _ => HealthRunStep::Done,
    }
}

/// The step that follows `step`, given how many devices there are and how
/// many were checked: one `CheckDevice` per device, then saving, the
/// uploading report, the upload, the completion report; the check is marked
/// complete exactly once, just before `Done`, on every path that started.
pub fn next_health_step(step: HealthRunStep, total: usize, checked: usize) -> (res: HealthRunStep)
    ensures
        step == HealthRunStep::ReportNoDevices ==> res == HealthRunStep::Release,
        step == HealthRunStep::ReportStarting ==> res == if total > 0 {
            HealthRunStep::CheckDevice
        } else {
            HealthRunStep::SaveResults
        },
        step == HealthRunStep::CheckDevice ==> res == if checked < total {
            HealthRunStep::CheckDevice
        } else {
            HealthRunStep::SaveResults
        },
        step == HealthRunStep::SaveResults ==> res == HealthRunStep::ReportUploading,
        step == HealthRunStep::ReportUploading ==> res == HealthRunStep::Upload,
        step == HealthRunStep::Upload ==> res == HealthRunStep::ReportComplete,
        step == HealthRunStep::ReportComplete ==> res == HealthRunStep::Release,
        step == HealthRunStep::Release ==> res == HealthRunStep::Done,
        step == HealthRunStep::Done ==> res == HealthRunStep::Done,
{
    match step {
        HealthRunStep::ReportNoDevices => HealthRunStep::Release,
        HealthRunStep::ReportStarting => if total > 0 {
            HealthRunStep::CheckDevice
        } else {
            HealthRunStep::SaveResults
        },
        HealthRunStep::CheckDevice => if checked < total {
            HealthRunStep::CheckDevice
        } else {
            HealthRunStep::SaveResults
        },
        HealthRunStep::SaveResults => HealthRunStep::ReportUploading,
        HealthRunStep::ReportUploading => HealthRunStep::Upload,
        HealthRunStep::Upload => HealthRunStep::ReportComplete,
        HealthRunStep::ReportComplete => HealthRunStep::Release,
        HealthRunStep::Release => HealthRunStep::Done,
        HealthRunStep::Done => HealthRunStep::Done,
    }
}

/// A health check that reports progress as it goes: how many devices there
/// are, and one result per device checked so far (never more than there
/// are devices).
pub struct HealthCheckRun {
    total: usize,
    results: Vec<DeviceHealthResult>,
}

impl HealthCheckRun {
    #[verifier::type_invariant]
    spec fn checked_within_total(&self) -> bool {
        self.results@.len() <= self.total
    }

    /// How many devices the run is over.
    pub closed spec fn spec_total(&self) -> usize {
        self.total
    }

    /// The results gathered so far, in the order the devices were checked.
    pub closed spec fn spec_results(&self) -> Seq<DeviceHealthResult> {
        self.results@
    }

    /// How many devices were checked so far.
    pub open spec fn spec_checked(&self) -> nat {
        self.spec_results().len()
    }

    /// How many of the devices checked so far answered.
    pub open spec fn spec_healthy(&self) -> nat {
        reachable_count(self.spec_results())
    }

    /// A run over `total` devices, nothing checked yet.
    pub fn new(total: usize) -> (res: Self)
        ensures
            res.spec_total() == total,
            res.spec_results() == Seq::<DeviceHealthResult>::empty(),
    {
        HealthCheckRun { total, results: Vec::new() }
    }

    /// How many devices the run is over.
    pub fn total(&self) -> (res: usize)
        ensures
            res == self.spec_total(),
    {
        self.total
    }

    /// How many devices were checked so far (at most the total).
    pub fn checked(&self) -> (res: usize)
        ensures
            res == self.spec_checked(),
            res <= self.spec_total(),
    {
        proof {
            use_type_invariant(self);
        }
        self.results.len()
    }

    /// How many of the devices checked so far answered.
    pub fn healthy(&self) -> (res: usize)
        ensures
            res == self.spec_healthy(),
            res <= self.spec_checked(),
    {
        count_reachable(&self.results)
    }

    /// The results gathered so far.
    pub fn results(&self) -> (res: &Vec<DeviceHealthResult>)
        ensures
            res@ == self.spec_results(),
    {
        &self.results
    }

    /// The report made when there is nothing to check: complete, not synced.
    pub fn no_devices_progress() -> (res: HealthCheckProgress)
        ensures
            res.stage == HealthCheckStage::Complete,
            res.message@ == "No devices to check"@,
            res.total_devices == 0,
            res.checked_devices == 0,
            res.healthy_devices == 0,
            res.synced_to_cloud == Some(false),
    {
        HealthCheckProgress {
            stage: HealthCheckStage::Complete,
            message: String::from_str("No devices to check"),
            total_devices: 0,
            checked_devices: 0,
            healthy_devices: 0,
            synced_to_cloud: Some(false),
        }
    }

    /// The report made when the checks start.
    pub fn starting_progress(&self) -> (res: HealthCheckProgress)
        ensures
            res.stage == HealthCheckStage::Starting,
            res.message@ == "Checking "@ + decimal(self.spec_total() as nat) + " devices..."@,
            res.total_devices == self.spec_total(),
            res.checked_devices == 0,
            res.healthy_devices == 0,
            res.synced_to_cloud is None,
    {
        let n = u64_to_decimal(self.total as u64);
        HealthCheckProgress {
            stage: HealthCheckStage::Starting,
            message: concat3("Checking ", n.as_str(), " devices..."),
            total_devices: self.total,
            checked_devices: 0,
            healthy_devices: 0,
            synced_to_cloud: None,
        }
    }

    /// Records the outcome of checking the next device, which takes the
    /// round-trip time; returns the progress report for it.
    pub fn record(&mut self, device: &mut Device, outcome: Option<ResponseTime>) -> (res:
        HealthCheckProgress)
        requires
            old(self).spec_checked() < old(self).spec_total(),
        ensures
            final(self).spec_total() == old(self).spec_total(),
            final(self).spec_results() == old(self).spec_results().push(
                health_result(old(device).ip, outcome),
            ),
            final(self).spec_checked() == old(self).spec_checked() + 1,
            final(self).spec_healthy() == old(self).spec_healthy() + if outcome is Some {
                1int
            } else {
                0int
            },
            *final(device) == (Device { response_time_ms: outcome, ..*old(device) }),
            res.stage == HealthCheckStage::CheckingDevices,
            res.message@ == "Checking "@ + old(device).ip@ + "..."@,
            res.total_devices == final(self).spec_total(),
            res.checked_devices == final(self).spec_checked(),
            res.healthy_devices == final(self).spec_healthy(),
            res.synced_to_cloud is None,
    {
        let message = concat3("Checking ", device.ip.as_str(), "...");
        let r = record_health_outcome(device, outcome);
        let ghost before = self.results@;
        proof {
            use_type_invariant(&*self);
        }
        let mut results: Vec<DeviceHealthResult> = Vec::new();
        std::mem::swap(&mut results, &mut self.results);
        results.push(r);
        self.results = results;
        assert(self.results@.drop_last() =~= before);
        let checked = self.checked();
        let healthy = self.healthy();
        HealthCheckProgress {
            stage: HealthCheckStage::CheckingDevices,
            message,
            total_devices: self.total,
            checked_devices: checked,
            healthy_devices: healthy,
            synced_to_cloud: None,
        }
    }

    /// The report made while the results are uploaded.
    pub fn uploading_progress(&self) -> (res: HealthCheckProgress)
        ensures
            res.stage == HealthCheckStage::Uploading,
            res.message@ == "Syncing results to cloud..."@,
            res.total_devices == self.spec_total(),
            res.checked_devices == self.spec_total(),
            res.healthy_devices == self.spec_healthy(),
            res.synced_to_cloud is None,
    {
        HealthCheckProgress {
            stage: HealthCheckStage::Uploading,
            message: String::from_str("Syncing results to cloud..."),
            total_devices: self.total,
            checked_devices: self.total,
            healthy_devices: self.healthy(),
            synced_to_cloud: None,
        }
    }

    /// The final report, with whether the results reached the cloud.
    pub fn complete_progress(&self, synced: bool) -> (res: HealthCheckProgress)
        ensures
            res.stage == HealthCheckStage::Complete,
            res.message@ == "Health check complete: "@ + decimal(self.spec_healthy())
                + " healthy, "@ + decimal((self.spec_total() - self.spec_healthy()) as nat)
                + " unreachable"@,
            res.total_devices == self.spec_total(),
            res.checked_devices == self.spec_total(),
            res.healthy_devices == self.spec_healthy(),
            res.synced_to_cloud == Some(synced),
    {
        proof {
            use_type_invariant(self);
            lemma_reachable_count_bound(self.results@);
        }
        let healthy_count = self.healthy();
        let healthy = u64_to_decimal(healthy_count as u64);
        let unreachable = u64_to_decimal((self.total - healthy_count) as u64);
        let mut message = concat3("Health check complete: ", healthy.as_str(), " healthy, ");
        message.append(unreachable.as_str());
        message.append(" unreachable");
        HealthCheckProgress {
            stage: HealthCheckStage::Complete,
            message,
            total_devices: self.total,
            checked_devices: self.total,
            healthy_devices: healthy_count,
            synced_to_cloud: Some(synced),
        }
    }
}

} // verus!
