//! Commands the cloud sends to the agent: the wire types, the long-poll
//! loop's decisions and the reports and events made for each command.

use vstd::prelude::*;
use crate::text::concat2;

verus! {

/// A command received during long-poll.
#[derive(Debug, PartialEq)]
pub struct PendingCommand {
    pub id: i64,
    pub command_type: String,
    pub payload: Option<String>,
}

/// What the poll endpoint returns.
#[derive(Debug, PartialEq)]
pub struct PollResponse {
    pub commands: Vec<PendingCommand>,
}

/// Confirmation after claiming a command.
#[derive(Debug, PartialEq)]
pub struct ClaimResponse {
    pub id: i64,
    pub command_type: String,
    pub payload: Option<String>,
    pub claimed_at: String,
}

/// Report sent to the cloud after executing a command.
#[derive(Debug, PartialEq)]
pub struct ResultReport {
    pub success: bool,
    pub result: Option<String>,
    pub error_message: Option<String>,
}

/// Confirmation returned after reporting a result.
#[derive(Debug, PartialEq)]
pub struct ResultResponse {
    pub id: i64,
    pub status: String,
    pub completed_at: String,
}

/// Stage of a cloud command, as reported in events.
#[derive(Debug, Clone, Copy, PartialEq, Eq, Structural)]
pub enum CloudCommandStage {
    Received,
    Executing,
    Completed,
    Failed,
}

/// An event about a cloud command.
#[derive(Debug, PartialEq)]
pub struct CloudCommandEvent {
    pub stage: CloudCommandStage,
    pub command_id: i64,
    pub command_type: String,
    pub message: String,
}

/// Longest wait between failed polls, in seconds.
pub const MAX_BACKOFF_SECS: u64 = 30;

/// Long-poll timeout asked of the server, in seconds.
pub const POLL_TIMEOUT_SECS: u64 = 30;

/// Wait before looking for credentials again, in seconds.
pub const CREDENTIALS_RETRY_SECS: u64 = 10;

/// What happened in one round of the poll loop.
#[derive(Debug, Clone, Copy, PartialEq, Eq, Structural)]
pub enum PollEvent {
    /// The background tasks were cancelled.
    Cancelled,
    /// No credentials are stored: not authenticated.
    NoCredentials,
    /// The poll returned (possibly no) commands.
    PollSucceeded,
    /// The poll failed.
    PollFailed,
}

/// What the poll loop does next.
#[derive(Debug, Clone, Copy, PartialEq, Eq, Structural)]
pub enum PollAction {
    /// Leave the loop.
    Stop,
    /// Wait this many seconds, then poll again.
    WaitThenPoll(u64),
    /// Execute the commands received, then poll again.
    ExecuteCommands,
}

/// The long-poll loop's state: the current error backoff, which always
/// lies between one second and the maximum.
pub struct CommandPollLoop {
    backoff_secs: u64,
}

impl CommandPollLoop {
    #[verifier::type_invariant]
    spec fn backoff_in_range(&self) -> bool {
        1 <= self.backoff_secs <= MAX_BACKOFF_SECS
    }

    /// The current backoff, in seconds.
    pub closed spec fn backoff(&self) -> u64 {
        self.backoff_secs
    }

    /// A loop that has not failed yet: backoff of one second.
    pub fn new() -> (res: Self)
        ensures
            res.backoff() == 1,
    {
        CommandPollLoop { backoff_secs: 1 }
    }

    /// The current backoff, in seconds: between one second and the maximum.
    pub fn backoff_secs(&self) -> (res: u64)
        ensures
            res == self.backoff(),
            1 <= res <= MAX_BACKOFF_SECS,
    {
        proof {
            use_type_invariant(self);
        }
        self.backoff_secs
    }

    /// The next action after `event`. Cancellation stops the loop; without
    /// credentials the loop waits and tries again; a successful poll resets
    /// the backoff and executes the commands; a failed poll waits for the
    /// backoff, which then doubles, up to the maximum.
    pub fn step(&mut self, event: PollEvent) -> (res: PollAction)
        ensures
            1 <= final(self).backoff() <= MAX_BACKOFF_SECS,
            event == PollEvent::Cancelled ==> res == PollAction::Stop && final(self).backoff()
                == old(self).backoff(),
            event == PollEvent::NoCredentials ==> res == PollAction::WaitThenPoll(
                CREDENTIALS_RETRY_SECS,
            ) && final(self).backoff() == old(self).backoff(),
            event == PollEvent::PollSucceeded ==> res == PollAction::ExecuteCommands
                && final(self).backoff() == 1,
            event == PollEvent::PollFailed ==> res == PollAction::WaitThenPoll(old(self).backoff())
                && final(self).backoff() == if old(self).backoff() * 2 <= MAX_BACKOFF_SECS {
                old(self).backoff() * 2
            } else {
                MAX_BACKOFF_SECS as int
            },
    {
        proof {
            use_type_invariant(&*self);
        }
        let action = match event {
            PollEvent::Cancelled => PollAction::Stop,
            PollEvent::NoCredentials => PollAction::WaitThenPoll(CREDENTIALS_RETRY_SECS),
            PollEvent::PollSucceeded => {
                self.backoff_secs = 1;
                PollAction::ExecuteCommands
            },
            PollEvent::PollFailed => {
                let wait = self.backoff_secs;
                let doubled = self.backoff_secs * 2;
                self.backoff_secs = if doubled < MAX_BACKOFF_SECS {
                    doubled
                } else {
                    MAX_BACKOFF_SECS
                };
                PollAction::WaitThenPoll(wait)
            },
        };
        proof {
            use_type_invariant(&*self);
        }
        action
    }
}

/// Where the handling of one received command stands.
#[derive(Debug, Clone, Copy, PartialEq, Eq, Structural)]
pub enum CommandProgress {
    /// Just received (and announced).
    Received,
    /// The claim was refused or failed.
    ClaimFailed,
    /// Claimed by this agent (and announced as executing).
    Claimed,
    /// Executed.
    Executed,
}

/// What to do next with a command.
#[derive(Debug, Clone, Copy, PartialEq, Eq, Structural)]
pub enum CommandAction {
    /// Claim it, so that no other agent instance picks it up.
    Claim,
    /// Drop it: another agent has it, or the claim failed.
    Skip,
    /// Execute it.
    Execute,
    /// Report the outcome to the cloud, then announce it.
    ReportAndFinish,
}

/// The order in which a command is handled: claim it once received, skip it
/// when the claim fails, execute it once claimed, then report and announce.
pub fn next_command_action(progress: CommandProgress) -> (res: CommandAction)
    ensures
        progress == CommandProgress::Received ==> res == CommandAction::Claim,
        progress == CommandProgress::ClaimFailed ==> res == CommandAction::Skip,
        progress == CommandProgress::Claimed ==> res == CommandAction::Execute,
        progress == CommandProgress::Executed ==> res == CommandAction::ReportAndFinish,
{
    match progress {
        CommandProgress::Received => CommandAction::Claim,
        CommandProgress::ClaimFailed => CommandAction::Skip,
        CommandProgress::Claimed => CommandAction::Execute,
        CommandProgress::Executed => CommandAction::ReportAndFinish,
    }
}

fn copy_string(s: &String) -> (res: String)
    ensures
        res == *s,
{
    s.clone()
}

/// The event made when a command is received.
pub fn received_event(command: &PendingCommand) -> (res: CloudCommandEvent)
    ensures
        res.stage == CloudCommandStage::Received,
        res.command_id == command.id,
        res.command_type == command.command_type,
        res.message@ == "Received command: "@ + command.command_type@,
{
    CloudCommandEvent {
        stage: CloudCommandStage::Received,
        command_id: command.id,
        command_type: copy_string(&command.command_type),
        message: concat2("Received command: ", command.command_type.as_str()),
    }
}

/// The event made when a claimed command starts executing.
pub fn executing_event(command: &PendingCommand) -> (res: CloudCommandEvent)
    ensures
        res.stage == CloudCommandStage::Executing,
        res.command_id == command.id,
        res.command_type == command.command_type,
        res.message@ == "Executing: "@ + command.command_type@,
{
    CloudCommandEvent {
        stage: CloudCommandStage::Executing,
        command_id: command.id,
        command_type: copy_string(&command.command_type),
        message: concat2("Executing: ", command.command_type.as_str()),
    }
}

/// The report of an executed command: success with its message, or failure
/// with its error.
pub fn result_report(outcome: &Result<String, String>) -> (res: ResultReport)
    ensures
        outcome is Ok ==> res == (ResultReport {
            success: true,
            result: Some(outcome->Ok_0),
            error_message: None,
        }),
        outcome is Err ==> res == (ResultReport {
            success: false,
            result: None,
            error_message: Some(outcome->Err_0),
        }),
{
    match outcome {
        Ok(message) => ResultReport {
            success: true,
            result: Some(copy_string(message)),
            error_message: None,
        },
        Err(error) => ResultReport {
            success: false,
            result: None,
            error_message: Some(copy_string(error)),
        },
    }
}

/// The event made once a command has run: completed with its message, or
/// failed with its error.
pub fn finished_event(command: &PendingCommand, outcome: &Result<String, String>) -> (res:
    CloudCommandEvent)
    ensures
        res.command_id == command.id,
        res.command_type == command.command_type,
        outcome is Ok ==> res.stage == CloudCommandStage::Completed && res.message
            == outcome->Ok_0,
        outcome is Err ==> res.stage == CloudCommandStage::Failed && res.message
            == outcome->Err_0,
{
    let (stage, message) = match outcome {
        Ok(message) => (CloudCommandStage::Completed, copy_string(message)),
        Err(error) => (CloudCommandStage::Failed, copy_string(error)),
    };
    CloudCommandEvent {
        stage,
        command_id: command.id,
        command_type: copy_string(&command.command_type),
        message,
    }
}

} // verus!
