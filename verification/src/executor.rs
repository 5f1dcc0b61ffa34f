//! Decisions of the command executor: how a finished, timed-out or still
//! running process turns into a result.
use vstd::prelude::*;
use crate::task_result::{is_failed_result, is_success_result, TaskResult};
use crate::text::{decimal, i64_to_decimal, signed_decimal, u64_to_decimal};

verus! {

/// Executes system commands and captures their output; the process work
/// itself is done by the caller, which hands the outcomes to the functions
/// here.
#[derive(Debug, Clone, Copy)]
pub struct DefaultCommandExecutor;

/// What to do after checking on a polled process.
#[derive(Debug, Clone, Copy, PartialEq, Eq, Structural)]
pub enum PollDecision {
    /// The process exited; read its output and report this exit code.
    Exited(i32),
    /// The timeout has passed; kill the process and report a timeout.
    TimedOut(u64),
    /// Sleep for the poll interval and check again.
    KeepWaiting,
}

/// The exit code reported for a process that ended without one (killed by
/// a signal).
pub open spec fn reported_exit_code(code: Option<i32>) -> i32 {
    match code {
        Some(c) => c,
        None => -1i32,
    }
}

/// The message of a command that exited with a non-zero code.
pub open spec fn exit_failure_message(code: i32) -> Seq<char> {
    "Command failed with exit code "@ + signed_decimal(code as int)
}

/// The message of a command that ran past its timeout.
pub open spec fn timeout_message(timeout_secs: u64) -> Seq<char> {
    "Command execution timed out after "@ + decimal(timeout_secs as nat) + " seconds"@
}

/// Whole seconds between two instants in milliseconds, truncated toward
/// zero and reinterpreted as an unsigned 64-bit number.
pub open spec fn elapsed_secs(started_at: i64, now: i64) -> u64 {
    if now - started_at >= 0 {
        ((now - started_at) / 1000) as u64
    } else {
        (-((started_at - now) / 1000)) as u64
    }
}

impl DefaultCommandExecutor {
    /// A new executor.
    pub fn new() -> (e: DefaultCommandExecutor) {
        DefaultCommandExecutor
    }

    /// The result of a process that ran to its end: a success when it
    /// exited with code 0, otherwise a failure naming the code; in both
    /// cases carrying the captured output and the exit code (-1 when the
    /// process reported none).
    pub fn completed_result(
        task_id: u128,
        started_at: i64,
        stdout: String,
        stderr: String,
        status_code: Option<i32>,
    ) -> (r: TaskResult)
        ensures
            r.stdout == Some(stdout),
            r.stderr == Some(stderr),
            r.exit_code == Some(reported_exit_code(status_code)),
            reported_exit_code(status_code) == 0 ==> is_success_result(
                TaskResult { stdout: None, stderr: None, ..r }, task_id, None, started_at),
            reported_exit_code(status_code) != 0 ==> is_failed_result(
                TaskResult { stdout: None, stderr: None, exit_code: None, ..r }, task_id, None, started_at,
                exit_failure_message(reported_exit_code(status_code))),
    {
        let exit_code: i32 = match status_code {
            Some(c) => c,
            None => -1,
        };
        let result = if exit_code == 0 {
            TaskResult::new_success(task_id, None, started_at)
        } else {
            let mut msg = String::from_str("Command failed with exit code ");
            let digits = i64_to_decimal(exit_code as i64);
            msg.append(digits.as_str());
            TaskResult::new_failed(task_id, None, started_at, msg)
        };
        result.with_stdout(stdout).with_stderr(stderr).with_exit_code(exit_code)
    }

    /// The result of a process stopped because it ran past `timeout_secs`.
    pub fn timeout_result(task_id: u128, started_at: i64, timeout_secs: u64) -> (r: TaskResult)
        ensures
            is_failed_result(r, task_id, None, started_at, timeout_message(timeout_secs)),
    {
        let mut msg = String::from_str("Command execution timed out after ");
        let digits = u64_to_decimal(timeout_secs);
        msg.append(digits.as_str());
        msg.append(" seconds");
        TaskResult::new_failed(task_id, None, started_at, msg)
    }

    /// Whole seconds elapsed since `started_at`, as the poller counts them.
    pub fn elapsed_seconds(started_at: i64, now: i64) -> (s: u64)
        ensures
            s == elapsed_secs(started_at, now),
    {
        let diff: i128 = (now as i128) - (started_at as i128);
        if diff >= 0 {
            let q: i128 = diff / 1000;
            #[verifier::truncate]
            (q as u64)
        } else {
            let q: i128 = (-diff) / 1000;
            let neg: i128 = -q;
            #[verifier::truncate]
            (neg as u64)
        }
    }

    /// What to do after checking on a polled process: `status` is `None`
    /// while it runs and `Some(code)` once it exited (`code` being `None`
    /// when it reported no exit code). A running process past its timeout is
    /// to be killed.
    pub fn poll_decision(status: Option<Option<i32>>, elapsed_secs: u64, timeout_secs: Option<u64>) -> (d: PollDecision)
        ensures
            d == match status {
                Some(code) => PollDecision::Exited(reported_exit_code(code)),
                None => match timeout_secs {
                    Some(t) => if elapsed_secs >= t { PollDecision::TimedOut(t) } else { PollDecision::KeepWaiting },
                    None => PollDecision::KeepWaiting,
                },
            },
    {
        match status {
            Some(code) => PollDecision::Exited(match code {
                Some(c) => c,
                None => -1,
            }),
            None => match timeout_secs {
                Some(t) => if elapsed_secs >= t {
                    PollDecision::TimedOut(t)
                } else {
                    PollDecision::KeepWaiting
                },
                None => PollDecision::KeepWaiting,
            },
        }
    }
}

impl Default for DefaultCommandExecutor {
    fn default() -> (e: Self) {
        Self::new()
    }
}

} // verus!
