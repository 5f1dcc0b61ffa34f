//! Results of task execution.
use std::collections::HashMap;
use vstd::prelude::*;
use crate::task::FileLocation;
use crate::trusted::now_millis;

verus! {

/// The status of a task execution.
#[derive(Debug, Clone, Copy, PartialEq, Eq, Structural)]
pub enum TaskStatus {
    Pending,
    Running,
    Success,
    Failed,
    Timeout,
    Cancelled,
}

/// Additional data attached to a result.
#[derive(Debug)]
pub enum ResultData {
    /// Arbitrary JSON supplied by the caller.
    Json(serde_json::Value),
    /// What a file transfer moved.
    Transfer { bytes_transferred: u64, source: FileLocation, destination: FileLocation },
    /// The results of the sub-tasks of a composite task, in order.
    SubResults(Vec<TaskResult>),
}

/// The result of a task execution. Times are milliseconds since the Unix
/// epoch.
#[derive(Debug)]
pub struct TaskResult {
    /// ID of the task that was executed.
    pub task_id: u128,
    /// Correlation ID for tracking.
    pub correlation_id: Option<String>,
    /// Status of the task execution.
    pub status: TaskStatus,
    /// Exit code (for command execution).
    pub exit_code: Option<i32>,
    /// Standard output captured from the task.
    pub stdout: Option<String>,
    /// Standard error captured from the task.
    pub stderr: Option<String>,
    /// Error message if the task failed.
    pub error_message: Option<String>,
    /// When the task started executing.
    pub started_at: i64,
    /// When the task completed.
    pub completed_at: Option<i64>,
    /// Duration of execution in milliseconds.
    pub duration_ms: Option<u64>,
    /// Additional result data.
    pub data: Option<ResultData>,
    /// Metadata about the execution.
    pub metadata: HashMap<String, String>,
}

/// The duration recorded between two instants: the difference in
/// milliseconds, reinterpreted as an unsigned 64-bit number.
pub open spec fn elapsed_ms(started_at: i64, completed_at: i64) -> u64 {
    (completed_at - started_at) as u64
}

/// `r` is a result that has not completed: only identity, status and
/// start time are set.
pub open spec fn is_open_result(
    r: TaskResult,
    task_id: u128,
    correlation_id: Option<String>,
    status: TaskStatus,
) -> bool {
    &&& r.task_id == task_id
    &&& r.correlation_id == correlation_id
    &&& r.status == status
    &&& r.exit_code is None
    &&& r.stdout is None
    &&& r.stderr is None
    &&& r.error_message is None
    &&& r.completed_at is None
    &&& r.duration_ms is None
    &&& r.data is None
    &&& r.metadata@ == Map::<String, String>::empty()
}

/// `r` is a completed result with the given fields, whose completion time
/// was read from the clock and whose duration is measured from `started_at`.
pub open spec fn is_completed_result(
    r: TaskResult,
    task_id: u128,
    correlation_id: Option<String>,
    started_at: i64,
    status: TaskStatus,
    exit_code: Option<i32>,
    error_message: Option<String>,
) -> bool {
    &&& r.task_id == task_id
    &&& r.correlation_id == correlation_id
    &&& r.status == status
    &&& r.exit_code == exit_code
    &&& r.stdout is None
    &&& r.stderr is None
    &&& r.error_message == error_message
    &&& r.started_at == started_at
    &&& r.completed_at is Some
    &&& r.duration_ms == Some(elapsed_ms(started_at, r.completed_at->0))
    &&& r.data is None
    &&& r.metadata@ == Map::<String, String>::empty()
}

/// `r` is the successful completion of `task_id` started at `started_at`.
pub open spec fn is_success_result(
    r: TaskResult,
    task_id: u128,
    correlation_id: Option<String>,
    started_at: i64,
) -> bool {
    is_completed_result(r, task_id, correlation_id, started_at, TaskStatus::Success, Some(0i32), None)
}

/// `r` is the failed completion of `task_id` started at `started_at`, with
/// the given message.
pub open spec fn is_failed_result(
    r: TaskResult,
    task_id: u128,
    correlation_id: Option<String>,
    started_at: i64,
    message: Seq<char>,
) -> bool {
    &&& is_completed_result(r, task_id, correlation_id, started_at, TaskStatus::Failed, None, r.error_message)
    &&& r.error_message is Some
    &&& r.error_message->0@ == message
}

/// The statuses that count as a failure.
pub open spec fn status_is_failure(s: TaskStatus) -> bool {
    s == TaskStatus::Failed || s == TaskStatus::Timeout || s == TaskStatus::Cancelled
}

impl TaskResult {
    fn new_with_status(task_id: u128, correlation_id: Option<String>, status: TaskStatus) -> (r: TaskResult)
        ensures
            is_open_result(r, task_id, correlation_id, status),
            r.started_at >= 0,
    {
        TaskResult {
            task_id,
            correlation_id,
            status,
            exit_code: None,
            stdout: None,
            stderr: None,
            error_message: None,
            started_at: now_millis(),
            completed_at: None,
            duration_ms: None,
            data: None,
            metadata: HashMap::new(),
        }
    }

    /// A result for a task that is pending, started now.
    pub fn new_pending(task_id: u128, correlation_id: Option<String>) -> (r: TaskResult)
        ensures
            is_open_result(r, task_id, correlation_id, TaskStatus::Pending),
            r.started_at >= 0,
    {
        Self::new_with_status(task_id, correlation_id, TaskStatus::Pending)
    }

    /// A result for a task that is running, started now.
    pub fn new_running(task_id: u128, correlation_id: Option<String>) -> (r: TaskResult)
        ensures
            is_open_result(r, task_id, correlation_id, TaskStatus::Running),
            r.started_at >= 0,
    {
        Self::new_with_status(task_id, correlation_id, TaskStatus::Running)
    }

    /// The duration between two instants, as recorded in results.
    pub fn elapsed_between(started_at: i64, completed_at: i64) -> (d: u64)
        ensures
            d == elapsed_ms(started_at, completed_at),
    {
        let diff: i128 = (completed_at as i128) - (started_at as i128);
        #[verifier::truncate]
        (diff as u64)
    }

    fn new_completed(
        task_id: u128,
        correlation_id: Option<String>,
        started_at: i64,
        status: TaskStatus,
        exit_code: Option<i32>,
        error_message: Option<String>,
    ) -> (r: TaskResult)
        ensures
            is_completed_result(r, task_id, correlation_id, started_at, status, exit_code, error_message),
    {
        let completed_at = now_millis();
        let duration_ms = Self::elapsed_between(started_at, completed_at);
        TaskResult {
            task_id,
            correlation_id,
            status,
            exit_code,
            stdout: None,
            stderr: None,
            error_message,
            started_at,
            completed_at: Some(completed_at),
            duration_ms: Some(duration_ms),
            data: None,
            metadata: HashMap::new(),
        }
    }

    /// A successful result (exit code 0), completed now.
    pub fn new_success(task_id: u128, correlation_id: Option<String>, started_at: i64) -> (r: TaskResult)
        ensures
            is_success_result(r, task_id, correlation_id, started_at),
    {
        Self::new_completed(task_id, correlation_id, started_at, TaskStatus::Success, Some(0), None)
    }

    /// A failed result carrying `error_message`, completed now.
    pub fn new_failed(
        task_id: u128,
        correlation_id: Option<String>,
        started_at: i64,
        error_message: String,
    ) -> (r: TaskResult)
        ensures
            is_failed_result(r, task_id, correlation_id, started_at, error_message@),
            r.error_message == Some(error_message),
    {
        Self::new_completed(task_id, correlation_id, started_at, TaskStatus::Failed, None, Some(error_message))
    }

    /// Sets the standard output.
    pub fn with_stdout(self, stdout: String) -> (r: TaskResult)
        ensures
            r == (TaskResult { stdout: Some(stdout), ..self }),
    {
        TaskResult { stdout: Some(stdout), ..self }
    }

    /// Sets the standard error.
    pub fn with_stderr(self, stderr: String) -> (r: TaskResult)
        ensures
            r == (TaskResult { stderr: Some(stderr), ..self }),
    {
        TaskResult { stderr: Some(stderr), ..self }
    }

    /// Sets the exit code.
    pub fn with_exit_code(self, code: i32) -> (r: TaskResult)
        ensures
            r == (TaskResult { exit_code: Some(code), ..self }),
    {
        TaskResult { exit_code: Some(code), ..self }
    }

    /// Sets additional JSON data.
    pub fn with_data(self, data: serde_json::Value) -> (r: TaskResult)
        ensures
            r == (TaskResult { data: Some(ResultData::Json(data)), ..self }),
    {
        TaskResult { data: Some(ResultData::Json(data)), ..self }
    }

    /// Whether the task succeeded.
    pub fn is_success(&self) -> (b: bool)
        ensures
            b == (self.status == TaskStatus::Success),
    {
        self.status == TaskStatus::Success
    }

    /// Whether the task failed, timed out or was cancelled.
    pub fn is_failed(&self) -> (b: bool)
        ensures
            b == status_is_failure(self.status),
    {
        match self.status {
            TaskStatus::Failed | TaskStatus::Timeout | TaskStatus::Cancelled => true,
            _ => false,
        }
    }
}

/// A result never counts both as a success and as a failure.
pub proof fn lemma_success_excludes_failure(r: TaskResult)
    ensures
        !(r.status == TaskStatus::Success && status_is_failure(r.status)),
{
}

} // verus!
