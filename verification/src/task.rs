//! Tasks: what the worker is asked to do, and their retry bookkeeping.
use std::collections::HashMap;
use vstd::prelude::*;
use crate::trusted::{now_millis, random_id};

verus! {

/// The type of task to be executed by the worker.
#[derive(Debug, PartialEq)]
pub enum TaskType {
    /// Execute a single command and return immediately.
    ExecuteCommand {
        command: String,
        args: Vec<String>,
        working_dir: Option<String>,
        env_vars: Option<HashMap<String, String>>,
    },
    /// Execute a command and poll until completion.
    ExecutePolling {
        command: String,
        args: Vec<String>,
        working_dir: Option<String>,
        env_vars: Option<HashMap<String, String>>,
        poll_interval_secs: u64,
        timeout_secs: Option<u64>,
    },
    /// Watch for file system changes.
    FileWatch {
        path: String,
        patterns: Vec<String>,
        recursive: bool,
        on_change_tasks: Vec<Box<TaskType>>,
    },
    /// Transfer files between locations.
    FileTransfer { source: FileLocation, destination: FileLocation, options: TransferOptions },
    /// Execute several tasks in sequence.
    Composite { tasks: Vec<Box<TaskType>>, stop_on_error: bool },
}

/// Two optional environment maps with the same contents.
pub open spec fn same_env(a: Option<HashMap<String, String>>, b: Option<HashMap<String, String>>) -> bool {
    match (a, b) {
        (None, None) => true,
        (Some(x), Some(y)) => x@ == y@,
        _ => false,
    }
}

/// `a` and `b` are the same task type: equal field by field, environment
/// maps compared by their contents, sub-tasks compared in the same way.
pub open spec fn same_task_type(a: TaskType, b: TaskType) -> bool
    decreases a,
{
    match a {
        TaskType::ExecuteCommand { command, args, working_dir, env_vars } => match b {
            TaskType::ExecuteCommand { command: c, args: ar, working_dir: w, env_vars: e } =>
                command == c && args@ == ar@ && working_dir == w && same_env(env_vars, e),
            _ => false,
        },
        TaskType::ExecutePolling { command, args, working_dir, env_vars, poll_interval_secs, timeout_secs } => match b {
            TaskType::ExecutePolling {
                command: c, args: ar, working_dir: w, env_vars: e, poll_interval_secs: p, timeout_secs: t,
            } => command == c && args@ == ar@ && working_dir == w && same_env(env_vars, e)
                && poll_interval_secs == p && timeout_secs == t,
            _ => false,
        },
        TaskType::FileWatch { path, patterns, recursive, on_change_tasks } => match b {
            TaskType::FileWatch { path: p, patterns: ps, recursive: r, on_change_tasks: o } => {
                proof {
                    assert(decreases_to!(a => on_change_tasks@));
                }
                path == p && patterns@ == ps@ && recursive == r && same_task_types(on_change_tasks@, o@)
            },
            _ => false,
        },
        TaskType::FileTransfer { source, destination, options } => match b {
            TaskType::FileTransfer { source: s, destination: d, options: o } =>
                source == s && destination == d && options == o,
            _ => false,
        },
        TaskType::Composite { tasks, stop_on_error } => match b {
            TaskType::Composite { tasks: t, stop_on_error: st } => {
                proof {
                    assert(decreases_to!(a => tasks@));
                }
                same_task_types(tasks@, t@) && stop_on_error == st
            },
            _ => false,
        },
    }
}

/// Two sequences of task trees of the same length whose trees are pairwise
/// the same task type.
pub open spec fn same_task_types(a: Seq<Box<TaskType>>, b: Seq<Box<TaskType>>) -> bool
    decreases a,
{
    &&& a.len() == b.len()
    &&& forall|i: int| 0 <= i < a.len() ==> {
        proof {
            assert(decreases_to!(a => a[i]));
        }
        same_task_type(*#[trigger] a[i], *b[i])
    }
}

impl TaskType {
    fn copy_all(tasks: &Vec<Box<TaskType>>) -> (r: Vec<Box<TaskType>>)
        ensures
            same_task_types(tasks@, r@),
        decreases tasks@, 1int,
    {
        let mut out: Vec<Box<TaskType>> = Vec::new();
        let n = tasks.len();
        let mut i: usize = 0;
        while i < n
            invariant
                n == tasks.len(),
                i <= n,
                out.len() == i,
                forall|j: int| 0 <= j < i ==> same_task_type(*#[trigger] tasks@[j], *out@[j]),
            decreases n - i,
        {
            proof {
                assert(decreases_to!(tasks@ => tasks@[i as int]));
            }
            let child = tasks[i].copy_type();
            out.push(Box::new(child));
            i = i + 1;
        }
        out
    }

    fn strings_copy(v: &Vec<String>) -> (r: Vec<String>)
        ensures
            r@ == v@,
    {
        let r = v.clone();
        assert(r@ =~= v@);
        r
    }

    fn env_copy(e: &Option<HashMap<String, String>>) -> (r: Option<HashMap<String, String>>)
        ensures
            same_env(*e, r),
    {
        match e {
            Some(m) => Some(m.clone()),
            None => None,
        }
    }

    fn copy_type(&self) -> (r: TaskType)
        ensures
            same_task_type(*self, r),
        decreases *self, 0int,
    {
        match self {
            TaskType::ExecuteCommand { command, args, working_dir, env_vars } => TaskType::ExecuteCommand {
                command: command.clone(),
                args: TaskType::strings_copy(args),
                working_dir: working_dir.clone(),
                env_vars: TaskType::env_copy(env_vars),
            },
            TaskType::ExecutePolling { command, args, working_dir, env_vars, poll_interval_secs, timeout_secs } =>
                TaskType::ExecutePolling {
                    command: command.clone(),
                    args: TaskType::strings_copy(args),
                    working_dir: working_dir.clone(),
                    env_vars: TaskType::env_copy(env_vars),
                    poll_interval_secs: *poll_interval_secs,
                    timeout_secs: *timeout_secs,
                },
            TaskType::FileWatch { path, patterns, recursive, on_change_tasks } => {
                proof {
                    assert(decreases_to!(*self => on_change_tasks@));
                }
                TaskType::FileWatch {
                    path: path.clone(),
                    patterns: TaskType::strings_copy(patterns),
                    recursive: *recursive,
                    on_change_tasks: TaskType::copy_all(on_change_tasks),
                }
            },
            TaskType::FileTransfer { source, destination, options } => TaskType::FileTransfer {
                source: source.duplicate(),
                destination: destination.duplicate(),
                options: TransferOptions {
                    overwrite: options.overwrite,
                    create_dirs: options.create_dirs,
                    preserve_metadata: options.preserve_metadata,
                    chunk_size: options.chunk_size,
                },
            },
            TaskType::Composite { tasks, stop_on_error } => {
                proof {
                    assert(decreases_to!(*self => tasks@));
                }
                TaskType::Composite { tasks: TaskType::copy_all(tasks), stop_on_error: *stop_on_error }
            },
        }
    }
}

impl Clone for TaskType {
    fn clone(&self) -> Self {
        self.copy_type()
    }
}

/// A file location for transfer operations.
#[derive(Debug, Clone, PartialEq)]
pub enum FileLocation {
    Local { path: String },
    Ftp { host: String, port: u16, path: String, username: String, password_secret: String },
    Sftp { host: String, port: u16, path: String, username: String, key_secret: String },
    S3 { bucket: String, key: String, region: String, endpoint: Option<String> },
    AzureBlob { account: String, container: String, blob: String },
}

impl FileLocation {
    /// A copy of this location, equal to it.
    pub fn duplicate(&self) -> (r: FileLocation)
        ensures
            r == *self,
    {
        match self {
            FileLocation::Local { path } => FileLocation::Local { path: path.clone() },
            FileLocation::Ftp { host, port, path, username, password_secret } => FileLocation::Ftp {
                host: host.clone(),
                port: *port,
                path: path.clone(),
                username: username.clone(),
                password_secret: password_secret.clone(),
            },
            FileLocation::Sftp { host, port, path, username, key_secret } => FileLocation::Sftp {
                host: host.clone(),
                port: *port,
                path: path.clone(),
                username: username.clone(),
                key_secret: key_secret.clone(),
            },
            FileLocation::S3 { bucket, key, region, endpoint } => FileLocation::S3 {
                bucket: bucket.clone(),
                key: key.clone(),
                region: region.clone(),
                endpoint: endpoint.clone(),
            },
            FileLocation::AzureBlob { account, container, blob } => FileLocation::AzureBlob {
                account: account.clone(),
                container: container.clone(),
                blob: blob.clone(),
            },
        }
    }
}

/// Options for file transfer operations.
#[derive(Debug, Clone, PartialEq)]
pub struct TransferOptions {
    pub overwrite: bool,
    pub create_dirs: bool,
    pub preserve_metadata: bool,
    pub chunk_size: Option<usize>,
}

impl Default for TransferOptions {
    fn default() -> (o: Self)
        ensures
            o.overwrite == false,
            o.create_dirs == true,
            o.preserve_metadata == true,
            o.chunk_size is None,
    {
        TransferOptions { overwrite: false, create_dirs: true, preserve_metadata: true, chunk_size: None }
    }
}

/// A task to be executed by the worker.
///
/// Identifiers are 128-bit UUID values and times are milliseconds since the
/// Unix epoch.
#[derive(Debug, Clone)]
pub struct Task {
    /// Unique identifier for the task.
    pub id: u128,
    /// Correlation ID for tracking across systems.
    pub correlation_id: Option<String>,
    /// Type and parameters of the task.
    pub task_type: TaskType,
    /// Priority of the task (higher = more important).
    pub priority: i32,
    /// Maximum number of retry attempts.
    pub max_retries: u32,
    /// Current retry attempt.
    pub retry_count: u32,
    /// Callback URL to send results to.
    pub callback_url: Option<String>,
    /// Queue to send results back to.
    pub result_queue: Option<String>,
    /// When the task was created.
    pub created_at: i64,
    /// When the task should be executed (for scheduled tasks).
    pub scheduled_at: Option<i64>,
    /// Timeout for task execution in seconds.
    pub timeout_secs: Option<u64>,
    /// Additional metadata.
    pub metadata: HashMap<String, String>,
}

impl Task {
    /// How many more retries are allowed.
    pub open spec fn retries_left(&self) -> int {
        self.max_retries - self.retry_count
    }

    /// Creates a task of the given type with a fresh random identifier, the
    /// current time as creation time, priority 0, at most 3 retries, no
    /// retries used and nothing else set.
    pub fn new(task_type: TaskType) -> (t: Task)
        ensures
            t.task_type == task_type,
            t.correlation_id is None,
            t.priority == 0,
            t.max_retries == 3,
            t.retry_count == 0,
            t.callback_url is None,
            t.result_queue is None,
            t.created_at >= 0,
            t.scheduled_at is None,
            t.timeout_secs is None,
            t.metadata@ == Map::<String, String>::empty(),
    {
        Task {
            id: random_id(),
            correlation_id: None,
            task_type,
            priority: 0,
            max_retries: 3,
            retry_count: 0,
            callback_url: None,
            result_queue: None,
            created_at: now_millis(),
            scheduled_at: None,
            timeout_secs: None,
            metadata: HashMap::new(),
        }
    }

    /// Sets the correlation ID.
    pub fn with_correlation_id(self, correlation_id: String) -> (t: Task)
        ensures
            t == (Task { correlation_id: Some(correlation_id), ..self }),
    {
        Task { correlation_id: Some(correlation_id), ..self }
    }

    /// Sets the callback URL.
    pub fn with_callback_url(self, url: String) -> (t: Task)
        ensures
            t == (Task { callback_url: Some(url), ..self }),
    {
        Task { callback_url: Some(url), ..self }
    }

    /// Sets the result queue.
    pub fn with_result_queue(self, queue: String) -> (t: Task)
        ensures
            t == (Task { result_queue: Some(queue), ..self }),
    {
        Task { result_queue: Some(queue), ..self }
    }

    /// Whether the task has retries remaining.
    pub fn can_retry(&self) -> (b: bool)
        ensures
            b == (self.retry_count < self.max_retries),
            b == (self.retries_left() > 0),
    {
        self.retry_count < self.max_retries
    }

    /// Counts one more retry attempt.
    pub fn increment_retry(&mut self)
        requires
            old(self).retry_count < u32::MAX,
        ensures
            *final(self) == (Task { retry_count: (old(self).retry_count + 1) as u32, ..*old(self) }),
            final(self).retries_left() == old(self).retries_left() - 1,
    {
        self.retry_count = self.retry_count + 1;
    }
}

/// Retries are used up one by one: after `k` more attempts are counted, a
/// task can still be retried exactly when `k` is below the retries it had
/// left.
pub proof fn lemma_retry_budget(t: Task, k: u32)
    requires
        t.retry_count + k <= u32::MAX,
    ensures
        ((Task { retry_count: (t.retry_count + k) as u32, ..t }).retry_count
            < (Task { retry_count: (t.retry_count + k) as u32, ..t }).max_retries) <==> k < t.retries_left(),
{
}

} // verus!
