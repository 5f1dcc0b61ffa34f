//! The task processor as a state machine.
//!
//! Processing a task alternates between decisions, taken here, and service
//! calls (running a command, resolving a secret, transferring a file,
//! setting up a file watch) that the caller performs.
//! A [`TaskRun`] is started on a task and hands back a [`ProcessorAction`]:
//! either a service call to perform, whose outcome is fed back with
//! [`TaskRun::resume_with`], or the final result. Composite tasks are
//! processed depth first with an explicit stack of frames, one per
//! composite task being worked on.
use std::collections::HashMap;
use vstd::prelude::*;
use crate::task::{FileLocation, Task, TaskType, TransferOptions};
use crate::task_result::{is_failed_result, is_success_result, ResultData, TaskResult, TaskStatus};
use crate::text::{decimal, u64_to_decimal};
use crate::trusted::{now_millis, random_id};

verus! {

/// A service call the caller must perform, or the end of processing.
#[derive(Debug)]
pub enum ProcessorAction {
    /// Execute a command once.
    RunCommand {
        command: String,
        args: Vec<String>,
        working_dir: Option<String>,
        env_vars: Option<HashMap<String, String>>,
        timeout_secs: Option<u64>,
    },
    /// Execute a command and poll it until completion.
    RunPolling {
        command: String,
        args: Vec<String>,
        working_dir: Option<String>,
        env_vars: Option<HashMap<String, String>>,
        poll_interval_secs: u64,
        timeout_secs: Option<u64>,
    },
    /// Transfer a file.
    RunTransfer { source: FileLocation, destination: FileLocation, options: TransferOptions },
    /// Resolve a secret reference through the secret store.
    ResolveSecret { key: String },
    /// Start watching a path for changes.
    RunWatch { path: String, patterns: Vec<String>, recursive: bool },
    /// Processing of the task is over, with this outcome.
    Finished(Result<TaskResult, String>),
}

/// The outcome of a service call, as reported by the caller.
#[derive(Debug)]
pub enum ServiceOutcome {
    /// What the command executor returned.
    Command(Result<TaskResult, String>),
    /// What the file transfer returned: the number of bytes transferred.
    Transfer(Result<u64, String>),
    /// What the secret store returned for the key asked for.
    Secret(Result<String, String>),
    /// Whether the watch could be set up.
    Watch(Result<(), String>),
}

/// The leaf task whose service call is in flight.
#[derive(Debug)]
pub enum Leaf {
    Command { task_id: u128, correlation_id: Option<String> },
    Transfer {
        task_id: u128,
        correlation_id: Option<String>,
        started_at: i64,
        source: FileLocation,
        destination: FileLocation,
    },
    /// A transfer waiting for the secret of its source (when `for_source`)
    /// or of its destination; `source_secret` holds the source's secret
    /// once resolved. The locations are those of the task.
    Secret {
        task_id: u128,
        correlation_id: Option<String>,
        started_at: i64,
        source: FileLocation,
        destination: FileLocation,
        options: TransferOptions,
        for_source: bool,
        source_secret: Option<String>,
    },
    /// A file watch being set up.
    Watch { task_id: u128, correlation_id: Option<String>, started_at: i64 },
}

/// The secret reference of a location: the SFTP key or the FTP password.
pub open spec fn secret_ref(l: FileLocation) -> Option<String> {
    match l {
        FileLocation::Sftp { key_secret, .. } => Some(key_secret),
        FileLocation::Ftp { password_secret, .. } => Some(password_secret),
        _ => None,
    }
}

/// The location with its secret reference replaced by the secret `v`.
pub open spec fn with_secret(l: FileLocation, v: String) -> FileLocation {
    match l {
        FileLocation::Sftp { host, port, path, username, .. } =>
            FileLocation::Sftp { host, port, path, username, key_secret: v },
        FileLocation::Ftp { host, port, path, username, .. } =>
            FileLocation::Ftp { host, port, path, username, password_secret: v },
        _ => l,
    }
}

/// The location a transfer runs with: its secret put in, when resolved.
pub open spec fn run_location(l: FileLocation, secret: Option<String>) -> FileLocation {
    match secret {
        Some(v) => with_secret(l, v),
        None => l,
    }
}

/// The task whose call a leaf stands for: its identifier and correlation
/// identifier.
pub open spec fn leaf_identity(l: Leaf) -> (u128, Option<String>) {
    match l {
        Leaf::Command { task_id, correlation_id } => (task_id, correlation_id),
        Leaf::Transfer { task_id, correlation_id, .. } => (task_id, correlation_id),
        Leaf::Secret { task_id, correlation_id, .. } => (task_id, correlation_id),
        Leaf::Watch { task_id, correlation_id, .. } => (task_id, correlation_id),
    }
}

/// What a transfer waits for once its source's secret is settled
/// (`source_secret`): the destination's secret when it has a reference,
/// else the transfer itself, with the resolved secrets put in.
pub open spec fn after_source(
    task_id: u128,
    correlation_id: Option<String>,
    started_at: i64,
    source: FileLocation,
    destination: FileLocation,
    options: TransferOptions,
    source_secret: Option<String>,
) -> (Leaf, ProcessorAction) {
    match secret_ref(destination) {
        Some(k) => (
            Leaf::Secret {
                task_id, correlation_id, started_at, source, destination, options, for_source: false, source_secret,
            },
            ProcessorAction::ResolveSecret { key: k },
        ),
        None => (
            Leaf::Transfer { task_id, correlation_id, started_at, source, destination },
            ProcessorAction::RunTransfer { source: run_location(source, source_secret), destination, options },
        ),
    }
}

/// What a transfer waits for first: the source's secret when it has a
/// reference, else what follows it.
pub open spec fn transfer_start(
    task_id: u128,
    correlation_id: Option<String>,
    started_at: i64,
    source: FileLocation,
    destination: FileLocation,
    options: TransferOptions,
) -> (Leaf, ProcessorAction) {
    match secret_ref(source) {
        Some(k) => (
            Leaf::Secret {
                task_id, correlation_id, started_at, source, destination, options, for_source: true,
                source_secret: None,
            },
            ProcessorAction::ResolveSecret { key: k },
        ),
        None => after_source(task_id, correlation_id, started_at, source, destination, options, None),
    }
}

/// The first call of a transfer: resolving the source's secret, else the
/// destination's, else the transfer itself.
pub open spec fn transfer_first_action(source: FileLocation, destination: FileLocation, options: TransferOptions) -> ProcessorAction {
    match secret_ref(source) {
        Some(k) => ProcessorAction::ResolveSecret { key: k },
        None => match secret_ref(destination) {
            Some(k) => ProcessorAction::ResolveSecret { key: k },
            None => ProcessorAction::RunTransfer { source, destination, options },
        },
    }
}

/// The leaf and action that follow the resolution of a transfer's secret
/// as `v`, for a transfer waiting in leaf `l`.
pub open spec fn secret_resolved(l: Leaf, v: String) -> (Leaf, ProcessorAction) {
    match l {
        Leaf::Secret { task_id, correlation_id, started_at, source, destination, options, for_source, source_secret } =>
            if for_source {
                after_source(task_id, correlation_id, started_at, source, destination, options, Some(v))
            } else {
                (
                    Leaf::Transfer { task_id, correlation_id, started_at, source, destination },
                    ProcessorAction::RunTransfer {
                        source: run_location(source, source_secret),
                        destination: with_secret(destination, v),
                        options,
                    },
                )
            },
        _ => (l, arbitrary()),
    }
}

/// The action handed out straight after an outcome, without finishing the
/// leaf: the next step of a transfer once a secret is resolved.
pub open spec fn resume_emits(waiting: Option<Leaf>, outcome: ServiceOutcome) -> Option<ProcessorAction> {
    match (waiting, outcome) {
        (Some(Leaf::Secret { .. }), ServiceOutcome::Secret(Ok(v))) => Some(secret_resolved(waiting->0, v).1),
        _ => None,
    }
}

fn location_secret(l: &FileLocation) -> (r: Option<String>)
    ensures
        r == secret_ref(*l),
{
    match l {
        FileLocation::Sftp { key_secret, .. } => Some(key_secret.clone()),
        FileLocation::Ftp { password_secret, .. } => Some(password_secret.clone()),
        _ => None,
    }
}

fn location_with_secret(l: FileLocation, v: String) -> (r: FileLocation)
    ensures
        r == with_secret(l, v),
{
    match l {
        FileLocation::Sftp { host, port, path, username, .. } =>
            FileLocation::Sftp { host, port, path, username, key_secret: v },
        FileLocation::Ftp { host, port, path, username, .. } =>
            FileLocation::Ftp { host, port, path, username, password_secret: v },
        other => other,
    }
}

fn run_location_exec(l: &FileLocation, secret: Option<String>) -> (r: FileLocation)
    ensures
        r == run_location(*l, secret),
{
    match secret {
        Some(v) => location_with_secret(l.duplicate(), v),
        None => l.duplicate(),
    }
}

fn after_source_exec(
    task_id: u128,
    correlation_id: Option<String>,
    started_at: i64,
    source: FileLocation,
    destination: FileLocation,
    options: TransferOptions,
    source_secret: Option<String>,
) -> (r: (Leaf, ProcessorAction))
    ensures
        r == after_source(task_id, correlation_id, started_at, source, destination, options, source_secret),
{
    match location_secret(&destination) {
        Some(k) => (
            Leaf::Secret {
                task_id, correlation_id, started_at, source, destination, options, for_source: false, source_secret,
            },
            ProcessorAction::ResolveSecret { key: k },
        ),
        None => {
            let run_source = run_location_exec(&source, source_secret);
            let dest = destination.duplicate();
            (
                Leaf::Transfer { task_id, correlation_id, started_at, source, destination },
                ProcessorAction::RunTransfer { source: run_source, destination: dest, options },
            )
        },
    }
}

fn transfer_start_exec(
    task_id: u128,
    correlation_id: Option<String>,
    started_at: i64,
    source: FileLocation,
    destination: FileLocation,
    options: TransferOptions,
) -> (r: (Leaf, ProcessorAction))
    ensures
        r == transfer_start(task_id, correlation_id, started_at, source, destination, options),
        r.1 == transfer_first_action(source, destination, options),
{
    match location_secret(&source) {
        Some(k) => (
            Leaf::Secret {
                task_id, correlation_id, started_at, source, destination, options, for_source: true,
                source_secret: None,
            },
            ProcessorAction::ResolveSecret { key: k },
        ),
        None => after_source_exec(task_id, correlation_id, started_at, source, destination, options, None),
    }
}

/// A composite task being processed: what its sub-tasks inherit, the
/// sub-tasks not started yet, and the results collected so far.
#[derive(Debug)]
pub struct CompositeFrame {
    pub task_id: u128,
    pub correlation_id: Option<String>,
    pub priority: i32,
    pub max_retries: u32,
    pub created_at: i64,
    pub timeout_secs: Option<u64>,
    pub metadata: HashMap<String, String>,
    pub stop_on_error: bool,
    pub started_at: i64,
    /// Sub-tasks not started yet, in order.
    pub remaining: Vec<Box<TaskType>>,
    /// How many sub-tasks have been started.
    pub started: usize,
    /// Results of the finished sub-tasks, in order.
    pub results: Vec<TaskResult>,
}

/// What the processor does next, internally.
#[derive(Debug)]
pub enum Work {
    /// Start processing a task.
    Enter(Task),
    /// A task finished with this outcome; hand it to the enclosing
    /// composite task, or end processing.
    Complete(Result<TaskResult, String>),
    /// Start the next sub-task of the innermost composite task, or finish it.
    Advance,
    /// Hand this action to the caller.
    Emit(ProcessorAction),
}

/// The state of the processing of one task.
#[derive(Debug)]
pub struct TaskRun {
    /// Composite tasks being processed, innermost last.
    pub frames: Vec<CompositeFrame>,
    /// The leaf task whose service call is in flight, if any.
    pub waiting: Option<Leaf>,
}

/// The message of a composite task stopped by the failure of its sub-task
/// number `idx` (counting from 0).
pub open spec fn step_failure_message(idx: nat, err: Seq<char>) -> Seq<char> {
    "Composite task failed at step "@ + decimal(idx) + ": "@ + err
}

/// The message of a composite task some of whose sub-tasks failed.
pub open spec fn some_failed_message() -> Seq<char> {
    "One or more sub-tasks failed"@
}

/// Every result in `rs` is a success.
pub open spec fn all_succeeded(rs: Seq<TaskResult>) -> bool {
    forall|i: int| 0 <= i < rs.len() ==> #[trigger] rs[i].status == TaskStatus::Success
}

/// `b` is `a` with `r` appended to its results and nothing else changed.
pub open spec fn frame_with_result(a: CompositeFrame, b: CompositeFrame, r: TaskResult) -> bool {
    &&& b.task_id == a.task_id
    &&& b.correlation_id == a.correlation_id
    &&& b.priority == a.priority
    &&& b.max_retries == a.max_retries
    &&& b.created_at == a.created_at
    &&& b.timeout_secs == a.timeout_secs
    &&& b.metadata == a.metadata
    &&& b.stop_on_error == a.stop_on_error
    &&& b.started_at == a.started_at
    &&& b.remaining == a.remaining
    &&& b.started == a.started
    &&& b.results@ == a.results@.push(r)
}

/// `b` is `a` after its first remaining sub-task was started.
pub open spec fn frame_after_start(a: CompositeFrame, b: CompositeFrame) -> bool {
    &&& b.task_id == a.task_id
    &&& b.correlation_id == a.correlation_id
    &&& b.priority == a.priority
    &&& b.max_retries == a.max_retries
    &&& b.created_at == a.created_at
    &&& b.timeout_secs == a.timeout_secs
    &&& b.metadata == a.metadata
    &&& b.stop_on_error == a.stop_on_error
    &&& b.started_at == a.started_at
    &&& b.remaining@ == a.remaining@.drop_first()
    &&& b.started == a.started + 1
    &&& b.results == a.results
}

/// `sub` is the sub-task of the composite task of frame `f` for the task
/// type `t`, with identifier `id`.
pub open spec fn is_sub_task(sub: Task, f: CompositeFrame, t: TaskType, id: u128) -> bool {
    &&& sub.id == id
    &&& sub.correlation_id == f.correlation_id
    &&& sub.task_type == t
    &&& sub.priority == f.priority
    &&& sub.max_retries == f.max_retries
    &&& sub.retry_count == 0
    &&& sub.callback_url is None
    &&& sub.result_queue is None
    &&& sub.created_at == f.created_at
    &&& sub.scheduled_at is None
    &&& sub.timeout_secs == f.timeout_secs
    &&& sub.metadata@ == f.metadata@
}

/// `f` is the frame opened for the composite task `task`, with sub-tasks
/// `tasks`, at time `now`.
pub open spec fn is_new_frame(f: CompositeFrame, task: Task, tasks: Vec<Box<TaskType>>, stop_on_error: bool, now: i64) -> bool {
    &&& f.task_id == task.id
    &&& f.correlation_id == task.correlation_id
    &&& f.priority == task.priority
    &&& f.max_retries == task.max_retries
    &&& f.created_at == task.created_at
    &&& f.timeout_secs == task.timeout_secs
    &&& f.metadata == task.metadata
    &&& f.stop_on_error == stop_on_error
    &&& f.started_at == now
    &&& f.remaining == tasks
    &&& f.started == 0
    &&& f.results@.len() == 0
}

/// The number of nodes of a task tree: one for the task, plus those of its
/// sub-tasks when it is composite.
pub open spec fn type_size(t: TaskType) -> nat
    decreases t,
{
    match t {
        TaskType::Composite { tasks, .. } => {
            proof {
                assert(decreases_to!(t => tasks@));
            }
            1 + types_size(tasks@)
        },
        _ => 1,
    }
}

/// The number of nodes of a sequence of task trees.
pub open spec fn types_size(s: Seq<Box<TaskType>>) -> nat
    decreases s,
{
    if s.len() == 0 {
        0
    } else {
        proof {
            assert(decreases_to!(s => s[0]));
            assert(decreases_to!(s => s.subrange(1, s.len() as int)));
        }
        type_size(*s[0]) + types_size(s.subrange(1, s.len() as int))
    }
}

/// The number of task-tree nodes not yet started in a stack of frames.
pub open spec fn frames_size(fs: Seq<CompositeFrame>) -> nat
    decreases fs.len(),
{
    if fs.len() == 0 {
        0
    } else {
        frames_size(fs.drop_last()) + types_size(fs.last().remaining@)
    }
}

/// The work still hidden in a pending step.
pub open spec fn work_weight(w: Work) -> nat {
    match w {
        Work::Enter(t) => type_size(t.task_type),
        _ => 0,
    }
}

/// The order in which pending steps follow each other.
pub open spec fn work_rank(w: Work) -> nat {
    match w {
        Work::Enter(_) => 0,
        Work::Emit(_) => 0,
        Work::Advance => 1,
        Work::Complete(_) => 2,
    }
}

proof fn lemma_frames_size_push(fs: Seq<CompositeFrame>, f: CompositeFrame)
    ensures
        frames_size(fs.push(f)) == frames_size(fs) + types_size(f.remaining@),
{
    assert(fs.push(f).drop_last() =~= fs);
}

proof fn lemma_types_size_first(s: Seq<Box<TaskType>>)
    requires
        s.len() > 0,
    ensures
        types_size(s) == type_size(*s[0]) + types_size(s.drop_first()),
{
    assert(s.subrange(1, s.len() as int) =~= s.drop_first());
}

/// `a` when it is some action, else `b`.
pub open spec fn or_else(a: Option<ProcessorAction>, b: Option<ProcessorAction>) -> Option<ProcessorAction> {
    match a {
        Some(x) => Some(x),
        None => b,
    }
}

/// The first service call met when processing a task of type `t` whose
/// timeout is `timeout`, as long as no call fails: a command (with that
/// timeout), a polled command or a transfer; file watches are skipped and
/// composite tasks are searched in order. `None` when the tree holds no
/// service call.
pub open spec fn first_call(t: TaskType, timeout: Option<u64>) -> Option<ProcessorAction>
    decreases t,
{
    match t {
        TaskType::ExecuteCommand { command, args, working_dir, env_vars } =>
            Some(ProcessorAction::RunCommand { command, args, working_dir, env_vars, timeout_secs: timeout }),
        TaskType::ExecutePolling { command, args, working_dir, env_vars, poll_interval_secs, timeout_secs } =>
            Some(ProcessorAction::RunPolling { command, args, working_dir, env_vars, poll_interval_secs, timeout_secs }),
        TaskType::FileTransfer { source, destination, options } =>
            Some(transfer_first_action(source, destination, options)),
        TaskType::FileWatch { path, patterns, recursive, .. } =>
            Some(ProcessorAction::RunWatch { path, patterns, recursive }),
        TaskType::Composite { tasks, .. } => {
            proof {
                assert(decreases_to!(t => tasks@));
            }
            first_call_in(tasks@, timeout)
        },
    }
}

/// The first service call met in a sequence of task trees processed in
/// order, all with timeout `timeout`.
pub open spec fn first_call_in(s: Seq<Box<TaskType>>, timeout: Option<u64>) -> Option<ProcessorAction>
    decreases s,
{
    if s.len() == 0 {
        None
    } else {
        proof {
            assert(decreases_to!(s => s[0]));
            assert(decreases_to!(s => s.subrange(1, s.len() as int)));
        }
        or_else(first_call(*s[0], timeout), first_call_in(s.subrange(1, s.len() as int), timeout))
    }
}

/// The first service call met when the composite tasks of a frame stack
/// go on: the innermost one's remaining sub-tasks first, then those of the
/// composite tasks around it.
pub open spec fn first_call_frames(fs: Seq<CompositeFrame>) -> Option<ProcessorAction>
    decreases fs.len(),
{
    if fs.len() == 0 {
        None
    } else {
        or_else(first_call_in(fs.last().remaining@, fs.last().timeout_secs), first_call_frames(fs.drop_last()))
    }
}

/// The first service call met from pending step `w` on, over the frame
/// stack `fs`, as long as no call fails. `None` when processing ends
/// without one.
pub open spec fn pending_call(fs: Seq<CompositeFrame>, w: Work) -> Option<ProcessorAction> {
    match w {
        Work::Enter(t) => or_else(first_call(t.task_type, t.timeout_secs), first_call_frames(fs)),
        Work::Emit(ProcessorAction::Finished(_)) => None,
        Work::Emit(a) => Some(a),
        _ => first_call_frames(fs),
    }
}

/// The task whose result ends processing from pending step `w` on, over
/// the frame stack `fs`: the outermost composite task, or else the task
/// being entered or completed. Its identifier and correlation identifier.
pub open spec fn root_of(fs: Seq<CompositeFrame>, w: Work) -> (u128, Option<String>) {
    if fs.len() > 0 {
        (fs[0].task_id, fs[0].correlation_id)
    } else {
        match w {
            Work::Enter(t) => (t.id, t.correlation_id),
            Work::Complete(Ok(r)) => (r.task_id, r.correlation_id),
            Work::Emit(ProcessorAction::Finished(Ok(r))) => (r.task_id, r.correlation_id),
            _ => (0, None),
        }
    }
}

/// No failure is pending: `w` is neither an error handed to a composite
/// task nor a final error.
pub open spec fn no_pending_error(w: Work) -> bool {
    &&& !(w matches Work::Complete(Err(_)))
    &&& !(w matches Work::Emit(ProcessorAction::Finished(Err(_))))
}

/// Everything finished so far succeeded: the results collected by every
/// composite task, and the result pending in `w`, if any.
pub open spec fn all_so_far_succeeded(fs: Seq<CompositeFrame>, w: Work) -> bool {
    &&& forall|i: int| 0 <= i < fs.len() ==> all_succeeded(#[trigger] fs[i].results@)
    &&& (w matches Work::Complete(Ok(r)) ==> r.status == TaskStatus::Success)
    &&& (w matches Work::Emit(ProcessorAction::Finished(Ok(r))) ==> r.status == TaskStatus::Success)
}

proof fn lemma_first_call_in_first(s: Seq<Box<TaskType>>, timeout: Option<u64>)
    requires
        s.len() > 0,
    ensures
        first_call_in(s, timeout) == or_else(first_call(*s[0], timeout), first_call_in(s.drop_first(), timeout)),
{
    assert(s.subrange(1, s.len() as int) =~= s.drop_first());
}

proof fn lemma_first_call_frames_push(fs: Seq<CompositeFrame>, f: CompositeFrame)
    ensures
        first_call_frames(fs.push(f)) == or_else(first_call_in(f.remaining@, f.timeout_secs), first_call_frames(fs)),
{
    assert(fs.push(f).drop_last() =~= fs);
}

/// What `TaskRun::enter` does: starting `task` at time `now` in state `s`
/// leads to state `s2` and step `w`. A command is handed to the caller with
/// the task's timeout (a polled command with its own); a transfer first has
/// its secret references resolved, then is handed over; a file watch is
/// handed over; a composite task opens a frame whose sub-tasks are started
/// next. The leaf in flight carries the task's identity.
pub open spec fn enter_post(s: TaskRun, task: Task, now: i64, s2: TaskRun, w: Work) -> bool {
    match task.task_type {
        TaskType::ExecuteCommand { command, args, working_dir, env_vars } => {
            &&& w == Work::Emit(ProcessorAction::RunCommand {
                command, args, working_dir, env_vars, timeout_secs: task.timeout_secs,
            })
            &&& s2.waiting == Some(Leaf::Command { task_id: task.id, correlation_id: task.correlation_id })
            &&& s2.frames == s.frames
        },
        TaskType::ExecutePolling { command, args, working_dir, env_vars, poll_interval_secs, timeout_secs } => {
            &&& w == Work::Emit(ProcessorAction::RunPolling {
                command, args, working_dir, env_vars, poll_interval_secs, timeout_secs,
            })
            &&& s2.waiting == Some(Leaf::Command { task_id: task.id, correlation_id: task.correlation_id })
            &&& s2.frames == s.frames
        },
        TaskType::FileTransfer { source, destination, options } => {
            &&& w == Work::Emit(transfer_start(task.id, task.correlation_id, now, source, destination, options).1)
            &&& s2.waiting == Some(transfer_start(task.id, task.correlation_id, now, source, destination, options).0)
            &&& s2.frames == s.frames
        },
        TaskType::FileWatch { path, patterns, recursive, .. } => {
            &&& w == Work::Emit(ProcessorAction::RunWatch { path, patterns, recursive })
            &&& s2.waiting == Some(Leaf::Watch { task_id: task.id, correlation_id: task.correlation_id, started_at: now })
            &&& s2.frames == s.frames
        },
        TaskType::Composite { tasks, stop_on_error } => {
            &&& w == Work::Advance
            &&& s2.waiting is None
            &&& s2.frames@.len() == s.frames@.len() + 1
            &&& s2.frames@.drop_last() =~= s.frames@
            &&& is_new_frame(s2.frames@.last(), task, tasks, stop_on_error, now)
        },
    }
}

/// What `TaskRun::resume` does with `outcome` in state `s`. A command's
/// result is stamped with the leaf task's identity; a transfer that moved
/// `n` bytes becomes a success recording what moved (with the task's own
/// locations, secrets not put in); a resolved secret lets the transfer go
/// on; a watch set up becomes a success; an error is passed on unchanged.
pub open spec fn resume_post(s: TaskRun, outcome: ServiceOutcome, s2: TaskRun, w: Work) -> bool {
    &&& s2.frames == s.frames
    &&& match (s.waiting, outcome) {
        (Some(Leaf::Command { task_id, correlation_id }), ServiceOutcome::Command(Ok(r))) => {
            &&& s2.waiting is None
            &&& w == Work::Complete(Ok(TaskResult { task_id, correlation_id, ..r }))
        },
        (Some(Leaf::Transfer { task_id, correlation_id, started_at, source, destination }),
            ServiceOutcome::Transfer(Ok(n))) => {
            &&& s2.waiting is None
            &&& w matches Work::Complete(Ok(r)) && {
                &&& r.data == Some(ResultData::Transfer { bytes_transferred: n, source, destination })
                &&& is_success_result(TaskResult { data: None, ..r }, task_id, correlation_id, started_at)
            }
        },
        (Some(Leaf::Secret { .. }), ServiceOutcome::Secret(Ok(v))) => {
            &&& s2.waiting == Some(secret_resolved(s.waiting->0, v).0)
            &&& w == Work::Emit(secret_resolved(s.waiting->0, v).1)
        },
        (Some(Leaf::Watch { task_id, correlation_id, started_at }), ServiceOutcome::Watch(Ok(_))) => {
            &&& s2.waiting is None
            &&& w matches Work::Complete(Ok(r)) && is_success_result(r, task_id, correlation_id, started_at)
        },
        (_, ServiceOutcome::Command(Err(e))) => s2.waiting is None && w == Work::Complete(Err(e)),
        (_, ServiceOutcome::Transfer(Err(e))) => s2.waiting is None && w == Work::Complete(Err(e)),
        (_, ServiceOutcome::Secret(Err(e))) => s2.waiting is None && w == Work::Complete(Err(e)),
        (_, ServiceOutcome::Watch(Err(e))) => s2.waiting is None && w == Work::Complete(Err(e)),
        _ => false,
    }
}

/// What `TaskRun::complete` does with `outcome` in state `s`: with no
/// composite task the outcome ends processing; otherwise a success is
/// recorded by the innermost composite task, and a failure either stops it
/// (when it stops on error: it fails naming the step) or is recorded as a
/// failed result of it.
pub open spec fn complete_post(s: TaskRun, outcome: Result<TaskResult, String>, s2: TaskRun, w: Work) -> bool {
    &&& s2.waiting is None
    &&& s.frames@.len() == 0 ==> {
        &&& w == Work::Emit(ProcessorAction::Finished(outcome))
        &&& s2.frames == s.frames
    }
    &&& s.frames@.len() > 0 ==> {
        let f = s.frames@.last();
        match outcome {
            Ok(r) => {
                &&& w == Work::Advance
                &&& s2.frames@.len() == s.frames@.len()
                &&& s2.frames@.drop_last() =~= s.frames@.drop_last()
                &&& frame_with_result(f, s2.frames@.last(), r)
            },
            Err(e) => if f.stop_on_error {
                &&& w matches Work::Complete(Ok(r)) && is_failed_result(
                    r, f.task_id, f.correlation_id, f.started_at,
                    step_failure_message((f.started - 1) as nat, e@))
                &&& s2.frames@ =~= s.frames@.drop_last()
            } else {
                &&& w == Work::Advance
                &&& s2.frames@.len() == s.frames@.len()
                &&& s2.frames@.drop_last() =~= s.frames@.drop_last()
                &&& frame_with_result(f, s2.frames@.last(), s2.frames@.last().results@.last())
                &&& is_failed_result(s2.frames@.last().results@.last(), f.task_id, f.correlation_id,
                    f.started_at, e@)
            },
        }
    }
}

/// What `TaskRun::advance` does in state `s` with fresh identifier `id`:
/// the innermost composite task starts its next sub-task, or, with none
/// left, finishes: a success when every sub-task succeeded and a failure
/// otherwise, carrying the sub-results in order.
pub open spec fn advance_post(s: TaskRun, id: u128, s2: TaskRun, w: Work) -> bool {
    let f = s.frames@.last();
    &&& s2.waiting is None
    &&& if f.remaining@.len() > 0 {
        &&& w matches Work::Enter(sub) && is_sub_task(sub, f, *f.remaining@[0], id)
        &&& s2.frames@.len() == s.frames@.len()
        &&& s2.frames@.drop_last() =~= s.frames@.drop_last()
        &&& frame_after_start(f, s2.frames@.last())
    } else {
        &&& s2.frames@ =~= s.frames@.drop_last()
        &&& w matches Work::Complete(Ok(r)) && {
            &&& r.data == Some(ResultData::SubResults(f.results))
            &&& if all_succeeded(f.results@) {
                is_success_result(TaskResult { data: None, ..r }, f.task_id, f.correlation_id, f.started_at)
            } else {
                is_failed_result(TaskResult { data: None, ..r }, f.task_id, f.correlation_id,
                    f.started_at, some_failed_message())
            }
        }
    }
}

/// `r` is the result of the composite task of frame `f` once it has no
/// sub-task left: its sub-results in order, a success when all succeeded
/// and a failure otherwise.
pub open spec fn finished_frame_result(f: CompositeFrame, r: TaskResult) -> bool {
    &&& r.data == Some(ResultData::SubResults(f.results))
    &&& if all_succeeded(f.results@) {
        is_success_result(TaskResult { data: None, ..r }, f.task_id, f.correlation_id, f.started_at)
    } else {
        is_failed_result(TaskResult { data: None, ..r }, f.task_id, f.correlation_id, f.started_at,
            some_failed_message())
    }
}

/// One internal step of processing: from state `s` with pending step `w`
/// to state `s2` with pending step `w2`, as `enter` (at some time),
/// `complete` or `advance` (with some fresh identifier) does it.
pub open spec fn step(s: TaskRun, w: Work, s2: TaskRun, w2: Work) -> bool {
    match w {
        Work::Enter(t) => exists|now: i64| #[trigger] enter_post(s, t, now, s2, w2),
        Work::Complete(o) => complete_post(s, o, s2, w2),
        Work::Advance => exists|id: u128| #[trigger] advance_post(s, id, s2, w2),
        Work::Emit(_) => false,
    }
}

/// Entry `i` of `tr` leads to entry `i + 1` by one step.
pub open spec fn steps_at(tr: Seq<(TaskRun, Work)>, i: int) -> bool {
    step(tr[i].0, tr[i].1, tr[i + 1].0, tr[i + 1].1)
}

/// `tr` is a run of internal steps: each entry leads to the next.
pub open spec fn is_run(tr: Seq<(TaskRun, Work)>) -> bool {
    &&& tr.len() > 0
    &&& forall|i: int| 0 <= i < tr.len() - 1 ==> #[trigger] steps_at(tr, i)
}

proof fn lemma_run_push(tr: Seq<(TaskRun, Work)>, s: TaskRun, w: Work)
    requires
        is_run(tr),
        step(tr.last().0, tr.last().1, s, w),
    ensures
        is_run(tr.push((s, w))),
        tr.push((s, w))[0] == tr[0],
        tr.push((s, w)).last() == (s, w),
{
    let t2 = tr.push((s, w));
    assert forall|i: int| 0 <= i < t2.len() - 1 implies #[trigger] steps_at(t2, i) by {
        if i < tr.len() - 1 {
            assert(steps_at(tr, i));
            assert(t2[i] == tr[i] && t2[i + 1] == tr[i + 1]);
        } else {
            assert(t2[i] == tr.last() && t2[i + 1] == (s, w));
        }
    }
}

proof fn lemma_run_prepend(s: TaskRun, w: Work, tr: Seq<(TaskRun, Work)>)
    requires
        is_run(tr),
        step(s, w, tr[0].0, tr[0].1),
    ensures
        is_run(seq![(s, w)] + tr),
        (seq![(s, w)] + tr)[0] == (s, w),
        (seq![(s, w)] + tr).last() == tr.last(),
{
    let t2 = seq![(s, w)] + tr;
    assert forall|i: int| 0 <= i < t2.len() - 1 implies #[trigger] steps_at(t2, i) by {
        if i == 0 {
            assert(t2[0] == (s, w) && t2[1] == tr[0]);
        } else {
            assert(steps_at(tr, i - 1));
            assert(t2[i] == tr[i - 1] && t2[i + 1] == tr[i]);
        }
    }
}

impl TaskRun {
    /// The frame of the innermost composite task.
    pub open spec fn top(&self) -> CompositeFrame {
        self.frames@.last()
    }

    /// Invariants of the frame stack: counts stay within `usize`, and every
    /// composite task but the innermost one has a sub-task in flight.
    pub open spec fn wf(&self) -> bool {
        &&& forall|i: int| 0 <= i < self.frames@.len() ==>
            #[trigger] self.frames@[i].started + self.frames@[i].remaining@.len() <= usize::MAX
        &&& forall|i: int| 0 <= i < self.frames@.len() - 1 ==> #[trigger] self.frames@[i].started >= 1
    }

    /// The innermost composite task, if any, has a sub-task in flight.
    pub open spec fn child_in_flight(&self) -> bool {
        self.frames@.len() > 0 ==> self.top().started >= 1
    }

    /// `outcome` is of the kind the in-flight service call produces.
    pub open spec fn awaits(&self, outcome: ServiceOutcome) -> bool {
        match self.waiting {
            Some(Leaf::Command { .. }) => outcome is Command,
            Some(Leaf::Transfer { .. }) => outcome is Transfer,
            Some(Leaf::Secret { .. }) => outcome is Secret,
            Some(Leaf::Watch { .. }) => outcome is Watch,
            None => false,
        }
    }

    /// The state agrees with the action just handed to the caller: a
    /// service call is in flight for a run action, and nothing is left for
    /// the final one.
    pub open spec fn expects(&self, a: ProcessorAction) -> bool {
        &&& self.wf()
        &&& match a {
            ProcessorAction::RunCommand { .. } => self.waiting matches Some(Leaf::Command { .. }) && self.child_in_flight(),
            ProcessorAction::RunPolling { .. } => self.waiting matches Some(Leaf::Command { .. }) && self.child_in_flight(),
            ProcessorAction::RunTransfer { .. } => self.waiting matches Some(Leaf::Transfer { .. }) && self.child_in_flight(),
            ProcessorAction::ResolveSecret { .. } => self.waiting matches Some(Leaf::Secret { .. }) && self.child_in_flight(),
            ProcessorAction::RunWatch { .. } => self.waiting matches Some(Leaf::Watch { .. }) && self.child_in_flight(),
            ProcessorAction::Finished(_) => self.frames@.len() == 0 && self.waiting is None,
        }
    }

    /// Starts processing `task` at time `now`: what `enter_post` says.
    pub fn enter(&mut self, task: Task, now: i64) -> (w: Work)
        requires
            old(self).waiting is None,
            old(self).wf(),
            old(self).child_in_flight(),
        ensures
            final(self).wf(),
            enter_post(*old(self), task, now, *final(self), w),
    {
        let Task {
            id,
            correlation_id,
            task_type,
            priority,
            max_retries,
            retry_count: _,
            callback_url: _,
            result_queue: _,
            created_at,
            scheduled_at: _,
            timeout_secs,
            metadata,
        } = task;
        match task_type {
            TaskType::ExecuteCommand { command, args, working_dir, env_vars } => {
                self.waiting = Some(Leaf::Command { task_id: id, correlation_id });
                Work::Emit(ProcessorAction::RunCommand { command, args, working_dir, env_vars, timeout_secs })
            },
            TaskType::ExecutePolling { command, args, working_dir, env_vars, poll_interval_secs, timeout_secs } => {
                self.waiting = Some(Leaf::Command { task_id: id, correlation_id });
                Work::Emit(ProcessorAction::RunPolling {
                    command, args, working_dir, env_vars, poll_interval_secs, timeout_secs,
                })
            },
            TaskType::FileTransfer { source, destination, options } => {
                let (leaf, a) = transfer_start_exec(id, correlation_id, now, source, destination, options);
                self.waiting = Some(leaf);
                Work::Emit(a)
            },
            TaskType::FileWatch { path, patterns, recursive, .. } => {
                self.waiting = Some(Leaf::Watch { task_id: id, correlation_id, started_at: now });
                Work::Emit(ProcessorAction::RunWatch { path, patterns, recursive })
            },
            TaskType::Composite { tasks, stop_on_error } => {
                let _count = tasks.len();
                self.frames.push(CompositeFrame {
                    task_id: id,
                    correlation_id,
                    priority,
                    max_retries,
                    created_at,
                    timeout_secs,
                    metadata,
                    stop_on_error,
                    started_at: now,
                    remaining: tasks,
                    started: 0,
                    results: Vec::new(),
                });
                Work::Advance
            },
        }
    }

    /// Takes in the outcome of the in-flight service call: what
    /// `resume_post` says.
    pub fn resume(&mut self, outcome: ServiceOutcome) -> (w: Work)
        requires
            old(self).awaits(outcome),
        ensures
            resume_post(*old(self), outcome, *final(self), w),
    {
        let leaf = self.waiting.take();
        match (leaf, outcome) {
            (Some(Leaf::Command { task_id, correlation_id }), ServiceOutcome::Command(Ok(r))) => {
                Work::Complete(Ok(TaskResult { task_id, correlation_id, ..r }))
            },
            (Some(Leaf::Transfer { task_id, correlation_id, started_at, source, destination }),
                ServiceOutcome::Transfer(Ok(n))) => {
                let r = TaskResult::new_success(task_id, correlation_id, started_at);
                Work::Complete(Ok(TaskResult {
                    data: Some(ResultData::Transfer { bytes_transferred: n, source, destination }),
                    ..r
                }))
            },
            (Some(Leaf::Secret { task_id, correlation_id, started_at, source, destination, options, for_source, source_secret }),
                ServiceOutcome::Secret(Ok(v))) => {
                if for_source {
                    let (leaf, a) = after_source_exec(task_id, correlation_id, started_at, source, destination,
                        options, Some(v));
                    self.waiting = Some(leaf);
                    Work::Emit(a)
                } else {
                    let run_source = run_location_exec(&source, source_secret);
                    let run_dest = location_with_secret(destination.duplicate(), v);
                    self.waiting = Some(Leaf::Transfer { task_id, correlation_id, started_at, source, destination });
                    Work::Emit(ProcessorAction::RunTransfer { source: run_source, destination: run_dest, options })
                }
            },
            (Some(Leaf::Watch { task_id, correlation_id, started_at }), ServiceOutcome::Watch(Ok(_))) => {
                Work::Complete(Ok(TaskResult::new_success(task_id, correlation_id, started_at)))
            },
            (_, ServiceOutcome::Command(Err(e))) => Work::Complete(Err(e)),
            (_, ServiceOutcome::Transfer(Err(e))) => Work::Complete(Err(e)),
            (_, ServiceOutcome::Secret(Err(e))) => Work::Complete(Err(e)),
            (_, ServiceOutcome::Watch(Err(e))) => Work::Complete(Err(e)),
            (_, ServiceOutcome::Command(Ok(r))) => Work::Complete(Ok(r)),
            (_, _) => Work::Complete(Err(String::new())),
        }
    }

    /// Hands the outcome of a finished task to the innermost composite task,
    /// or ends processing when there is none.
    ///
    /// A success is recorded. A failure stops the composite task when it
    /// stops on error, which then fails itself naming the failed step;
    /// otherwise the failure is recorded as a failed result of the composite
    /// task and processing goes on.
    pub fn complete(&mut self, outcome: Result<TaskResult, String>) -> (w: Work)
        requires
            old(self).waiting is None,
            old(self).wf(),
            old(self).child_in_flight(),
        ensures
            final(self).wf(),
            final(self).waiting is None,
            old(self).frames@.len() == 0 ==> {
                &&& w == Work::Emit(ProcessorAction::Finished(outcome))
                &&& final(self).frames == old(self).frames
            },
            old(self).frames@.len() > 0 ==> {
                let f = old(self).top();
                match outcome {
                    Ok(r) => {
                        &&& w == Work::Advance
                        &&& final(self).frames@.len() == old(self).frames@.len()
                        &&& final(self).frames@.drop_last() == old(self).frames@.drop_last()
                        &&& frame_with_result(f, final(self).top(), r)
                    },
                    Err(e) => if f.stop_on_error {
                        &&& w matches Work::Complete(Ok(r)) && is_failed_result(
                            r, f.task_id, f.correlation_id, f.started_at,
                            step_failure_message((f.started - 1) as nat, e@))
                        &&& final(self).frames@ == old(self).frames@.drop_last()
                    } else {
                        &&& w == Work::Advance
                        &&& final(self).frames@.len() == old(self).frames@.len()
                        &&& final(self).frames@.drop_last() == old(self).frames@.drop_last()
                        &&& frame_with_result(f, final(self).top(), final(self).top().results@.last())
                        &&& is_failed_result(final(self).top().results@.last(), f.task_id, f.correlation_id,
                            f.started_at, e@)
                    },
                }
            },
            complete_post(*old(self), outcome, *final(self), w),
    {
        if self.frames.len() == 0 {
            return Work::Emit(ProcessorAction::Finished(outcome));
        }
        let mut f = self.frames.pop().unwrap();
        let ghost f0 = f;
        match outcome {
            Ok(r) => {
                f.results.push(r);
                self.frames.push(f);
                Work::Advance
            },
            Err(e) => {
                if f.stop_on_error {
                    let idx: usize = f.started - 1;
                    let mut msg = String::from_str("Composite task failed at step ");
                    let digits = u64_to_decimal(idx as u64);
                    msg.append(digits.as_str());
                    msg.append(": ");
                    msg.append(e.as_str());
                    let r = TaskResult::new_failed(f.task_id, f.correlation_id, f.started_at, msg);
                    Work::Complete(Ok(r))
                } else {
                    let corr = f.correlation_id.clone();
                    let r = TaskResult::new_failed(f.task_id, corr, f.started_at, e);
                    let ghost rr = r;
                    f.results.push(r);
                    self.frames.push(f);
                    assert(frame_with_result(f0, self.top(), rr));
                    Work::Advance
                }
            },
        }
    }

    /// Starts the next sub-task of the innermost composite task, with
    /// identifier `fresh_id`, or finishes the composite task when none is
    /// left: it succeeds when every sub-task succeeded and fails otherwise,
    /// carrying the sub-results in order.
    pub fn advance(&mut self, fresh_id: u128) -> (w: Work)
        requires
            old(self).waiting is None,
            old(self).wf(),
            old(self).frames@.len() > 0,
        ensures
            final(self).wf(),
            final(self).waiting is None,
            ({
                let f = old(self).top();
                if f.remaining@.len() > 0 {
                    &&& w matches Work::Enter(sub) && is_sub_task(sub, f, *f.remaining@[0], fresh_id)
                    &&& final(self).frames@.len() == old(self).frames@.len()
                    &&& final(self).frames@.drop_last() == old(self).frames@.drop_last()
                    &&& frame_after_start(f, final(self).top())
                } else {
                    &&& final(self).frames@ == old(self).frames@.drop_last()
                    &&& w matches Work::Complete(Ok(r)) && {
                        &&& r.data == Some(ResultData::SubResults(f.results))
                        &&& if all_succeeded(f.results@) {
                            is_success_result(TaskResult { data: None, ..r }, f.task_id, f.correlation_id, f.started_at)
                        } else {
                            is_failed_result(TaskResult { data: None, ..r }, f.task_id, f.correlation_id,
                                f.started_at, some_failed_message())
                        }
                    }
                }
            }),
            advance_post(*old(self), fresh_id, *final(self), w),
    {
        let ghost old_frames = self.frames@;
        let mut f = self.frames.pop().unwrap();
        let ghost f0 = f;
        assert(f0 == old_frames[old_frames.len() - 1]);
        if f.remaining.len() > 0 {
            let child = f.remaining.remove(0);
            f.started = f.started + 1;
            let sub = Task {
                id: fresh_id,
                correlation_id: f.correlation_id.clone(),
                task_type: *child,
                priority: f.priority,
                max_retries: f.max_retries,
                retry_count: 0,
                callback_url: None,
                result_queue: None,
                created_at: f.created_at,
                scheduled_at: None,
                timeout_secs: f.timeout_secs,
                metadata: f.metadata.clone(),
            };
            self.frames.push(f);
            assert(f.remaining@ =~= f0.remaining@.drop_first());
            Work::Enter(sub)
        } else {
            let mut all = true;
            let n = f.results.len();
            let mut i: usize = 0;
            while i < n
                invariant
                    n == f.results@.len(),
                    i <= n,
                    all == (forall|j: int| 0 <= j < i ==> #[trigger] f.results@[j].status == TaskStatus::Success),
                decreases n - i,
            {
                if f.results[i].status != TaskStatus::Success {
                    all = false;
                }
                i = i + 1;
            }
            let r = if all {
                TaskResult::new_success(f.task_id, f.correlation_id, f.started_at)
            } else {
                TaskResult::new_failed(f.task_id, f.correlation_id, f.started_at,
                    String::from_str("One or more sub-tasks failed"))
            };
            Work::Complete(Ok(TaskResult { data: Some(ResultData::SubResults(f.results)), ..r }))
        }
    }

    /// `w` may be taken up in this state.
    pub open spec fn work_ok(&self, w: Work) -> bool {
        match w {
            Work::Enter(_) => self.waiting is None && self.child_in_flight(),
            Work::Complete(_) => self.waiting is None && self.child_in_flight(),
            Work::Advance => self.waiting is None && self.frames@.len() > 0,
            Work::Emit(a) => self.expects(a),
        }
    }

    /// Carries out internal steps until there is an action for the caller.
    /// Each step that needs the time or a fresh identifier reads the clock
    /// or draws a random identifier. The loop ends because every step
    /// either consumes a node of the task tree, leaves a composite task, or
    /// moves to a step of lower rank.
    fn settle(&mut self, first: Work) -> (a: ProcessorAction)
        requires
            old(self).wf(),
            old(self).work_ok(first),
        ensures
            final(self).expects(a),
            first matches Work::Emit(a0) ==> a == a0 && *final(self) == *old(self),
            no_pending_error(first) ==> match pending_call(old(self).frames@, first) {
                Some(x) => a == x,
                None => a matches ProcessorAction::Finished(Ok(r))
                    && (r.task_id, r.correlation_id) == root_of(old(self).frames@, first),
            },
            no_pending_error(first) && all_so_far_succeeded(old(self).frames@, first)
                && pending_call(old(self).frames@, first) is None
                ==> (a matches ProcessorAction::Finished(Ok(r)) && r.status == TaskStatus::Success),
            old(self).frames@.len() > 0 ==> !(a matches ProcessorAction::Finished(Err(_))),
            old(self).frames@.len() > 0 && !(a is Finished) ==> {
                &&& final(self).frames@.len() > 0
                &&& final(self).frames@[0].task_id == old(self).frames@[0].task_id
                &&& final(self).frames@[0].correlation_id == old(self).frames@[0].correlation_id
            },
            !(first is Emit) && !(a is Finished) ==>
                frames_size(final(self).frames@) < frames_size(old(self).frames@) + work_weight(first),
            exists|tr: Seq<(TaskRun, Work)>| #![trigger is_run(tr)]
                is_run(tr) && tr[0] == (*old(self), first) && tr.last() == (*final(self), Work::Emit(a)),
            old(self).frames@.len() == 0 && first is Complete ==> a == ProcessorAction::Finished(first->Complete_0),
            old(self).frames@.len() == 1 && first is Advance && old(self).top().remaining@.len() == 0
                ==> (a matches ProcessorAction::Finished(Ok(r)) && finished_frame_result(old(self).top(), r)),
    {
        let ghost first0 = first;
        let ghost s0 = *self;
        if let Work::Emit(a) = first {
            proof {
                let tr = seq![(s0, first0)];
                assert(is_run(tr));
            }
            return a;
        }
        let ghost mut tr = seq![(s0, first0)];
        let ghost fs0 = self.frames@;
        let mut work = first;
        loop
            invariant
                self.wf(),
                self.work_ok(work),
                !(first is Emit),
                fs0 == old(self).frames@,
                s0 == *old(self),
                first0 == first,
                is_run(tr),
                tr[0] == (s0, first0),
                tr.last() == (*self, work),
                fs0.len() == 0 && first is Complete ==> ((work == first && self.frames@.len() == 0)
                    || work == Work::Emit(ProcessorAction::Finished(first->Complete_0))),
                fs0.len() == 1 && first is Advance && s0.frames@.last().remaining@.len() == 0 ==> {
                    ||| (work == first && *self == s0)
                    ||| (self.frames@.len() == 0 && (work matches Work::Complete(Ok(r))
                        && finished_frame_result(s0.frames@.last(), r)))
                    ||| (work matches Work::Emit(ProcessorAction::Finished(Ok(r)))
                        && finished_frame_result(s0.frames@.last(), r))
                },
                no_pending_error(first) ==> no_pending_error(work),
                no_pending_error(first) ==> pending_call(self.frames@, work) == pending_call(fs0, first),
                no_pending_error(first) && pending_call(fs0, first) is None
                    ==> root_of(self.frames@, work) == root_of(fs0, first),
                no_pending_error(first) && all_so_far_succeeded(fs0, first)
                    ==> all_so_far_succeeded(self.frames@, work),
                fs0.len() > 0 ==> (no_pending_error(work)
                    || (work matches Work::Complete(Err(_)) && self.frames@.len() > 0)),
                fs0.len() > 0 && self.frames@.len() > 0 ==> {
                    &&& self.frames@[0].task_id == fs0[0].task_id
                    &&& self.frames@[0].correlation_id == fs0[0].correlation_id
                },
                fs0.len() > 0 && self.frames@.len() == 0 ==> (work is Complete
                    || work matches Work::Emit(ProcessorAction::Finished(_))),
                frames_size(self.frames@) + work_weight(work) <= frames_size(fs0) + work_weight(first),
                (work matches Work::Emit(a) && !(a is Finished))
                    ==> frames_size(self.frames@) < frames_size(fs0) + work_weight(first),
            decreases frames_size(self.frames@) + work_weight(work), self.frames@.len(), work_rank(work),
        {
            let ghost before = *self;
            let ghost w0 = work;
            match work {
                Work::Emit(a) => {
                    proof {
                        assert(is_run(tr));
                    }
                    return a;
                },
                Work::Enter(t) => {
                    let ghost tt = t;
                    let now = now_millis();
                    let next = self.enter(t, now);
                    proof {
                        assert(enter_post(before, tt, now, *self, next));
                        lemma_run_push(tr, *self, next);
                        tr = tr.push((*self, next));
                        if let TaskType::Composite { tasks, .. } = tt.task_type {
                            assert(self.frames@ =~= before.frames@.push(self.top()));
                            lemma_frames_size_push(before.frames@, self.top());
                            lemma_first_call_frames_push(before.frames@, self.top());
                            if before.frames@.len() == 0 {
                                assert(self.frames@[0] == self.top());
                            } else {
                                assert(self.frames@[0] == before.frames@[0]);
                            }
                            assert forall|i: int| 0 <= i < self.frames@.len()
                                && (i < before.frames@.len() ==> all_succeeded(before.frames@[i].results@))
                                implies all_succeeded(#[trigger] self.frames@[i].results@) by {
                                if i < before.frames@.len() {
                                    assert(self.frames@[i] == before.frames@[i]);
                                }
                            }
                        }
                    }
                    work = next;
                },
                Work::Complete(o) => {
                    let ghost oo = o;
                    let next = self.complete(o);
                    proof {
                        assert(complete_post(before, oo, *self, next));
                        lemma_run_push(tr, *self, next);
                        tr = tr.push((*self, next));
                        if before.frames@.len() > 0 {
                            assert(before.frames@ =~= before.frames@.drop_last().push(before.top()));
                            lemma_frames_size_push(before.frames@.drop_last(), before.top());
                            lemma_first_call_frames_push(before.frames@.drop_last(), before.top());
                            if self.frames@.len() == before.frames@.len() {
                                assert(self.frames@ =~= before.frames@.drop_last().push(self.top()));
                                lemma_frames_size_push(before.frames@.drop_last(), self.top());
                                lemma_first_call_frames_push(before.frames@.drop_last(), self.top());
                                if before.frames@.len() == 1 {
                                    assert(self.frames@[0] == self.top());
                                    assert(before.frames@[0] == before.top());
                                } else {
                                    assert(self.frames@[0] == before.frames@[0]);
                                }
                                if w0 matches Work::Complete(Ok(r0)) && r0.status == TaskStatus::Success {
                                    assert forall|i: int| 0 <= i < self.frames@.len()
                                        && all_succeeded(before.frames@[i].results@)
                                        implies all_succeeded(#[trigger] self.frames@[i].results@) by {
                                        if i < self.frames@.len() - 1 {
                                            assert(self.frames@[i] == before.frames@[i]);
                                        } else {
                                            assert(before.frames@[i] == before.top());
                                            assert(self.frames@[i] == self.top());
                                            let rs = self.top().results@;
                                            let rs0 = before.top().results@;
                                            assert forall|j: int| 0 <= j < rs.len()
                                                implies #[trigger] rs[j].status == TaskStatus::Success by {
                                                if j < rs0.len() {
                                                    assert(rs[j] == rs0[j]);
                                                }
                                            }
                                        }
                                    }
                                }
                            } else {
                                if self.frames@.len() > 0 {
                                    assert(self.top() == before.frames@[before.frames@.len() - 2]);
                                    assert(self.frames@[0] == before.frames@[0]);
                                }
                                assert forall|i: int| 0 <= i < self.frames@.len() implies
                                    self.frames@[i] == before.frames@[i] by {}
                            }
                        }
                    }
                    work = next;
                },
                Work::Advance => {
                    let fresh = random_id();
                    let next = self.advance(fresh);
                    proof {
                        assert(advance_post(before, fresh, *self, next));
                        lemma_run_push(tr, *self, next);
                        tr = tr.push((*self, next));
                        assert(before.frames@ =~= before.frames@.drop_last().push(before.top()));
                        lemma_frames_size_push(before.frames@.drop_last(), before.top());
                        lemma_first_call_frames_push(before.frames@.drop_last(), before.top());
                        if before.top().remaining@.len() > 0 {
                            assert(self.frames@ =~= before.frames@.drop_last().push(self.top()));
                            lemma_frames_size_push(before.frames@.drop_last(), self.top());
                            lemma_first_call_frames_push(before.frames@.drop_last(), self.top());
                            lemma_types_size_first(before.top().remaining@);
                            lemma_first_call_in_first(before.top().remaining@, before.top().timeout_secs);
                            if before.frames@.len() == 1 {
                                assert(self.frames@[0] == self.top());
                                assert(before.frames@[0] == before.top());
                            } else {
                                assert(self.frames@[0] == before.frames@[0]);
                            }
                            assert forall|i: int| 0 <= i < self.frames@.len()
                                && all_succeeded(before.frames@[i].results@)
                                implies all_succeeded(#[trigger] self.frames@[i].results@) by {
                                if i < self.frames@.len() - 1 {
                                    assert(self.frames@[i] == before.frames@[i]);
                                } else {
                                    assert(before.frames@[i] == before.top());
                                    assert(self.frames@[i] == self.top());
                                }
                            }
                        } else {
                            assert(types_size(before.top().remaining@) == 0);
                            if self.frames@.len() > 0 {
                                assert(self.top() == before.frames@[before.frames@.len() - 2]);
                                assert(self.frames@[0] == before.frames@[0]);
                            } else {
                                assert(before.frames@[0] == before.top());
                            }
                            assert forall|i: int| 0 <= i < self.frames@.len() implies
                                self.frames@[i] == before.frames@[i] by {}
                            assert(before.frames@[before.frames@.len() - 1] == before.top());
                        }
                    }
                    work = next;
                },
            }
        }
    }

    /// Starts processing `task`. The returned action is what the caller
    /// must do next: a command, polled command or file watch is handed over
    /// as it stands in the task (a command with the task's timeout); a
    /// transfer first asks for the secrets its locations refer to, then is
    /// handed over. The call in flight belongs to the task. A composite
    /// task is processed up to its
    /// first service call in processing order (a command again with the
    /// task's timeout, which its sub-tasks inherit); when it holds none, it
    /// finishes at once with a success. Every service call uses up a node of
    /// the task tree: fewer than `type_size` of the task's nodes are left
    /// when a call is handed out. The state and action are reached from
    /// entering the task by a run of the internal steps (`is_run`).
    pub fn start(task: Task) -> (res: (TaskRun, ProcessorAction))
        ensures
            res.0.expects(res.1),
            match first_call(task.task_type, task.timeout_secs) {
                Some(x) => res.1 == x,
                None => res.1 matches ProcessorAction::Finished(Ok(r)) && {
                    &&& r.status == TaskStatus::Success
                    &&& r.task_id == task.id
                    &&& r.correlation_id == task.correlation_id
                },
            },
            !(task.task_type is Composite) ==> (res.0.waiting matches Some(l)
                && leaf_identity(l) == (task.id, task.correlation_id)),
            task.task_type is Composite && !(res.1 is Finished) ==> {
                &&& res.0.frames@.len() > 0
                &&& res.0.frames@[0].task_id == task.id
                &&& res.0.frames@[0].correlation_id == task.correlation_id
            },
            !(task.task_type is Composite) ==> res.0.frames@.len() == 0,
            !(res.1 is Finished) ==> frames_size(res.0.frames@) < type_size(task.task_type),
            exists|tr: Seq<(TaskRun, Work)>| #![trigger is_run(tr)] {
                &&& is_run(tr)
                &&& tr[0].0.frames@.len() == 0
                &&& tr[0].0.waiting is None
                &&& tr[0].1 == Work::Enter(task)
                &&& tr.last() == (res.0, Work::Emit(res.1))
            },
    {
        let ghost t0 = task;
        let mut run = TaskRun { frames: Vec::new(), waiting: None };
        let ghost r0 = run;
        let now = now_millis();
        let w = run.enter(task, now);
        let ghost r1 = run;
        let ghost w1 = w;
        proof {
            if let TaskType::Composite { tasks, .. } = t0.task_type {
                assert(run.frames@ =~= Seq::<CompositeFrame>::empty().push(run.top()));
                lemma_first_call_frames_push(Seq::<CompositeFrame>::empty(), run.top());
                assert(run.frames@[0] == run.top());
                lemma_frames_size_push(Seq::<CompositeFrame>::empty(), run.top());
            }
        }
        let a = run.settle(w);
        proof {
            assert(enter_post(r0, t0, now, r1, w1));
            assert(step(r0, Work::Enter(t0), r1, w1));
            let tr2 = choose|tr: Seq<(TaskRun, Work)>| #![trigger is_run(tr)]
                is_run(tr) && tr[0] == (r1, w1) && tr.last() == (run, Work::Emit(a));
            lemma_run_prepend(r0, Work::Enter(t0), tr2);
            assert(is_run(seq![(r0, Work::Enter(t0))] + tr2));
        }
        (run, a)
    }

    /// Feeds the outcome of the service call the last action asked for, and
    /// returns the next action. When no composite task is being processed,
    /// the next action is the end of processing: a command's result stamped
    /// with the task's identity, the success of a transfer recording what
    /// moved, or the error unchanged. Inside composite tasks, processing
    /// goes on to the next service call in processing order, after the
    /// remaining sub-tasks of the innermost composite task are dropped when
    /// the call failed and that task stops on error; when no call is left,
    /// it ends with the result of the outermost composite task, never with
    /// an error; in particular, when the call was the last sub-task of the
    /// outermost composite task, that task finishes with its sub-results,
    /// the call's outcome recorded last. A resolved secret lets a transfer go
    /// on; any other further service call leaves fewer task-tree nodes to
    /// process than there were. The new state and action are reached from
    /// the outcome by a run of the internal steps (`is_run`).
    pub fn resume_with(&mut self, outcome: ServiceOutcome) -> (a: ProcessorAction)
        requires
            old(self).wf(),
            old(self).child_in_flight(),
            old(self).awaits(outcome),
        ensures
            final(self).expects(a),
            old(self).frames@.len() == 0 ==> match (old(self).waiting, outcome) {
                (Some(Leaf::Command { task_id, correlation_id }), ServiceOutcome::Command(Ok(r))) =>
                    a == ProcessorAction::Finished(Ok(TaskResult { task_id, correlation_id, ..r })),
                (Some(Leaf::Transfer { task_id, correlation_id, started_at, source, destination }),
                    ServiceOutcome::Transfer(Ok(n))) =>
                    a matches ProcessorAction::Finished(Ok(r)) && {
                        &&& r.data == Some(ResultData::Transfer { bytes_transferred: n, source, destination })
                        &&& is_success_result(TaskResult { data: None, ..r }, task_id, correlation_id, started_at)
                    },
                (Some(Leaf::Watch { task_id, correlation_id, started_at }), ServiceOutcome::Watch(Ok(_))) =>
                    a matches ProcessorAction::Finished(Ok(r)) && is_success_result(r, task_id, correlation_id, started_at),
                (Some(Leaf::Secret { .. }), ServiceOutcome::Secret(Ok(_))) => true,
                (_, ServiceOutcome::Command(Err(e))) => a == ProcessorAction::Finished(Err(e)),
                (_, ServiceOutcome::Transfer(Err(e))) => a == ProcessorAction::Finished(Err(e)),
                (_, ServiceOutcome::Secret(Err(e))) => a == ProcessorAction::Finished(Err(e)),
                (_, ServiceOutcome::Watch(Err(e))) => a == ProcessorAction::Finished(Err(e)),
                _ => false,
            },
            resume_emits(old(self).waiting, outcome) matches Some(x) ==> {
                &&& a == x
                &&& final(self).frames == old(self).frames
                &&& final(self).waiting == Some(secret_resolved(old(self).waiting->0, outcome->Secret_0->Ok_0).0)
            },
            resume_emits(old(self).waiting, outcome) is None && old(self).frames@.len() > 0 ==> {
                let fs = old(self).frames@;
                let rest = if outcome_failed(outcome) && fs.last().stop_on_error { fs.drop_last() } else { fs };
                &&& !(a matches ProcessorAction::Finished(Err(_)))
                &&& match first_call_frames(rest) {
                    Some(x) => a == x,
                    None => a matches ProcessorAction::Finished(Ok(r))
                        && r.task_id == fs[0].task_id && r.correlation_id == fs[0].correlation_id,
                }
            },
            old(self).frames@.len() > 0 && !(a is Finished) ==> {
                &&& final(self).frames@.len() > 0
                &&& final(self).frames@[0].task_id == old(self).frames@[0].task_id
                &&& final(self).frames@[0].correlation_id == old(self).frames@[0].correlation_id
            },
            old(self).frames@.len() == 0 ==> final(self).frames@.len() == 0,
            resume_emits(old(self).waiting, outcome) is None && !(a is Finished)
                ==> frames_size(final(self).frames@) < frames_size(old(self).frames@),
            old(self).frames@.len() == 1 && outcome_failed(outcome) && old(self).top().stop_on_error ==> {
                let f = old(self).top();
                a matches ProcessorAction::Finished(Ok(r)) && is_failed_result(r, f.task_id, f.correlation_id,
                    f.started_at, step_failure_message((f.started - 1) as nat, outcome_error(outcome)@))
            },
            old(self).frames@.len() == 1 && old(self).top().remaining@.len() == 0
                && resume_emits(old(self).waiting, outcome) is None
                && !(outcome_failed(outcome) && old(self).top().stop_on_error) ==> {
                let f = old(self).top();
                a matches ProcessorAction::Finished(Ok(r)) && r.data matches Some(ResultData::SubResults(v)) && {
                    &&& v@.len() == f.results@.len() + 1
                    &&& v@.drop_last() == f.results@
                    &&& if all_succeeded(v@) {
                        is_success_result(TaskResult { data: None, ..r }, f.task_id, f.correlation_id, f.started_at)
                    } else {
                        is_failed_result(TaskResult { data: None, ..r }, f.task_id, f.correlation_id,
                            f.started_at, some_failed_message())
                    }
                    &&& outcome_failed(outcome) ==> is_failed_result(v@.last(), f.task_id, f.correlation_id,
                        f.started_at, outcome_error(outcome)@)
                    &&& (old(self).waiting matches Some(Leaf::Command { task_id, correlation_id })
                        ==> (outcome matches ServiceOutcome::Command(Ok(r0))
                        ==> v@.last() == TaskResult { task_id, correlation_id, ..r0 }))
                }
            },
            exists|tr: Seq<(TaskRun, Work)>| #![trigger is_run(tr)] {
                &&& is_run(tr)
                &&& resume_post(*old(self), outcome, tr[0].0, tr[0].1)
                &&& tr.last() == (*final(self), Work::Emit(a))
            },
    {
        let ghost fs = self.frames@;
        let w = self.resume(outcome);
        let ghost s1 = *self;
        let ghost w1 = w;
        let w = match w {
            Work::Complete(o) => {
                let ghost oo = o;
                let r = self.complete(o);
                proof {
                    assert(complete_post(s1, oo, *self, r));
                }
                r
            },
            other => other,
        };
        let ghost s2 = *self;
        let ghost w2 = w;
        proof {
            if fs.len() > 0 {
                assert(fs =~= fs.drop_last().push(fs.last()));
                lemma_first_call_frames_push(fs.drop_last(), fs.last());
                lemma_frames_size_push(fs.drop_last(), fs.last());
                if self.frames@.len() == fs.len() {
                    assert(self.frames@ =~= fs.drop_last().push(self.top()));
                    lemma_first_call_frames_push(fs.drop_last(), self.top());
                    lemma_frames_size_push(fs.drop_last(), self.top());
                    if fs.len() == 1 {
                        assert(self.frames@[0] == self.top());
                        assert(fs[0] == fs.last());
                    } else {
                        assert(self.frames@[0] == fs[0]);
                    }
                } else if self.frames@.len() > 0 {
                    assert(self.frames@[0] == fs[0]);
                } else {
                    assert(fs[0] == fs.last());
                }
            }
        }
        proof {
            if fs.len() == 1 && s2.frames@.len() == 1 && w2 is Advance {
                assert(s2.frames@.last().results@.drop_last() =~= fs.last().results@);
            }
        }
        let a = self.settle(w);
        proof {
            let tr2 = choose|tr: Seq<(TaskRun, Work)>| #![trigger is_run(tr)]
                is_run(tr) && tr[0] == (s2, w2) && tr.last() == (*self, Work::Emit(a));
            if w1 is Complete {
                assert(step(s1, w1, s2, w2));
                lemma_run_prepend(s1, w1, tr2);
                assert(is_run(seq![(s1, w1)] + tr2));
            } else {
                assert(s1 == s2 && w1 == w2);
                assert(is_run(tr2));
            }
        }
        a
    }
}

/// The error a failed service call reported.
pub open spec fn outcome_error(outcome: ServiceOutcome) -> String {
    match outcome {
        ServiceOutcome::Command(Err(e)) => e,
        ServiceOutcome::Transfer(Err(e)) => e,
        ServiceOutcome::Secret(Err(e)) => e,
        ServiceOutcome::Watch(Err(e)) => e,
        _ => arbitrary(),
    }
}

/// The service call failed.
pub open spec fn outcome_failed(outcome: ServiceOutcome) -> bool {
    ||| outcome matches ServiceOutcome::Command(Err(_))
    ||| outcome matches ServiceOutcome::Transfer(Err(_))
    ||| outcome matches ServiceOutcome::Secret(Err(_))
    ||| outcome matches ServiceOutcome::Watch(Err(_))
}

/// A resolved source secret goes into the transfer: when an SFTP or FTP
/// source's secret reference resolves to `v` and the destination (a local
/// path, an S3 object or an Azure blob) needs no secret, the transfer is
/// handed out at once with the source's key (or password) replaced by `v`,
/// every other field of both locations and the options unchanged.
pub proof fn lemma_resolved_source_secret_is_used(s: TaskRun, v: String, s2: TaskRun, w: Work)
    requires
        s.waiting matches Some(Leaf::Secret { for_source, destination, .. })
            && for_source
            && (destination is Local || destination is S3 || destination is AzureBlob),
        resume_post(s, ServiceOutcome::Secret(Ok(v)), s2, w),
    ensures
        match s.waiting->0 {
            Leaf::Secret { source, destination, options, .. } => match source {
                FileLocation::Sftp { host, port, path, username, .. } => {
                    let run = ProcessorAction::RunTransfer {
                        source: FileLocation::Sftp { host, port, path, username, key_secret: v },
                        destination,
                        options,
                    };
                    &&& w == Work::Emit(run)
                    &&& resume_emits(s.waiting, ServiceOutcome::Secret(Ok(v))) == Some(run)
                },
                FileLocation::Ftp { host, port, path, username, .. } => {
                    let run = ProcessorAction::RunTransfer {
                        source: FileLocation::Ftp { host, port, path, username, password_secret: v },
                        destination,
                        options,
                    };
                    &&& w == Work::Emit(run)
                    &&& resume_emits(s.waiting, ServiceOutcome::Secret(Ok(v))) == Some(run)
                },
                _ => true,
            },
            _ => true,
        },
{
}

/// A transfer between two SFTP servers resolves both keys in turn: the
/// first answer `v1` is the source's key, after which the destination's
/// reference is asked for; the second answer `v2` is the destination's
/// key, and the transfer runs with `v1` as the source's key and `v2` as the
/// destination's, every other field unchanged.
pub proof fn lemma_both_secrets_are_used(
    s: TaskRun,
    v1: String,
    s1: TaskRun,
    w1: Work,
    v2: String,
    s2: TaskRun,
    w2: Work,
)
    requires
        s.waiting matches Some(Leaf::Secret { for_source, source, destination, .. })
            && for_source && source is Sftp && destination is Sftp,
        resume_post(s, ServiceOutcome::Secret(Ok(v1)), s1, w1),
        resume_post(s1, ServiceOutcome::Secret(Ok(v2)), s2, w2),
    ensures
        match s.waiting->0 {
            Leaf::Secret { source, destination, options, .. } => match (source, destination) {
                (FileLocation::Sftp { host, port, path, username, .. },
                    FileLocation::Sftp { host: dh, port: dp, path: dpath, username: du, key_secret: dk }) => {
                    &&& w1 == Work::Emit(ProcessorAction::ResolveSecret { key: dk })
                    &&& w2 == Work::Emit(ProcessorAction::RunTransfer {
                        source: FileLocation::Sftp { host, port, path, username, key_secret: v1 },
                        destination: FileLocation::Sftp { host: dh, port: dp, path: dpath, username: du, key_secret: v2 },
                        options,
                    })
                },
                _ => true,
            },
            _ => true,
        },
{
}

/// Entering a transfer asks first for the secret its source refers to (an
/// SFTP key or FTP password), then for the destination's; a transfer whose
/// locations refer to no secret is handed out at once, exactly as the task
/// states it.
pub proof fn lemma_transfer_secrets_come_first(s: TaskRun, task: Task, now: i64, s2: TaskRun, w: Work)
    requires
        task.task_type is FileTransfer,
        enter_post(s, task, now, s2, w),
    ensures
        match task.task_type {
            TaskType::FileTransfer { source, destination, options } => match source {
                FileLocation::Sftp { key_secret, .. } => w == Work::Emit(ProcessorAction::ResolveSecret { key: key_secret }),
                FileLocation::Ftp { password_secret, .. } =>
                    w == Work::Emit(ProcessorAction::ResolveSecret { key: password_secret }),
                _ => match destination {
                    FileLocation::Sftp { key_secret, .. } =>
                        w == Work::Emit(ProcessorAction::ResolveSecret { key: key_secret }),
                    FileLocation::Ftp { password_secret, .. } =>
                        w == Work::Emit(ProcessorAction::ResolveSecret { key: password_secret }),
                    _ => w == Work::Emit(ProcessorAction::RunTransfer { source, destination, options }),
                },
            },
            _ => true,
        },
{
}

} // verus!
