//! Decisions of the worker around each task: where results go once a task
//! is processed, whether a failed task is sent back for a retry, and how
//! the health probes are reported.
use vstd::prelude::*;
use crate::logging::LogLevel;
use crate::task::Task;

verus! {

/// What the worker does with a processed task.
#[derive(Debug)]
pub enum Completion {
    /// Processing succeeded: post the result to the callback URL if any,
    /// send it to the result queue if any, then acknowledge the task.
    Deliver { callback_url: Option<String>, result_queue: Option<String> },
    /// Processing failed and the task has retries left: reject its
    /// delivery without requeueing it and send `task`, with one more
    /// retry counted, back to the task queue.
    Retry { task: Task },
    /// Processing failed and no retry is left: reject the delivery without
    /// requeueing it.
    Reject,
}

/// The queue a successful result goes to: the task's own, else the default
/// one unless it is empty.
pub open spec fn result_destination(task_queue: Option<String>, default_queue: String) -> Option<String> {
    match task_queue {
        Some(q) => Some(q),
        None => if default_queue@.len() > 0 { Some(default_queue) } else { None },
    }
}

/// Decides what to do with `task` once processed: `succeeded` tells
/// whether processing returned a result.
pub fn plan_completion(task: Task, succeeded: bool, default_result_queue: &String) -> (c: Completion)
    ensures
        succeeded ==> c == (Completion::Deliver {
            callback_url: task.callback_url,
            result_queue: result_destination(task.result_queue, *default_result_queue),
        }),
        !succeeded && task.retry_count < task.max_retries ==> c == (Completion::Retry { task: retried(task) }),
        !succeeded && task.retry_count >= task.max_retries ==> c == Completion::Reject,
{
    if succeeded {
        let result_queue = match &task.result_queue {
            Some(q) => Some(q.clone()),
            None => {
                if default_result_queue.as_str().unicode_len() > 0 {
                    Some(default_result_queue.clone())
                } else {
                    None
                }
            },
        };
        Completion::Deliver { callback_url: task.callback_url, result_queue }
    } else if task.can_retry() {
        let mut t = task;
        t.increment_retry();
        Completion::Retry { task: t }
    } else {
        Completion::Reject
    }
}

/// `t` with one more retry counted.
pub open spec fn retried(t: Task) -> Task {
    Task { retry_count: (t.retry_count + 1) as u32, ..t }
}

/// How many times a task is processed when its processing always fails:
/// once, and once more for each retry `plan_completion` grants (it grants
/// one, counting it, while the task has retries left).
pub open spec fn failing_runs(t: Task) -> nat
    decreases t.max_retries - t.retry_count,
{
    if t.retry_count < t.max_retries {
        1 + failing_runs(retried(t))
    } else {
        1
    }
}

/// Retries are bounded: a task whose processing always fails is sent back
/// exactly as many times as it has retries left, so it is processed at
/// most `max_retries + 1` times.
pub proof fn lemma_retries_bounded(t: Task)
    ensures
        failing_runs(t) == (if t.retry_count < t.max_retries { t.max_retries - t.retry_count + 1 } else { 1 }),
        failing_runs(t) <= t.max_retries + 1,
    decreases t.max_retries - t.retry_count,
{
    if t.retry_count < t.max_retries {
        lemma_retries_bounded(retried(t));
    }
}

/// Whether a probe's outcome reports a healthy service.
pub open spec fn probe_healthy(outcome: Result<bool, String>) -> bool {
    outcome == Ok::<bool, String>(true)
}

/// The level and message a round of health probes is logged with: the
/// queue's probe and, when a secret store is configured, the store's.
pub fn health_report(queue: &Result<bool, String>, secrets: &Option<Result<bool, String>>) -> (r: (LogLevel, String))
    ensures
        ({
            let healthy = probe_healthy(*queue) && match *secrets {
                Some(o) => probe_healthy(o),
                None => true,
            };
            &&& healthy ==> r.0 == LogLevel::Debug && r.1@ == "Health check passed"@
            &&& !healthy ==> r.0 == LogLevel::Warn && r.1@ == "Health check failed"@
        }),
{
    let queue_ok = match queue {
        Ok(true) => true,
        _ => false,
    };
    let secrets_ok = match secrets {
        Some(Ok(true)) => true,
        Some(_) => false,
        None => true,
    };
    if queue_ok && secrets_ok {
        (LogLevel::Debug, String::from_str("Health check passed"))
    } else {
        (LogLevel::Warn, String::from_str("Health check failed"))
    }
}

/// A task sent back for a retry is the processed task itself with one more
/// retry counted: the same identifier, type, correlation identifier,
/// callback URL, result queue, limits, times and metadata. (`plan_completion`
/// sends back `retried(t)` for a failed task `t` with retries left.)
pub proof fn lemma_retry_keeps_the_task(t: Task)
    requires
        t.retry_count < t.max_retries,
    ensures
        ({
            let r = retried(t);
            &&& r.id == t.id
            &&& r.correlation_id == t.correlation_id
            &&& r.task_type == t.task_type
            &&& r.priority == t.priority
            &&& r.max_retries == t.max_retries
            &&& r.retry_count == t.retry_count + 1
            &&& r.callback_url == t.callback_url
            &&& r.result_queue == t.result_queue
            &&& r.created_at == t.created_at
            &&& r.scheduled_at == t.scheduled_at
            &&& r.timeout_secs == t.timeout_secs
            &&& r.metadata == t.metadata
        }),
{
}

} // verus!
