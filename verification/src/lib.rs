//! Verified core of the IronFlow worker agent: tasks, results, the task
//! processing state machine, and the decisions the worker takes around them.
pub mod text;
pub mod trusted;
pub mod task;
pub mod task_result;
pub mod processor;
pub mod file_event;
pub mod watcher;
pub mod config;
pub mod logging;
pub mod executor;
pub mod transfer;
pub mod secrets;
pub mod queues;
pub mod worker;
