//! Configuration of the worker agent.
use vstd::prelude::*;
use crate::trusted::random_id_text;

verus! {

/// Configuration for the worker agent.
#[derive(Debug, Clone)]
pub struct WorkerConfig {
    /// Worker identification.
    pub worker_id: String,
    /// Application information.
    pub app: AppConfig,
    /// Queue configuration.
    pub queue: QueueConfig,
    /// Secret management configuration.
    pub secrets: SecretsConfig,
    /// Logging configuration.
    pub logging: LoggingConfig,
    /// Worker behavior configuration.
    pub worker: WorkerBehaviorConfig,
}

/// Application configuration.
#[derive(Debug, Clone)]
pub struct AppConfig {
    pub id: String,
    pub version: String,
    pub address: Option<String>,
    pub geo_location: Option<String>,
}

/// Queue configuration.
#[derive(Debug, Clone)]
pub enum QueueConfig {
    Redis { url: String, task_queue: String, result_queue: String, max_connections: Option<u32> },
    RabbitMq {
        url: String,
        task_queue: String,
        result_queue: String,
        exchange: Option<String>,
        prefetch_count: Option<u16>,
    },
}

/// Secret management configuration.
#[derive(Debug, Clone)]
pub enum SecretsConfig {
    HashiCorpVault { url: String, token: Option<String>, namespace: Option<String>, mount_path: String },
    AwsSecretsManager { region: String, prefix: Option<String> },
    AzureKeyVault { vault_url: String, tenant_id: String, client_id: String, client_secret: Option<String> },
    /// No secret store.
    Disabled,
}

/// Logging configuration.
#[derive(Debug, Clone)]
pub struct LoggingConfig {
    /// Log level: debug, info, warn, error.
    pub level: String,
    /// Log format: json, text.
    pub format: String,
    /// Service identification.
    pub service_id: String,
    pub service_version: String,
    pub service_pod_name: Option<String>,
}

/// Worker behavior configuration.
#[derive(Debug, Clone)]
pub struct WorkerBehaviorConfig {
    /// Number of concurrent tasks to process.
    pub concurrency: usize,
    /// Timeout for receiving tasks from queue (seconds).
    pub receive_timeout_secs: u64,
    /// Maximum task execution time (seconds).
    pub max_task_timeout_secs: u64,
    /// Graceful shutdown timeout (seconds).
    pub shutdown_timeout_secs: u64,
    /// Health check interval (seconds).
    pub health_check_interval_secs: u64,
}

/// The version of this package.
pub open spec fn package_version() -> Seq<char> {
    "0.1.0"@
}

/// The version of this package, as text.
pub fn package_version_text() -> (s: String)
    ensures
        s@ == package_version(),
{
    String::from_str("0.1.0")
}

impl WorkerBehaviorConfig {
    /// The timeout a task runs with, in seconds: its own timeout capped at
    /// the maximum task timeout, or the maximum when it has none.
    pub fn task_timeout(&self, requested: Option<u64>) -> (t: u64)
        ensures
            t == match requested {
                Some(r) => if r < self.max_task_timeout_secs { r } else { self.max_task_timeout_secs },
                None => self.max_task_timeout_secs,
            },
    {
        match requested {
            Some(r) => if r < self.max_task_timeout_secs { r } else { self.max_task_timeout_secs },
            None => self.max_task_timeout_secs,
        }
    }
}

impl QueueConfig {
    /// The queue tasks are received from.
    pub fn task_queue_name(&self) -> (s: String)
        ensures
            s == match *self {
                QueueConfig::Redis { task_queue, .. } => task_queue,
                QueueConfig::RabbitMq { task_queue, .. } => task_queue,
            },
    {
        match self {
            QueueConfig::Redis { task_queue, .. } => task_queue.clone(),
            QueueConfig::RabbitMq { task_queue, .. } => task_queue.clone(),
        }
    }

    /// The queue results are sent to by default.
    pub fn result_queue_name(&self) -> (s: String)
        ensures
            s == match *self {
                QueueConfig::Redis { result_queue, .. } => result_queue,
                QueueConfig::RabbitMq { result_queue, .. } => result_queue,
            },
    {
        match self {
            QueueConfig::Redis { result_queue, .. } => result_queue.clone(),
            QueueConfig::RabbitMq { result_queue, .. } => result_queue.clone(),
        }
    }
}

impl Default for WorkerConfig {
    /// A random worker identifier; application `ironflow-rs` at this
    /// package's version; a local Redis queue `ironflow:tasks` /
    /// `ironflow:results` with 10 connections; no secret store; JSON logging
    /// at `info` for service `ironflow-worker`; 4 concurrent tasks, 30 s
    /// receive timeout, 3600 s task timeout, 30 s shutdown timeout and a
    /// health check every 60 s.
    fn default() -> (c: Self)
        ensures
            c.app.id@ == "ironflow-rs"@,
            c.app.version@ == package_version(),
            c.app.address is None,
            c.app.geo_location is None,
            c.queue matches QueueConfig::Redis { url, task_queue, result_queue, max_connections } && {
                &&& url@ == "redis://localhost:6379"@
                &&& task_queue@ == "ironflow:tasks"@
                &&& result_queue@ == "ironflow:results"@
                &&& max_connections == Some(10u32)
            },
            c.secrets is Disabled,
            c.logging.level@ == "info"@,
            c.logging.format@ == "json"@,
            c.logging.service_id@ == "ironflow-worker"@,
            c.logging.service_version@ == package_version(),
            c.logging.service_pod_name is None,
            c.worker.concurrency == 4,
            c.worker.receive_timeout_secs == 30,
            c.worker.max_task_timeout_secs == 3600,
            c.worker.shutdown_timeout_secs == 30,
            c.worker.health_check_interval_secs == 60,
    {
        WorkerConfig {
            worker_id: random_id_text(),
            app: AppConfig {
                id: String::from_str("ironflow-rs"),
                version: package_version_text(),
                address: None,
                geo_location: None,
            },
            queue: QueueConfig::Redis {
                url: String::from_str("redis://localhost:6379"),
                task_queue: String::from_str("ironflow:tasks"),
                result_queue: String::from_str("ironflow:results"),
                max_connections: Some(10),
            },
            secrets: SecretsConfig::Disabled,
            logging: LoggingConfig {
                level: String::from_str("info"),
                format: String::from_str("json"),
                service_id: String::from_str("ironflow-worker"),
                service_version: package_version_text(),
                service_pod_name: None,
            },
            worker: WorkerBehaviorConfig {
                concurrency: 4,
                receive_timeout_secs: 30,
                max_task_timeout_secs: 3600,
                shutdown_timeout_secs: 30,
                health_check_interval_secs: 60,
            },
        }
    }
}

} // verus!
