use ironflow_rs::config::{QueueConfig, SecretsConfig, WorkerConfig};
use ironflow_rs::file_event::{FileEvent, FileEventKind};
use ironflow_rs::task::{FileLocation, Task, TaskType, TransferOptions};
use ironflow_rs::task_result::{ResultData, TaskResult, TaskStatus};

fn echo_task(command: &str, args: Vec<String>) -> TaskType {
    TaskType::ExecuteCommand { command: command.to_string(), args, working_dir: None, env_vars: None }
}

#[test]
fn test_task_creation() {
    let task = Task::new(echo_task("echo", vec!["hello".to_string()]));

    assert_eq!(task.priority, 0);
    assert_eq!(task.max_retries, 3);
    assert_eq!(task.retry_count, 0);
    assert!(task.can_retry());
}

#[test]
fn test_task_retry_logic() {
    let mut task = Task::new(echo_task("test", vec![]));

    task.max_retries = 2;
    assert!(task.can_retry());

    task.increment_retry();
    assert!(task.can_retry());

    task.increment_retry();
    assert!(!task.can_retry());
}

#[test]
fn test_task_with_correlation_id() {
    let task = Task::new(echo_task("test", vec![])).with_correlation_id("test-correlation-id".to_string());

    assert_eq!(task.correlation_id, Some("test-correlation-id".to_string()));
}

#[test]
fn task_builders_set_only_their_field() {
    let task = Task::new(echo_task("ls", vec![]))
        .with_callback_url("http://cb".to_string())
        .with_result_queue("results".to_string());
    assert_eq!(task.callback_url, Some("http://cb".to_string()));
    assert_eq!(task.result_queue, Some("results".to_string()));
    assert_eq!(task.correlation_id, None);
    assert!(task.created_at > 0);
    assert!(task.metadata.is_empty());
}

#[test]
fn task_retries_are_used_up_one_by_one() {
    let mut task = Task::new(echo_task("ls", vec![]));
    assert_eq!(task.max_retries, 3);
    for used in 0..3u32 {
        assert_eq!(task.retry_count, used);
        assert!(task.can_retry());
        task.increment_retry();
    }
    assert_eq!(task.retry_count, 3);
    assert!(!task.can_retry());
}

#[test]
fn transfer_options_default() {
    let o = TransferOptions::default();
    assert!(!o.overwrite);
    assert!(o.create_dirs);
    assert!(o.preserve_metadata);
    assert_eq!(o.chunk_size, None);
}

#[test]
fn task_type_clone_is_equal() {
    let t = TaskType::Composite {
        tasks: vec![
            Box::new(echo_task("a", vec!["x".to_string()])),
            Box::new(TaskType::Composite { tasks: vec![Box::new(echo_task("b", vec![]))], stop_on_error: true }),
        ],
        stop_on_error: false,
    };
    assert_eq!(t.clone(), t);
    let l = FileLocation::Sftp {
        host: "h".to_string(),
        port: 22,
        path: "/p".to_string(),
        username: "u".to_string(),
        key_secret: "k".to_string(),
    };
    assert_eq!(l.duplicate(), l);
}

#[test]
fn test_task_result_success() {
    let task_id = uuid::Uuid::new_v4().as_u128();
    let started_at = chrono::Utc::now().timestamp_millis();
    let result = TaskResult::new_success(task_id, None, started_at);

    assert_eq!(result.task_id, task_id);
    assert_eq!(result.status, TaskStatus::Success);
    assert!(result.is_success());
    assert!(!result.is_failed());
    assert_eq!(result.exit_code, Some(0));
}

#[test]
fn test_task_result_failed() {
    let task_id = uuid::Uuid::new_v4().as_u128();
    let started_at = chrono::Utc::now().timestamp_millis();
    let result = TaskResult::new_failed(task_id, None, started_at, "Test error".to_string());

    assert_eq!(result.task_id, task_id);
    assert_eq!(result.status, TaskStatus::Failed);
    assert!(!result.is_success());
    assert!(result.is_failed());
    assert_eq!(result.error_message, Some("Test error".to_string()));
}

#[test]
fn test_task_result_with_outputs() {
    let task_id = uuid::Uuid::new_v4().as_u128();
    let result = TaskResult::new_pending(task_id, None)
        .with_stdout("output".to_string())
        .with_stderr("error".to_string())
        .with_exit_code(1);

    assert_eq!(result.stdout, Some("output".to_string()));
    assert_eq!(result.stderr, Some("error".to_string()));
    assert_eq!(result.exit_code, Some(1));
}

#[test]
fn completed_results_measure_their_duration() {
    let started_at = chrono::Utc::now().timestamp_millis() - 1500;
    let r = TaskResult::new_success(7, Some("c".to_string()), started_at);
    let completed = r.completed_at.unwrap();
    assert_eq!(r.duration_ms, Some((completed - started_at) as u64));
    assert!(r.duration_ms.unwrap() >= 1500);
    assert_eq!(r.correlation_id, Some("c".to_string()));
    assert_eq!(TaskResult::elapsed_between(1_000, 3_500), 2_500);
    assert_eq!(TaskResult::elapsed_between(3_500, 1_000), (-2_500i64) as u64);
}

#[test]
fn open_results_have_no_completion() {
    let r = TaskResult::new_running(5, None);
    assert_eq!(r.status, TaskStatus::Running);
    assert_eq!(r.completed_at, None);
    assert_eq!(r.duration_ms, None);
    assert!(!r.is_success());
    assert!(!r.is_failed());
    let p = TaskResult::new_pending(5, None);
    assert_eq!(p.status, TaskStatus::Pending);
}

#[test]
fn failure_statuses() {
    let mut r = TaskResult::new_pending(1, None);
    for (status, failed) in [
        (TaskStatus::Pending, false),
        (TaskStatus::Running, false),
        (TaskStatus::Success, false),
        (TaskStatus::Failed, true),
        (TaskStatus::Timeout, true),
        (TaskStatus::Cancelled, true),
    ] {
        r.status = status;
        assert_eq!(r.is_failed(), failed);
        assert_eq!(r.is_success(), status == TaskStatus::Success);
    }
}

#[test]
fn with_data_attaches_json() {
    let r = TaskResult::new_pending(1, None).with_data(serde_json::Value::String("payload".to_string()));
    match r.data {
        Some(ResultData::Json(v)) => assert_eq!(v, serde_json::Value::String("payload".to_string())),
        _ => panic!("expected json data"),
    }
}

#[test]
fn test_file_event_creation() {
    let path = "/test/file.txt".to_string();
    let event = FileEvent::new(FileEventKind::Created, path.clone());

    assert_eq!(event.kind, FileEventKind::Created);
    assert_eq!(event.path, path);
    assert_eq!(event.old_path, None);
    assert!(!event.is_directory);
}

#[test]
fn test_file_event_with_metadata() {
    let path = "/test/file.txt".to_string();
    let event = FileEvent::new(FileEventKind::Modified, path.clone()).with_file_size(1024).with_is_directory(false);

    assert_eq!(event.file_size, Some(1024));
    assert!(!event.is_directory);
}

#[test]
fn test_file_event_rename() {
    let old_path = "/test/old.txt".to_string();
    let new_path = "/test/new.txt".to_string();
    let event = FileEvent::new(FileEventKind::Renamed, new_path.clone()).with_old_path(old_path.clone());

    assert_eq!(event.kind, FileEventKind::Renamed);
    assert_eq!(event.path, new_path);
    assert_eq!(event.old_path, Some(old_path));
}

#[test]
fn test_default_config() {
    let config = WorkerConfig::default();
    assert_eq!(config.app.id, "ironflow-rs");
    assert_eq!(config.worker.concurrency, 4);
}

#[test]
fn default_config_in_full() {
    let config = WorkerConfig::default();
    assert_eq!(config.worker_id.len(), 36);
    assert_eq!(config.app.version, "0.1.0");
    match &config.queue {
        QueueConfig::Redis { url, task_queue, result_queue, max_connections } => {
            assert_eq!(url, "redis://localhost:6379");
            assert_eq!(task_queue, "ironflow:tasks");
            assert_eq!(result_queue, "ironflow:results");
            assert_eq!(*max_connections, Some(10));
        }
        _ => panic!("expected a Redis queue"),
    }
    assert!(matches!(config.secrets, SecretsConfig::Disabled));
    assert_eq!(config.logging.level, "info");
    assert_eq!(config.logging.format, "json");
    assert_eq!(config.logging.service_id, "ironflow-worker");
    assert_eq!(config.worker.receive_timeout_secs, 30);
    assert_eq!(config.worker.max_task_timeout_secs, 3600);
    assert_eq!(config.worker.shutdown_timeout_secs, 30);
    assert_eq!(config.worker.health_check_interval_secs, 60);
    assert_ne!(WorkerConfig::default().worker_id, config.worker_id);
}

#[test]
fn queue_names_follow_the_backend() {
    let redis = QueueConfig::Redis {
        url: "redis://x".to_string(),
        task_queue: "t1".to_string(),
        result_queue: "r1".to_string(),
        max_connections: None,
    };
    assert_eq!(redis.task_queue_name(), "t1");
    assert_eq!(redis.result_queue_name(), "r1");
    let rabbit = QueueConfig::RabbitMq {
        url: "amqp://x".to_string(),
        task_queue: "t2".to_string(),
        result_queue: "r2".to_string(),
        exchange: None,
        prefetch_count: Some(10),
    };
    assert_eq!(rabbit.task_queue_name(), "t2");
    assert_eq!(rabbit.result_queue_name(), "r2");
}
