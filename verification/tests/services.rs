use ironflow_rs::executor::{DefaultCommandExecutor, PollDecision};
use ironflow_rs::logging::{LogBuilder, LogLevel, LogType, StdAppLog};
use ironflow_rs::queues::{ping_reply_is_healthy, PendingAcks};
use ironflow_rs::secrets::{
    build_secret_name, parse_key_path, require_secret_store, secret_from_lookup, secret_store_plan,
    secret_string_or_error, record_secret, AzureSecretRepository, SecretStorePlan,
};
use ironflow_rs::config::{SecretsConfig, WorkerConfig};
use ironflow_rs::task::{FileLocation, Task, TaskType, TransferOptions};
use ironflow_rs::task_result::TaskStatus;
use ironflow_rs::text::{ends_with, i64_to_decimal, join, replace_char, rfind_char, u64_to_decimal};
use ironflow_rs::transfer::{creatable_parent, OpenDalFileTransferService, OperatorConfig};
use ironflow_rs::watcher::{
    classify_notification, glob_to_regex, match_from_search, matches_patterns, observed_event, NotificationKind,
    WatcherHandle,
};
use ironflow_rs::file_event::FileEventKind;
use ironflow_rs::worker::{health_report, plan_completion, Completion};

#[test]
fn test_log_creation() {
    let log = StdAppLog::new(LogLevel::Info, "Test message".to_string());
    assert_eq!(log.level, LogLevel::Info);
    assert_eq!(log.message, "Test message");
    assert_eq!(log.log_type, LogType::AppLog);
}

#[test]
fn test_log_with_correlation_id() {
    let log = StdAppLog::new(LogLevel::Info, "Test".to_string()).with_correlation_id("test-id".to_string());
    assert_eq!(log.correlation_id, Some("test-id".to_string()));
}

#[test]
fn test_log_builder() {
    let builder = LogBuilder::new().with_app_id("test-app".to_string()).with_service_id("test-service".to_string());

    let log = builder.build(LogLevel::Info, "Test message".to_string());
    assert_eq!(log.app_id, Some("test-app".to_string()));
    assert_eq!(log.service_id, Some("test-service".to_string()));
}

#[test]
fn log_builder_copies_its_whole_context() {
    let builder = LogBuilder::default()
        .with_app_id("a".to_string())
        .with_app_version("1.2".to_string())
        .with_service_id("s".to_string())
        .with_service_version("3.4".to_string());
    let log = builder
        .build(LogLevel::Warn, "m".to_string())
        .with_code_location("here".to_string())
        .with_execution_time(42);
    assert_eq!(log.app_version, Some("1.2".to_string()));
    assert_eq!(log.service_version, Some("3.4".to_string()));
    assert_eq!(log.app_address, None);
    assert_eq!(log.level, LogLevel::Warn);
    assert_eq!(log.code_location, Some("here".to_string()));
    assert_eq!(log.execution_time, Some(42));
    assert_eq!(log.correlation_id, None);
    assert!(log.event_date_time > 0);
}

#[test]
fn test_get_path() {
    let local = FileLocation::Local { path: "/tmp/test.txt".to_string() };
    assert_eq!(OpenDalFileTransferService::get_path(&local), "/tmp/test.txt");

    let s3 = FileLocation::S3 {
        bucket: "mybucket".to_string(),
        key: "path/to/file.txt".to_string(),
        region: "us-east-1".to_string(),
        endpoint: None,
    };
    assert_eq!(OpenDalFileTransferService::get_path(&s3), "path/to/file.txt");
}

#[test]
fn operator_configs() {
    let sftp = FileLocation::Sftp {
        host: "files.example".to_string(),
        port: 2222,
        path: "/in".to_string(),
        username: "bob".to_string(),
        key_secret: "k".to_string(),
    };
    assert_eq!(
        OpenDalFileTransferService::operator_config(&sftp),
        Ok(OperatorConfig::Sftp {
            endpoint: "files.example:2222".to_string(),
            user: "bob".to_string(),
            key: "k".to_string(),
        })
    );
    let ftp = FileLocation::Ftp {
        host: "h".to_string(),
        port: 21,
        path: "/p".to_string(),
        username: "u".to_string(),
        password_secret: "s".to_string(),
    };
    assert_eq!(
        OpenDalFileTransferService::operator_config(&ftp),
        Ok(OperatorConfig::Ftp { endpoint: "h:21".to_string(), user: "u".to_string(), password: "s".to_string() })
    );
    let local = FileLocation::Local { path: "/data".to_string() };
    assert_eq!(
        OpenDalFileTransferService::operator_config(&local),
        Ok(OperatorConfig::Fs { root: "/data".to_string() })
    );
    let blob = FileLocation::AzureBlob {
        account: "acct".to_string(),
        container: "c".to_string(),
        blob: "b".to_string(),
    };
    assert_eq!(
        OpenDalFileTransferService::operator_config(&blob),
        Ok(OperatorConfig::Azblob { account_name: "acct".to_string(), container: "c".to_string() })
    );
    assert_eq!(OpenDalFileTransferService::get_path(&blob), "b");
}

#[test]
fn transfer_plans() {
    let src = FileLocation::Local { path: "/a/src.txt".to_string() };
    let dst = FileLocation::Local { path: "/b/c/dest.txt".to_string() };
    let plan = OpenDalFileTransferService::plan_transfer(&src, &dst, &TransferOptions::default());
    assert_eq!(plan.source_path, "/a/src.txt");
    assert_eq!(plan.dest_path, "/b/c/dest.txt");
    assert!(plan.check_exists);
    assert_eq!(plan.create_dir, Some("/b/c".to_string()));
    assert_eq!(
        OpenDalFileTransferService::check_destination(&plan, true),
        Err("Destination file '/b/c/dest.txt' already exists".to_string())
    );
    assert_eq!(OpenDalFileTransferService::check_destination(&plan, false), Ok(()));

    let opts = TransferOptions { overwrite: true, create_dirs: true, preserve_metadata: false, chunk_size: None };
    let bare = FileLocation::Local { path: "dest.txt".to_string() };
    let plan = OpenDalFileTransferService::plan_transfer(&src, &bare, &opts);
    assert!(!plan.check_exists);
    assert_eq!(plan.create_dir, None);
    assert_eq!(OpenDalFileTransferService::check_destination(&plan, true), Ok(()));

    let opts = TransferOptions { overwrite: false, create_dirs: false, preserve_metadata: false, chunk_size: None };
    let plan = OpenDalFileTransferService::plan_transfer(&src, &dst, &opts);
    assert_eq!(plan.create_dir, None);
}

#[test]
fn test_matches_patterns() {
    let path = "/test/file.txt";

    assert!(matches_patterns(path, &[]));

    assert!(matches_patterns(path, &["*.txt".to_string()]));

    assert!(!matches_patterns(path, &["*.log".to_string()]));

    assert!(matches_patterns(path, &["file.txt".to_string()]));
}

#[test]
fn glob_patterns_become_regular_expressions() {
    assert_eq!(glob_to_regex("*.txt"), ".*\\.txt$");
    assert_eq!(glob_to_regex("a?.b*"), "a.\\.b.*$");
    assert!(!matches_patterns("/test/file.txt.bak", &["*.txt".to_string()]));
    assert!(matches_patterns("/test/file.txt", &["*.txt".to_string()]));
    assert!(matches_patterns("/x/report1.csv", &["*.log".to_string(), "report?.csv".to_string(), "*.csv".to_string()]));
    assert!(!matches_patterns("/x/data.txt", &["*.csv".to_string(), "other.txt".to_string()]));
    assert!(matches_patterns("/x/other.txt", &["*.csv".to_string(), "other.txt".to_string()]));
}

#[test]
fn search_answers_and_suffixes() {
    assert!(match_from_search("/x/a.txt", "*.txt", Some(true)));
    assert!(!match_from_search("/x/a.txt", "*.txt", Some(false)));
    assert!(match_from_search("/x/a.txt", "a.txt", None));
    assert!(!match_from_search("/x/a.txt", "b.txt", None));
}

#[test]
fn parents_worth_creating() {
    assert_eq!(creatable_parent(Some("/out".to_string())), Some("/out".to_string()));
    assert_eq!(creatable_parent(Some(String::new())), None);
    assert_eq!(creatable_parent(None), None);
}

#[test]
fn secret_batches_stop_at_the_first_error() {
    let found = record_secret(vec![], "a".to_string(), Ok("1".to_string())).unwrap();
    let found = record_secret(found, "b".to_string(), Ok("2".to_string())).unwrap();
    assert_eq!(found, vec![("a".to_string(), "1".to_string()), ("b".to_string(), "2".to_string())]);
    assert_eq!(record_secret(found, "c".to_string(), Err("missing".to_string())), Err("missing".to_string()));
}

#[test]
fn notifications_to_events() {
    assert_eq!(classify_notification(NotificationKind::Create), Some(FileEventKind::Created));
    assert_eq!(classify_notification(NotificationKind::Modify), Some(FileEventKind::Modified));
    assert_eq!(classify_notification(NotificationKind::Remove), Some(FileEventKind::Deleted));
    assert_eq!(classify_notification(NotificationKind::Access), None);
    assert_eq!(classify_notification(NotificationKind::Any), None);
    assert_eq!(classify_notification(NotificationKind::Other), None);
    let e = observed_event(FileEventKind::Created, "/d".to_string(), true, false, Some(4096));
    assert!(e.is_directory);
    assert_eq!(e.file_size, None);
    let e = observed_event(FileEventKind::Modified, "/f".to_string(), false, true, Some(99));
    assert_eq!(e.file_size, Some(99));
    let e = observed_event(FileEventKind::Deleted, "/gone".to_string(), false, false, None);
    assert_eq!(e.file_size, None);
    assert_eq!(WatcherHandle::new("w1".to_string()).id, "w1");
}

#[test]
fn test_parse_key_path() {
    let (path, key) = parse_key_path("app/database/password");
    assert_eq!(path, "app/database");
    assert_eq!(key, "password");

    let (path, key) = parse_key_path("simple_key");
    assert_eq!(path, "default");
    assert_eq!(key, "simple_key");
}

#[test]
fn key_path_roundtrip() {
    let (path, key) = parse_key_path("a/b/");
    assert_eq!(path, "a/b");
    assert_eq!(key, "");
    assert_eq!(format!("{}/{}", path, key), "a/b/");
}

#[test]
fn test_build_secret_name() {
    assert_eq!(build_secret_name(&Some("myapp".to_string()), "database/password"), "myapp/database/password");
    assert_eq!(build_secret_name(&None, "database/password"), "database/password");
}

#[test]
fn secret_answers() {
    assert_eq!(secret_from_lookup(Some("v".to_string()), "k", "p"), Ok("v".to_string()));
    assert_eq!(
        secret_from_lookup(None, "password", "app/db"),
        Err("Secret key 'password' not found in path 'app/db'".to_string())
    );
    assert_eq!(secret_string_or_error(Some("s".to_string()), "n"), Ok("s".to_string()));
    assert_eq!(secret_string_or_error(None, "myapp/key"), Err("Secret 'myapp/key' has no string value".to_string()));
    assert_eq!(require_secret_store(true), Ok(()));
    assert_eq!(require_secret_store(false), Err("Secret repository not configured".to_string()));
}

#[test]
fn test_azure_key_vault_connection() {
    let repo = AzureSecretRepository::new("https://test-vault.vault.azure.net", "tenant-id", "client-id", "client-secret");
    assert!(repo.is_ok());
}

#[test]
fn azure_operations_are_disabled() {
    let repo = AzureSecretRepository::new("u", "t", "c", "s").unwrap();
    let disabled = "Azure Key Vault support is currently disabled".to_string();
    assert_eq!(repo.get("k"), Err(disabled.clone()));
    assert_eq!(repo.set("k", "v"), Err(disabled.clone()));
    assert_eq!(repo.delete("k"), Err(disabled));
    assert_eq!(repo.healthy(), Ok(true));
}

#[test]
fn secret_store_plans() {
    let vault = SecretsConfig::HashiCorpVault {
        url: "http://v:8200".to_string(),
        token: Some("t".to_string()),
        namespace: None,
        mount_path: "secret".to_string(),
    };
    assert_eq!(
        secret_store_plan(&vault),
        Ok(Some(SecretStorePlan::Vault {
            url: "http://v:8200".to_string(),
            token: "t".to_string(),
            mount_path: "secret".to_string(),
        }))
    );
    let no_token = SecretsConfig::HashiCorpVault {
        url: "http://v:8200".to_string(),
        token: None,
        namespace: None,
        mount_path: "secret".to_string(),
    };
    assert_eq!(secret_store_plan(&no_token), Err("Vault token is required".to_string()));
    let aws = SecretsConfig::AwsSecretsManager { region: "us-east-1".to_string(), prefix: None };
    assert_eq!(
        secret_store_plan(&aws),
        Ok(Some(SecretStorePlan::Aws { region: "us-east-1".to_string(), prefix: None }))
    );
    let azure = SecretsConfig::AzureKeyVault {
        vault_url: "u".to_string(),
        tenant_id: "t".to_string(),
        client_id: "c".to_string(),
        client_secret: None,
    };
    assert_eq!(secret_store_plan(&azure), Err("Azure client secret is required".to_string()));
    assert_eq!(secret_store_plan(&SecretsConfig::Disabled), Ok(None));
}

#[test]
fn task_timeouts_are_capped() {
    let behavior = WorkerConfig::default().worker;
    assert_eq!(behavior.task_timeout(Some(10)), 10);
    assert_eq!(behavior.task_timeout(Some(7200)), 3600);
    assert_eq!(behavior.task_timeout(None), 3600);
}

#[test]
fn command_results() {
    let started = chrono::Utc::now().timestamp_millis();
    let ok = DefaultCommandExecutor::completed_result(9, started, "out".to_string(), "".to_string(), Some(0));
    assert!(ok.is_success());
    assert_eq!(ok.exit_code, Some(0));
    assert_eq!(ok.stdout, Some("out".to_string()));
    let bad = DefaultCommandExecutor::completed_result(9, started, "".to_string(), "err".to_string(), Some(2));
    assert!(bad.is_failed());
    assert_eq!(bad.error_message, Some("Command failed with exit code 2".to_string()));
    assert_eq!(bad.exit_code, Some(2));
    let killed = DefaultCommandExecutor::completed_result(9, started, "".to_string(), "".to_string(), None);
    assert_eq!(killed.exit_code, Some(-1));
    assert_eq!(killed.error_message, Some("Command failed with exit code -1".to_string()));
    let t = DefaultCommandExecutor::timeout_result(9, started, 1);
    assert!(t.is_failed());
    assert!(t.error_message.unwrap().contains("timed out"));
    let t = DefaultCommandExecutor::timeout_result(9, started, 120);
    assert_eq!(t.error_message, Some("Command execution timed out after 120 seconds".to_string()));
    assert_eq!(t.status, TaskStatus::Failed);
}

#[test]
fn polling_decisions() {
    assert_eq!(DefaultCommandExecutor::poll_decision(Some(Some(3)), 0, None), PollDecision::Exited(3));
    assert_eq!(DefaultCommandExecutor::poll_decision(Some(None), 0, Some(1)), PollDecision::Exited(-1));
    assert_eq!(DefaultCommandExecutor::poll_decision(None, 5, Some(5)), PollDecision::TimedOut(5));
    assert_eq!(DefaultCommandExecutor::poll_decision(None, 4, Some(5)), PollDecision::KeepWaiting);
    assert_eq!(DefaultCommandExecutor::poll_decision(None, 1_000_000, None), PollDecision::KeepWaiting);
    assert_eq!(DefaultCommandExecutor::elapsed_seconds(1_000, 3_999), 2);
    assert_eq!(DefaultCommandExecutor::elapsed_seconds(3_999, 1_000), (-2i64) as u64);
}

#[test]
fn pending_acks() {
    let mut p = PendingAcks::new();
    p.record(11, 100);
    p.record(12, 200);
    assert_eq!(p.take(11), Some(100));
    assert_eq!(p.take(11), None);
    assert_eq!(p.take(12), Some(200));
    assert_eq!(p.take(99), None);
}

#[test]
fn redis_ping() {
    assert!(ping_reply_is_healthy("PONG"));
    assert!(!ping_reply_is_healthy("pong"));
    assert!(!ping_reply_is_healthy(""));
}

#[test]
fn completion_plans() {
    let task = Task::new(TaskType::ExecuteCommand {
        command: "echo".to_string(),
        args: vec![],
        working_dir: None,
        env_vars: None,
    });
    let default_queue = "ironflow:results".to_string();
    match plan_completion(task.clone(), true, &default_queue) {
        Completion::Deliver { callback_url, result_queue } => {
            assert_eq!(callback_url, None);
            assert_eq!(result_queue, Some("ironflow:results".to_string()));
        }
        other => panic!("unexpected {:?}", other),
    }
    match plan_completion(task.clone(), true, &String::new()) {
        Completion::Deliver { result_queue, .. } => assert_eq!(result_queue, None),
        other => panic!("unexpected {:?}", other),
    }
    let task = task.with_result_queue("mine".to_string()).with_callback_url("http://cb".to_string());
    match plan_completion(task.clone(), true, &default_queue) {
        Completion::Deliver { callback_url, result_queue } => {
            assert_eq!(callback_url, Some("http://cb".to_string()));
            assert_eq!(result_queue, Some("mine".to_string()));
        }
        other => panic!("unexpected {:?}", other),
    }
    let id = task.id;
    match plan_completion(task.clone(), false, &default_queue) {
        Completion::Retry { task: retried } => {
            assert_eq!(retried.id, id);
            assert_eq!(retried.retry_count, 1);
            assert_eq!(retried.result_queue, Some("mine".to_string()));
        }
        other => panic!("unexpected {:?}", other),
    }
    let mut spent = task.clone();
    spent.retry_count = spent.max_retries;
    assert!(matches!(plan_completion(spent, false, &default_queue), Completion::Reject));
}

#[test]
fn retries_run_out() {
    let mut task = Task::new(TaskType::ExecuteCommand {
        command: "false".to_string(),
        args: vec![],
        working_dir: None,
        env_vars: None,
    });
    let queue = "q".to_string();
    let mut sent_back = 0;
    loop {
        match plan_completion(task, false, &queue) {
            Completion::Retry { task: t } => {
                sent_back += 1;
                task = t;
            }
            Completion::Reject => break,
            other => panic!("unexpected {:?}", other),
        }
    }
    assert_eq!(sent_back, 3);
}

#[test]
fn health_reports() {
    let passed = (LogLevel::Debug, "Health check passed".to_string());
    let failed = (LogLevel::Warn, "Health check failed".to_string());
    assert_eq!(health_report(&Ok(true), &None), passed);
    assert_eq!(health_report(&Ok(true), &Some(Ok(true))), passed);
    assert_eq!(health_report(&Ok(false), &None), failed);
    assert_eq!(health_report(&Err("down".to_string()), &None), failed);
    assert_eq!(health_report(&Ok(true), &Some(Ok(false))), failed);
    assert_eq!(health_report(&Ok(true), &Some(Err("vault down".to_string()))), failed);
}

#[test]
fn text_helpers() {
    assert_eq!(u64_to_decimal(0), "0");
    assert_eq!(u64_to_decimal(1234567890), "1234567890");
    assert_eq!(u64_to_decimal(u64::MAX), u64::MAX.to_string());
    assert_eq!(i64_to_decimal(-42), "-42");
    assert_eq!(i64_to_decimal(i64::MIN), i64::MIN.to_string());
    assert!(ends_with("abc.txt", ".txt"));
    assert!(!ends_with("txt", "a.txt"));
    assert_eq!(replace_char("a.b.c", '.', "::"), "a::b::c");
    assert_eq!(rfind_char("a/b/c", '/'), Some(3));
    assert_eq!(rfind_char("abc", '/'), None);
    assert_eq!(join(&vec!["x".to_string(), "y".to_string(), "z".to_string()], "\n"), "x\ny\nz");
    assert_eq!(join(&vec![], "\n"), "");
}
