use ironflow_rs::processor::{ProcessorAction, ServiceOutcome, TaskRun};
use ironflow_rs::task::{FileLocation, Task, TaskType, TransferOptions};
use ironflow_rs::task_result::{ResultData, TaskResult, TaskStatus};

fn command(name: &str) -> TaskType {
    TaskType::ExecuteCommand {
        command: name.to_string(),
        args: vec!["arg".to_string()],
        working_dir: Some("/tmp".to_string()),
        env_vars: None,
    }
}

fn executor_result(ok: bool) -> TaskResult {
    let r = if ok {
        TaskResult::new_success(12345, None, chrono::Utc::now().timestamp_millis())
    } else {
        TaskResult::new_failed(12345, None, chrono::Utc::now().timestamp_millis(), "exit 1".to_string())
    };
    r.with_stdout("out".to_string())
}

fn expect_command(a: &ProcessorAction, name: &str) {
    match a {
        ProcessorAction::RunCommand { command, .. } => assert_eq!(command, name),
        other => panic!("expected command {}, got {:?}", name, other),
    }
}

fn finished(a: ProcessorAction) -> Result<TaskResult, String> {
    match a {
        ProcessorAction::Finished(r) => r,
        other => panic!("expected the end of processing, got {:?}", other),
    }
}

#[test]
fn command_result_is_stamped_with_the_task() {
    let mut task = Task::new(command("echo")).with_correlation_id("corr-1".to_string());
    task.timeout_secs = Some(9);
    let id = task.id;
    let (mut run, action) = TaskRun::start(task);
    match &action {
        ProcessorAction::RunCommand { command, args, working_dir, env_vars, timeout_secs } => {
            assert_eq!(command, "echo");
            assert_eq!(args, &vec!["arg".to_string()]);
            assert_eq!(working_dir, &Some("/tmp".to_string()));
            assert!(env_vars.is_none());
            assert_eq!(*timeout_secs, Some(9));
        }
        other => panic!("unexpected {:?}", other),
    }
    let r = finished(run.resume_with(ServiceOutcome::Command(Ok(executor_result(true))))).unwrap();
    assert_eq!(r.task_id, id);
    assert_eq!(r.correlation_id, Some("corr-1".to_string()));
    assert_eq!(r.stdout, Some("out".to_string()));
    assert!(r.is_success());
}

#[test]
fn command_error_is_passed_on() {
    let (mut run, action) = TaskRun::start(Task::new(command("nope")));
    expect_command(&action, "nope");
    let r = finished(run.resume_with(ServiceOutcome::Command(Err("spawn failed".to_string()))));
    assert_eq!(r.unwrap_err(), "spawn failed");
}

#[test]
fn polled_command_keeps_its_own_timeout() {
    let mut task = Task::new(TaskType::ExecutePolling {
        command: "job".to_string(),
        args: vec![],
        working_dir: None,
        env_vars: None,
        poll_interval_secs: 2,
        timeout_secs: Some(60),
    });
    task.timeout_secs = Some(5);
    let (_run, action) = TaskRun::start(task);
    match action {
        ProcessorAction::RunPolling { command, poll_interval_secs, timeout_secs, .. } => {
            assert_eq!(command, "job");
            assert_eq!(poll_interval_secs, 2);
            assert_eq!(timeout_secs, Some(60));
        }
        other => panic!("unexpected {:?}", other),
    }
}

#[test]
fn transfer_success_records_what_moved() {
    let source = FileLocation::Local { path: "/in/a.txt".to_string() };
    let destination = FileLocation::S3 {
        bucket: "b".to_string(),
        key: "k".to_string(),
        region: "r".to_string(),
        endpoint: None,
    };
    let task = Task::new(TaskType::FileTransfer {
        source: source.clone(),
        destination: destination.clone(),
        options: TransferOptions::default(),
    });
    let id = task.id;
    let (mut run, action) = TaskRun::start(task);
    match &action {
        ProcessorAction::RunTransfer { source: s, destination: d, options } => {
            assert_eq!(s, &source);
            assert_eq!(d, &destination);
            assert_eq!(options, &TransferOptions::default());
        }
        other => panic!("unexpected {:?}", other),
    }
    let r = finished(run.resume_with(ServiceOutcome::Transfer(Ok(12)))).unwrap();
    assert_eq!(r.task_id, id);
    assert!(r.is_success());
    match r.data {
        Some(ResultData::Transfer { bytes_transferred, source: s, destination: d }) => {
            assert_eq!(bytes_transferred, 12);
            assert_eq!(s, source);
            assert_eq!(d, destination);
        }
        other => panic!("unexpected data {:?}", other),
    }
}

#[test]
fn transfer_failure_is_passed_on() {
    let task = Task::new(TaskType::FileTransfer {
        source: FileLocation::Local { path: "/a".to_string() },
        destination: FileLocation::Local { path: "/b".to_string() },
        options: TransferOptions::default(),
    });
    let (mut run, _) = TaskRun::start(task);
    let r = finished(run.resume_with(ServiceOutcome::Transfer(Err("Destination file '/b' already exists".to_string()))));
    assert_eq!(r.unwrap_err(), "Destination file '/b' already exists");
}

#[test]
fn file_watch_calls_the_watcher() {
    let task = Task::new(TaskType::FileWatch {
        path: "/watched".to_string(),
        patterns: vec!["*.txt".to_string()],
        recursive: true,
        on_change_tasks: vec![],
    })
    .with_correlation_id("fw".to_string());
    let id = task.id;
    let (mut run, action) = TaskRun::start(task);
    match &action {
        ProcessorAction::RunWatch { path, patterns, recursive } => {
            assert_eq!(path, "/watched");
            assert_eq!(patterns, &vec!["*.txt".to_string()]);
            assert!(*recursive);
        }
        other => panic!("unexpected {:?}", other),
    }
    let r = finished(run.resume_with(ServiceOutcome::Watch(Ok(())))).unwrap();
    assert_eq!(r.task_id, id);
    assert_eq!(r.correlation_id, Some("fw".to_string()));
    assert_eq!(r.status, TaskStatus::Success);
    assert_eq!(r.exit_code, Some(0));
}

#[test]
fn file_watch_failure_is_passed_on() {
    let task = Task::new(TaskType::FileWatch {
        path: "/missing".to_string(),
        patterns: vec![],
        recursive: false,
        on_change_tasks: vec![],
    });
    let (mut run, _) = TaskRun::start(task);
    let r = finished(run.resume_with(ServiceOutcome::Watch(Err("no such path".to_string()))));
    assert_eq!(r.unwrap_err(), "no such path");
}

fn sftp(key: &str) -> FileLocation {
    FileLocation::Sftp {
        host: "h".to_string(),
        port: 22,
        path: "/p".to_string(),
        username: "u".to_string(),
        key_secret: key.to_string(),
    }
}

#[test]
fn transfer_resolves_its_secrets_first() {
    let source = sftp("vault:ssh/src");
    let destination = sftp("vault:ssh/dst");
    let task = Task::new(TaskType::FileTransfer {
        source: source.clone(),
        destination: destination.clone(),
        options: TransferOptions::default(),
    });
    let id = task.id;
    let (mut run, action) = TaskRun::start(task);
    match &action {
        ProcessorAction::ResolveSecret { key } => assert_eq!(key, "vault:ssh/src"),
        other => panic!("unexpected {:?}", other),
    }
    let action = run.resume_with(ServiceOutcome::Secret(Ok("SRC-KEY".to_string())));
    match &action {
        ProcessorAction::ResolveSecret { key } => assert_eq!(key, "vault:ssh/dst"),
        other => panic!("unexpected {:?}", other),
    }
    let action = run.resume_with(ServiceOutcome::Secret(Ok("DST-KEY".to_string())));
    match &action {
        ProcessorAction::RunTransfer { source: s, destination: d, .. } => {
            assert_eq!(s, &sftp("SRC-KEY"));
            assert_eq!(d, &sftp("DST-KEY"));
        }
        other => panic!("unexpected {:?}", other),
    }
    let r = finished(run.resume_with(ServiceOutcome::Transfer(Ok(5)))).unwrap();
    assert_eq!(r.task_id, id);
    match r.data {
        Some(ResultData::Transfer { source: s, destination: d, .. }) => {
            assert_eq!(s, source);
            assert_eq!(d, destination);
        }
        other => panic!("unexpected data {:?}", other),
    }
}

#[test]
fn unresolvable_secret_fails_the_transfer() {
    let task = Task::new(TaskType::FileTransfer {
        source: FileLocation::Local { path: "/a".to_string() },
        destination: sftp("vault:ssh/dst"),
        options: TransferOptions::default(),
    });
    let (mut run, action) = TaskRun::start(task);
    assert!(matches!(action, ProcessorAction::ResolveSecret { .. }));
    let r = finished(run.resume_with(ServiceOutcome::Secret(Err("Secret repository not configured".to_string()))));
    assert_eq!(r.unwrap_err(), "Secret repository not configured");
}

#[test]
fn composite_stops_at_the_first_failure() {
    let task = Task::new(TaskType::Composite {
        tasks: vec![Box::new(command("first")), Box::new(command("second"))],
        stop_on_error: true,
    })
    .with_correlation_id("batch".to_string());
    let id = task.id;
    let (mut run, action) = TaskRun::start(task);
    expect_command(&action, "first");
    let r = finished(run.resume_with(ServiceOutcome::Command(Err("boom".to_string())))).unwrap();
    assert_eq!(r.task_id, id);
    assert_eq!(r.status, TaskStatus::Failed);
    assert_eq!(r.correlation_id, Some("batch".to_string()));
    assert_eq!(r.error_message, Some("Composite task failed at step 0: boom".to_string()));
    assert!(r.data.is_none());
}

#[test]
fn composite_stop_names_the_failed_step() {
    let task = Task::new(TaskType::Composite {
        tasks: vec![Box::new(command("a")), Box::new(command("b")), Box::new(command("c"))],
        stop_on_error: true,
    });
    let (mut run, action) = TaskRun::start(task);
    expect_command(&action, "a");
    let action = run.resume_with(ServiceOutcome::Command(Ok(executor_result(true))));
    expect_command(&action, "b");
    let r = finished(run.resume_with(ServiceOutcome::Command(Err("bad".to_string())))).unwrap();
    assert_eq!(r.error_message, Some("Composite task failed at step 1: bad".to_string()));
}

#[test]
fn composite_without_stop_runs_every_step() {
    let task = Task::new(TaskType::Composite {
        tasks: vec![Box::new(command("first")), Box::new(command("second"))],
        stop_on_error: false,
    });
    let id = task.id;
    let (mut run, action) = TaskRun::start(task);
    expect_command(&action, "first");
    let action = run.resume_with(ServiceOutcome::Command(Err("boom".to_string())));
    expect_command(&action, "second");
    let r = finished(run.resume_with(ServiceOutcome::Command(Ok(executor_result(true))))).unwrap();
    assert_eq!(r.task_id, id);
    assert_eq!(r.status, TaskStatus::Failed);
    assert_eq!(r.error_message, Some("One or more sub-tasks failed".to_string()));
    match r.data {
        Some(ResultData::SubResults(subs)) => {
            assert_eq!(subs.len(), 2);
            assert_eq!(subs[0].status, TaskStatus::Failed);
            assert_eq!(subs[0].task_id, id);
            assert_eq!(subs[0].error_message, Some("boom".to_string()));
            assert_eq!(subs[1].status, TaskStatus::Success);
            assert_ne!(subs[1].task_id, id);
        }
        other => panic!("unexpected data {:?}", other),
    }
}

#[test]
fn nested_composite_succeeds_when_all_steps_do() {
    let inner = TaskType::Composite {
        tasks: vec![
            Box::new(command("inner")),
            Box::new(TaskType::FileWatch {
                path: "/w".to_string(),
                patterns: vec![],
                recursive: false,
                on_change_tasks: vec![],
            }),
        ],
        stop_on_error: true,
    };
    let mut task = Task::new(TaskType::Composite {
        tasks: vec![Box::new(command("outer")), Box::new(inner), Box::new(TaskType::Composite { tasks: vec![], stop_on_error: false })],
        stop_on_error: true,
    })
    .with_correlation_id("c".to_string());
    task.timeout_secs = Some(30);
    let id = task.id;
    let (mut run, action) = TaskRun::start(task);
    match &action {
        ProcessorAction::RunCommand { command, timeout_secs, .. } => {
            assert_eq!(command, "outer");
            assert_eq!(*timeout_secs, Some(30));
        }
        other => panic!("unexpected {:?}", other),
    }
    let action = run.resume_with(ServiceOutcome::Command(Ok(executor_result(true))));
    expect_command(&action, "inner");
    let action = run.resume_with(ServiceOutcome::Command(Ok(executor_result(true))));
    match &action {
        ProcessorAction::RunWatch { path, .. } => assert_eq!(path, "/w"),
        other => panic!("unexpected {:?}", other),
    }
    let r = finished(run.resume_with(ServiceOutcome::Watch(Ok(())))).unwrap();
    assert_eq!(r.task_id, id);
    assert!(r.is_success());
    match r.data {
        Some(ResultData::SubResults(subs)) => {
            assert_eq!(subs.len(), 3);
            assert!(subs.iter().all(|s| s.status == TaskStatus::Success));
            assert_eq!(subs[0].correlation_id, Some("c".to_string()));
            match &subs[1].data {
                Some(ResultData::SubResults(inner)) => assert_eq!(inner.len(), 2),
                other => panic!("unexpected inner data {:?}", other),
            }
            match &subs[2].data {
                Some(ResultData::SubResults(empty)) => assert!(empty.is_empty()),
                other => panic!("unexpected empty data {:?}", other),
            }
        }
        other => panic!("unexpected data {:?}", other),
    }
}

#[test]
fn empty_composite_succeeds() {
    let task = Task::new(TaskType::Composite { tasks: vec![], stop_on_error: true });
    let (_run, action) = TaskRun::start(task);
    let r = finished(action).unwrap();
    assert!(r.is_success());
}

fn watch() -> TaskType {
    TaskType::FileWatch { path: "/data".to_string(), patterns: vec![], recursive: false, on_change_tasks: vec![] }
}

#[test]
fn composite_of_watches_sets_each_up() {
    let task = Task::new(TaskType::Composite {
        tasks: vec![Box::new(watch()), Box::new(TaskType::Composite { tasks: vec![Box::new(watch())], stop_on_error: false })],
        stop_on_error: true,
    })
    .with_correlation_id("w".to_string());
    let id = task.id;
    let (mut run, action) = TaskRun::start(task);
    assert!(matches!(action, ProcessorAction::RunWatch { .. }));
    let action = run.resume_with(ServiceOutcome::Watch(Ok(())));
    assert!(matches!(action, ProcessorAction::RunWatch { .. }));
    let r = finished(run.resume_with(ServiceOutcome::Watch(Ok(())))).unwrap();
    assert_eq!(r.task_id, id);
    assert_eq!(r.correlation_id, Some("w".to_string()));
    assert_eq!(r.status, TaskStatus::Success);
}

#[test]
fn composite_skips_empty_composites_to_its_first_call() {
    let task = Task::new(TaskType::Composite {
        tasks: vec![Box::new(TaskType::Composite { tasks: vec![], stop_on_error: true }), Box::new(command("late"))],
        stop_on_error: false,
    });
    let (_run, action) = TaskRun::start(task);
    expect_command(&action, "late");
}

#[test]
fn stopped_inner_composite_lets_the_outer_go_on() {
    let inner = TaskType::Composite { tasks: vec![Box::new(command("x")), Box::new(command("skipped"))], stop_on_error: true };
    let task = Task::new(TaskType::Composite {
        tasks: vec![Box::new(inner), Box::new(command("after"))],
        stop_on_error: true,
    });
    let id = task.id;
    let (mut run, action) = TaskRun::start(task);
    expect_command(&action, "x");
    let action = run.resume_with(ServiceOutcome::Command(Err("nope".to_string())));
    expect_command(&action, "after");
    let r = finished(run.resume_with(ServiceOutcome::Command(Ok(executor_result(true))))).unwrap();
    assert_eq!(r.task_id, id);
    assert_eq!(r.status, TaskStatus::Failed);
    assert_eq!(r.error_message, Some("One or more sub-tasks failed".to_string()));
}
