use wincleaner::batch::{BatchRun, batch_final_state};
use wincleaner::envvars::EnvVars;
use wincleaner::executor::{
    ClassifiedError, ErrorKind, PathProbe, SpawnOutcome, classify_outcome, plan_run,
};
use wincleaner::logring::LogRing;
use wincleaner::safety::safety_veto;
use wincleaner::task::{AppState, CleanCategory, Task};

fn env_with_profile() -> EnvVars {
    EnvVars {
        user_profile: "C:\\Users\\me".to_string(),
        app_data: "C:\\Users\\me\\AppData\\Roaming".to_string(),
        local_app_data: "C:\\Users\\me\\AppData\\Local".to_string(),
        temp: "C:\\Users\\me\\AppData\\Local\\Temp".to_string(),
        tmp: "C:\\Users\\me\\AppData\\Local\\Temp".to_string(),
        program_files: "C:\\Program Files".to_string(),
        program_files_x86: "C:\\Program Files (x86)".to_string(),
        system_drive: "C:".to_string(),
        win_dir: "C:\\Windows".to_string(),
        public_dir: "C:\\Users\\Public".to_string(),
    }
}

fn task_named(name: &str, command: &str, path_check: Option<&str>) -> Task {
    Task {
        name: name.to_string(),
        description: String::new(),
        category: CleanCategory::Custom,
        command: command.to_string(),
        path_check: path_check.map(|p| p.to_string()),
        requires_confirmation: false,
        dangerous: false,
        estimated_size: None,
        icon: None,
    }
}

#[test]
fn safety_refuses_protected_rmdir() {
    assert_eq!(
        safety_veto("rmdir /s /q C:\\Windows\\System32"),
        Some("C:\\Windows")
    );
}

#[test]
fn safety_verdict_survives_swapped_arguments() {
    let a = safety_veto("C:\\Windows\\foo rmdir /s /q");
    let b = safety_veto("rmdir /s /q C:\\Windows\\foo");
    assert_eq!(a, b);
    assert_eq!(a, Some("C:\\Windows"));
}

#[test]
fn safety_temp_escape_passes() {
    assert_eq!(safety_veto("rmdir /s /q C:\\Windows\\Temp\\cache"), None);
    assert_eq!(safety_veto("del /q C:\\Temp\\x"), None);
}

#[test]
fn safety_temp_escape_is_case_sensitive() {
    assert_eq!(
        safety_veto("rmdir /s /q C:\\Windows\\temp\\x"),
        Some("C:\\Windows")
    );
}

#[test]
fn safety_ignores_non_destructive_commands() {
    assert_eq!(safety_veto("cleanmgr C:\\Windows"), None);
}

#[test]
fn plan_refuses_protected_target_and_logs() {
    let env = env_with_profile();
    let task = task_named("T", "rmdir /s /q C:\\Windows\\System32", None);
    let r = plan_run(&task, &env, None);
    let e = r.expect_err("the safety filter must refuse this command");
    assert_eq!(e.kind, ErrorKind::SafetyRefused);
    assert_eq!(e.message, "safety-refused: C:\\Windows");
    let mut ring = LogRing::new();
    ring.log(&e.message);
    assert!(ring.render().contains("safety-refused: C:\\Windows"));
}

#[test]
fn plan_reports_missing_path() {
    let env = env_with_profile();
    let task = task_named("T", "rmdir /s /q %USERPROFILE%\\.nonexistent", Some("%USERPROFILE%\\.nonexistent"));
    let r = plan_run(&task, &env, Some(PathProbe::Missing));
    let e = r.expect_err("a missing target must stop the task");
    assert_eq!(e.kind, ErrorKind::PathMissing);
    assert!(e.message.contains("C:\\Users\\me\\.nonexistent"));

    let mut run = BatchRun::new(1);
    run.record_outcome("T", &Err(e), None, None);
    let stats = run.into_stats();
    assert_eq!(stats.failed_tasks, 1);
    assert_eq!(stats.successful_tasks, 0);
}

#[test]
fn plan_reports_empty_directory() {
    let env = env_with_profile();
    let task = task_named("T", "rmdir /s /q %TEMP%\\c", Some("%TEMP%\\c"));
    let e = plan_run(&task, &env, Some(PathProbe::EmptyDir)).unwrap_err();
    assert_eq!(e.kind, ErrorKind::AlreadyEmpty);
    assert!(e.message.contains("目录为空"));
}

#[test]
fn plan_returns_expanded_command() {
    let env = env_with_profile();
    let task = task_named("T", "del /q %TEMP%\\*.tmp", None);
    let cmd = plan_run(&task, &env, None).unwrap();
    assert_eq!(cmd, "del /q C:\\Users\\me\\AppData\\Local\\Temp\\*.tmp");
}

#[test]
fn second_run_of_consumed_target_stops() {
    let env = env_with_profile();
    let task = task_named(
        "Gradle Cache",
        "rmdir /s /q %USERPROFILE%\\.gradle\\caches",
        Some("%USERPROFILE%\\.gradle\\caches"),
    );
    // First run: the target exists and holds entries; the command runs
    // and succeeds.
    let cmd = plan_run(&task, &env, Some(PathProbe::NonEmptyDir)).unwrap();
    assert!(cmd.contains("C:\\Users\\me\\.gradle\\caches"));
    let first = classify_outcome(&SpawnOutcome::Completed {
        success: true,
        stdout: String::new(),
        stderr: String::new(),
    });
    assert!(first.is_ok());
    // Second run: the tree is gone; the pre-flight gate stops the task.
    let e = plan_run(&task, &env, Some(PathProbe::Missing)).unwrap_err();
    assert_eq!(e.kind, ErrorKind::PathMissing);
}

#[test]
fn classify_success_is_ok() {
    let r = classify_outcome(&SpawnOutcome::Completed {
        success: true,
        stdout: "done".to_string(),
        stderr: String::new(),
    });
    assert!(r.is_ok());
}

#[test]
fn classify_access_denied() {
    let e = classify_outcome(&SpawnOutcome::Completed {
        success: false,
        stdout: String::new(),
        stderr: "拒绝访问。\n".to_string(),
    })
    .unwrap_err();
    assert_eq!(e.kind, ErrorKind::AccessDenied);
    assert_eq!(e.message, "权限不足: 拒绝访问。\n请尝试以管理员身份运行程序");
}

#[test]
fn classify_not_found() {
    let e = classify_outcome(&SpawnOutcome::Completed {
        success: false,
        stdout: String::new(),
        stderr: "系统找不到文件。".to_string(),
    })
    .unwrap_err();
    assert_eq!(e.kind, ErrorKind::NotFound);
    assert!(e.message.starts_with("文件或目录不存在: "));
    assert!(e.message.ends_with("可能已被其他程序清理"));
}

#[test]
fn classify_in_use() {
    let e = classify_outcome(&SpawnOutcome::Completed {
        success: false,
        stdout: String::new(),
        stderr: "文件正在使用中。".to_string(),
    })
    .unwrap_err();
    assert_eq!(e.kind, ErrorKind::InUse);
    assert!(e.message.contains("请关闭相关程序后重试"));
}

#[test]
fn classify_generic_with_stdout_detail() {
    let e = classify_outcome(&SpawnOutcome::Completed {
        success: false,
        stdout: "some detail\n".to_string(),
        stderr: "boom \n".to_string(),
    })
    .unwrap_err();
    assert_eq!(e.kind, ErrorKind::Generic);
    assert_eq!(e.message, "执行失败: boom\n详细信息: some detail");
}

#[test]
fn classify_generic_without_stdout() {
    let e = classify_outcome(&SpawnOutcome::Completed {
        success: false,
        stdout: String::new(),
        stderr: " boom ".to_string(),
    })
    .unwrap_err();
    assert_eq!(e.kind, ErrorKind::Generic);
    assert_eq!(e.message, "执行失败: boom");
}

#[test]
fn classify_spawn_command_missing() {
    let e = classify_outcome(&SpawnOutcome::SpawnError {
        message: "系统找不到指定的文件。".to_string(),
    })
    .unwrap_err();
    assert_eq!(e.kind, ErrorKind::CommandMissing);
    assert_eq!(e.message, "系统命令执行失败: 找不到指定的命令或程序");
}

#[test]
fn classify_spawn_access_denied() {
    let e = classify_outcome(&SpawnOutcome::SpawnError {
        message: "拒绝访问。 (os error 5)".to_string(),
    })
    .unwrap_err();
    assert_eq!(e.kind, ErrorKind::AccessDenied);
    assert_eq!(e.message, "系统命令执行失败: 权限不足，请以管理员身份运行");
}

#[test]
fn classify_spawn_other_failure() {
    let e = classify_outcome(&SpawnOutcome::SpawnError {
        message: "weird".to_string(),
    })
    .unwrap_err();
    assert_eq!(e.kind, ErrorKind::SpawnFailed);
    assert_eq!(e.message, "系统命令执行错误: weird");
}

#[test]
fn batch_with_middle_access_denied() {
    let mut run = BatchRun::new(3);
    run.record_outcome("first", &Ok(()), Some(1000), Some(400));
    let denied = ClassifiedError {
        kind: ErrorKind::AccessDenied,
        message: "权限不足: 拒绝访问。\n请尝试以管理员身份运行程序".to_string(),
    };
    run.record_outcome("mid", &Err(denied), Some(50), Some(50));
    run.record_outcome("third", &Ok(()), None, None);
    let stats = run.into_stats();
    assert_eq!(stats.total_tasks, 3);
    assert_eq!(stats.successful_tasks, 2);
    assert_eq!(stats.failed_tasks, 1);
    assert_eq!(stats.errors.len(), 1);
    assert!(stats.errors[0].starts_with("mid: "));
    assert_eq!(stats.total_space_freed, Some(600));
    let st = batch_final_state(stats);
    assert!(matches!(st, AppState::SuccessWithStats(_)));
}

#[test]
fn batch_without_failures_ends_in_plain_success() {
    let mut run = BatchRun::new(2);
    run.record_outcome("a", &Ok(()), None, None);
    run.record_outcome("b", &Ok(()), Some(10), Some(10));
    let stats = run.into_stats();
    assert_eq!(stats.failed_tasks, 0);
    assert_eq!(stats.total_space_freed, None);
    assert!(matches!(batch_final_state(stats), AppState::Success));
}

#[test]
fn rebatch_counts_only_regenerated_targets() {
    let env = env_with_profile();
    // A batch re-run over the same selection: the first task is not
    // path-gated and runs again; the second one's target was consumed by
    // the first batch; the third one's target regenerated in between.
    let plain = task_named("plain", "npm cache clean --force", None);
    let consumed = task_named("consumed", "rmdir /s /q %TEMP%\\a", Some("%TEMP%\\a"));
    let regrown = task_named("regrown", "rmdir /s /q %TEMP%\\b", Some("%TEMP%\\b"));
    let probes = [None, Some(PathProbe::Missing), Some(PathProbe::NonEmptyDir)];

    let mut run = BatchRun::new(3);
    for (task, probe) in [&plain, &consumed, &regrown].iter().zip(probes) {
        let outcome = match plan_run(task, &env, probe) {
            Ok(_cmd) => classify_outcome(&SpawnOutcome::Completed {
                success: true,
                stdout: String::new(),
                stderr: String::new(),
            }),
            Err(e) => Err(e),
        };
        run.record_outcome(&task.name, &outcome, None, None);
    }
    let stats = run.into_stats();
    assert_eq!(stats.successful_tasks, 2);
    assert_eq!(stats.failed_tasks, 1);
    assert!(stats.errors[0].starts_with("consumed: "));
}
