use wincleaner::catalog::{ConfigParse, built_in_tasks, load_catalog, seed_config_text};
use wincleaner::executor::{ClassifiedError, ErrorKind};
use wincleaner::logring::LogRing;
use wincleaner::publisher::{StatePublisher, batch_start_text, running_batch_text, running_single_text};
use wincleaner::task::{AppState, CleanCategory, Task};

#[test]
fn builtins_hold_thirteen_tasks() {
    let tasks = built_in_tasks();
    assert_eq!(tasks.len(), 13);
    assert_eq!(tasks[0].name, "Go Module Cache");
    assert_eq!(tasks[0].command, "go clean -modcache");
    assert_eq!(tasks[1].name, "Gradle Cache");
    assert_eq!(
        tasks[1].path_check.as_deref(),
        Some("%USERPROFILE%\\.gradle\\caches")
    );
    assert_eq!(tasks[1].estimated_size.as_deref(), Some("auto"));
    assert_eq!(tasks[12].name, "Clear Recycle Bin");
    assert!(tasks.iter().all(|t| t.category != CleanCategory::Custom));
    assert!(tasks.iter().all(|t| !t.command.is_empty()));
}

#[test]
fn builtins_keep_the_flags() {
    let tasks = built_in_tasks();
    // Office Updates and QQ MiniApp and System Component Cleanup are the
    // dangerous ones, the latter two also ask for confirmation.
    let dangerous: Vec<&str> = tasks
        .iter()
        .filter(|t| t.dangerous)
        .map(|t| t.name.as_str())
        .collect();
    assert_eq!(
        dangerous,
        vec!["Office Updates", "QQ MiniApp", "System Component Cleanup"]
    );
    let confirm: Vec<&str> = tasks
        .iter()
        .filter(|t| t.requires_confirmation)
        .map(|t| t.name.as_str())
        .collect();
    assert_eq!(
        confirm,
        vec![
            "Trae AI Chat Logs",
            "Office Updates",
            "QQ MiniApp",
            "System Component Cleanup",
            "Clear Recycle Bin"
        ]
    );
}

#[test]
fn malformed_config_keeps_builtins_and_reports() {
    let (catalog, line) = load_catalog(ConfigParse::Malformed("expected a table".to_string()));
    assert_eq!(catalog.len(), 13);
    assert_eq!(line, "配置文件格式错误: expected a table");
}

#[test]
fn missing_config_yields_builtins_and_seed_notice() {
    let (catalog, line) = load_catalog(ConfigParse::FileMissing);
    assert_eq!(catalog.len(), 13);
    assert_eq!(line, "创建示例配置文件");
}

#[test]
fn parsed_config_is_appended_and_forced_custom() {
    let custom = vec![
        Task {
            name: "mine".to_string(),
            description: "d".to_string(),
            category: CleanCategory::DevTools,
            command: "del /q %TEMP%\\*.log".to_string(),
            path_check: Some("%TEMP%".to_string()),
            requires_confirmation: true,
            dangerous: false,
            estimated_size: Some("auto".to_string()),
            icon: None,
        },
        Task {
            name: "other".to_string(),
            description: String::new(),
            category: CleanCategory::System,
            command: "cleanmgr".to_string(),
            path_check: None,
            requires_confirmation: false,
            dangerous: false,
            estimated_size: None,
            icon: Some("x".to_string()),
        },
    ];
    let (catalog, line) = load_catalog(ConfigParse::Parsed(custom));
    assert_eq!(catalog.len(), 15);
    assert_eq!(catalog[13].name, "mine");
    assert_eq!(catalog[13].category, CleanCategory::Custom);
    assert_eq!(catalog[13].command, "del /q %TEMP%\\*.log");
    assert_eq!(catalog[14].name, "other");
    assert_eq!(catalog[14].category, CleanCategory::Custom);
    assert_eq!(line, "加载了 2 个自定义清理规则");
}

#[test]
fn seed_config_is_valid_toml_with_two_tasks() {
    let seed = seed_config_text();
    let table: toml::Table = toml::from_str(&seed).expect("the seed must parse as TOML");
    let tasks = table["task"].as_array().expect("a [[task]] array");
    assert_eq!(tasks.len(), 2);
    assert_eq!(tasks[0]["category"].as_str(), Some("Custom"));
    assert_eq!(tasks[0]["command"].as_str(), Some("del /q %TEMP%\\*.tmp"));
    assert_eq!(tasks[1]["path_check"].as_str(), Some("%APPDATA%\\Code\\User\\workspaceStorage"));
}

#[test]
fn log_rolls_over_at_one_hundred_entries() {
    let mut ring = LogRing::new();
    for i in 0..150 {
        ring.log(&format!("消息 {}", i));
    }
    assert_eq!(ring.len(), 100);
    let text = ring.render();
    assert_eq!(text.lines().count(), 100);
    // The oldest fifty entries were evicted.
    assert!(!text.contains("消息 49\n"));
    assert!(text.contains("消息 50\n"));
    assert!(text.contains("消息 149\n"));
}

#[test]
fn log_entries_carry_timestamp_brackets() {
    let mut ring = LogRing::new();
    ring.log("hello");
    let text = ring.render();
    assert!(text.starts_with('['));
    assert!(text.ends_with("] hello\n"));
    assert_eq!(ring.len(), 1);
}

#[test]
fn render_joins_entries_in_order() {
    let mut ring = LogRing::new();
    ring.log("first");
    ring.log("second");
    let text = ring.render();
    let first_at = text.find("first").unwrap();
    let second_at = text.find("second").unwrap();
    assert!(first_at < second_at);
    assert_eq!(text.lines().count(), 2);
}

#[test]
fn publisher_walks_the_states() {
    let mut p = StatePublisher::new();
    assert!(matches!(p.read(), AppState::Idle));
    p.publish(AppState::Running(running_single_text("Disk Cleanup")));
    match p.read() {
        AppState::Running(m) => assert_eq!(m, "正在执行: Disk Cleanup"),
        _ => panic!("expected a running state"),
    }
    p.publish_outcome(&Ok(()));
    assert!(matches!(p.read(), AppState::Success));
    let err = ClassifiedError {
        kind: ErrorKind::Generic,
        message: "执行失败: boom".to_string(),
    };
    p.publish_outcome(&Err(err));
    match p.read() {
        AppState::Error(m) => assert_eq!(m, "执行失败: boom"),
        _ => panic!("expected an error state"),
    }
}

#[test]
fn banner_texts_match_the_engine_wording() {
    assert_eq!(running_single_text("X"), "正在执行: X");
    assert_eq!(running_batch_text("X"), "正在清理: X");
    assert_eq!(batch_start_text(3), "批量清理 3 个任务");
    assert_eq!(batch_start_text(12), "批量清理 12 个任务");
}
