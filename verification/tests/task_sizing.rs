use wincleaner::envvars::EnvVars;
use wincleaner::task::{CleanCategory, Task};

fn sized_task(estimated_size: Option<&str>, path_check: Option<&str>) -> Task {
    Task {
        name: "T".to_string(),
        description: String::new(),
        category: CleanCategory::AppCache,
        command: "cleanmgr".to_string(),
        path_check: path_check.map(|p| p.to_string()),
        requires_confirmation: false,
        dangerous: false,
        estimated_size: estimated_size.map(|e| e.to_string()),
        icon: None,
    }
}

#[test]
fn auto_without_path_check_falls_back_to_the_label() {
    let t = sized_task(Some("auto"), None);
    assert_eq!(t.resolve_estimated_size(Some(123456)), Some("auto".to_string()));
    assert_eq!(t.resolve_estimated_size(None), Some("auto".to_string()));
}

#[test]
fn auto_with_path_check_uses_the_measurement() {
    let t = sized_task(Some("auto"), Some("%TEMP%"));
    assert_eq!(t.resolve_estimated_size(Some(2048)), Some("2.0 KB".to_string()));
    assert_eq!(t.resolve_estimated_size(None), None);
}

#[test]
fn literal_label_is_kept() {
    let t = sized_task(Some("~500MB"), Some("%TEMP%"));
    assert_eq!(t.resolve_estimated_size(Some(2048)), Some("~500MB".to_string()));
    let u = sized_task(Some("~500MB"), None);
    assert_eq!(u.resolve_estimated_size(None), Some("~500MB".to_string()));
}

#[test]
fn no_label_resolves_to_nothing() {
    let t = sized_task(None, Some("%TEMP%"));
    assert_eq!(t.resolve_estimated_size(Some(10)), None);
}

#[test]
fn expanded_path_check_follows_the_resolver() {
    let env = EnvVars {
        user_profile: String::new(),
        app_data: String::new(),
        local_app_data: String::new(),
        temp: "C:\\T".to_string(),
        tmp: String::new(),
        program_files: String::new(),
        program_files_x86: String::new(),
        system_drive: String::new(),
        win_dir: String::new(),
        public_dir: String::new(),
    };
    let t = sized_task(Some("auto"), Some("%TEMP%\\cache"));
    assert_eq!(t.expanded_path_check(&env), Some("C:\\T\\cache".to_string()));
    let u = sized_task(None, None);
    assert_eq!(u.expanded_path_check(&env), None);
}
