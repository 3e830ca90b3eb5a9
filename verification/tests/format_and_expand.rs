use wincleaner::envvars::EnvVars;
use wincleaner::sizefmt::format_size;
use wincleaner::text::{str_contains, trim_text};

fn empty_env() -> EnvVars {
    EnvVars {
        user_profile: String::new(),
        app_data: String::new(),
        local_app_data: String::new(),
        temp: String::new(),
        tmp: String::new(),
        program_files: String::new(),
        program_files_x86: String::new(),
        system_drive: String::new(),
        win_dir: String::new(),
        public_dir: String::new(),
    }
}

#[test]
fn format_size_byte_boundaries() {
    assert_eq!(format_size(0), "0 B");
    assert_eq!(format_size(1023), "1023 B");
    assert_eq!(format_size(1024), "1.0 KB");
    assert_eq!(format_size(1536), "1.5 KB");
}

#[test]
fn format_size_one_terabyte() {
    assert_eq!(format_size(1099511627776), "1.0 TB");
}

#[test]
fn format_size_each_unit() {
    assert_eq!(format_size(1048576), "1.0 MB");
    assert_eq!(format_size(1073741824), "1.0 GB");
    assert_eq!(format_size(10752), "10.5 KB");
}

#[test]
fn format_size_rounds_half_to_even() {
    // 1280 / 1024 = 1.25 exactly; 1792 / 1024 = 1.75 exactly.
    assert_eq!(format_size(1280), "1.2 KB");
    assert_eq!(format_size(1792), "1.8 KB");
    // 1590 / 1024 = 1.552...; rounds up.
    assert_eq!(format_size(1590), "1.6 KB");
}

#[test]
fn expand_unset_variable_becomes_empty() {
    let env = empty_env();
    assert_eq!(env.expand("%TEMP%\\x"), "\\x");
}

#[test]
fn expand_without_percent_is_unchanged() {
    let mut env = empty_env();
    env.temp = "C:\\T".to_string();
    assert_eq!(env.expand("C:\\plain\\path"), "C:\\plain\\path");
}

#[test]
fn expand_is_case_insensitive_on_the_name() {
    let mut env = empty_env();
    env.local_app_data = "C:\\Users\\me\\AppData\\Local".to_string();
    assert_eq!(
        env.expand("%LocalAppData%\\Microsoft\\vscode-cpptools"),
        "C:\\Users\\me\\AppData\\Local\\Microsoft\\vscode-cpptools"
    );
}

#[test]
fn expand_keeps_unsupported_tokens() {
    let mut env = empty_env();
    env.temp = "C:\\T".to_string();
    assert_eq!(env.expand("%FOO%\\%TEMP%"), "%FOO%\\C:\\T");
}

#[test]
fn expand_is_one_pass() {
    let mut env = empty_env();
    env.temp = "%TMP%".to_string();
    env.tmp = "Z".to_string();
    // The substituted value is not scanned again.
    assert_eq!(env.expand("%TEMP%"), "%TMP%");
}

#[test]
fn expand_longer_name_wins_its_own_token() {
    let mut env = empty_env();
    env.program_files = "C:\\Program Files".to_string();
    env.program_files_x86 = "C:\\Program Files (x86)".to_string();
    assert_eq!(env.expand("%PROGRAMFILES%"), "C:\\Program Files");
    assert_eq!(env.expand("%PROGRAMFILES(X86)%"), "C:\\Program Files (x86)");
}

#[test]
fn expand_stray_percents_pass_through() {
    let env = empty_env();
    // Stray percent signs are copied; with TEMP unset the fragments can
    // reassemble into placeholder-shaped text.
    assert_eq!(env.expand("100%"), "100%");
    assert_eq!(env.expand("%TE%TEMP%MP%"), "%TEMP%");
}

#[test]
fn str_contains_finds_substrings() {
    assert!(str_contains("rmdir /s /q C:\\Windows", "C:\\Windows"));
    assert!(!str_contains("rmdir", "rmdirx"));
    assert!(str_contains("anything", ""));
}

#[test]
fn trim_text_strips_both_ends() {
    assert_eq!(trim_text("  拒绝访问。 \r\n"), "拒绝访问。");
    assert_eq!(trim_text("plain"), "plain");
    assert_eq!(trim_text(" \t\n"), "");
}
