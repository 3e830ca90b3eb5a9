use vstd::prelude::*;
use vstd::string::*;
use crate::sizefmt::{dec_digits, decimal_of};
use crate::task::{CleanCategory, Task, TaskView};

verus! {

// The task catalog: a baked list of thirteen built-in tasks, followed by
// whatever the configuration file contributed. Entries loaded from the
// file are always forced into the `Custom` category; a missing file is
// seeded with an example and a malformed file is reported and ignored —
// loading never aborts startup.

/// The view of an optional borrowed string.
pub open spec fn opt_str_view(o: Option<&str>) -> Option<Seq<char>> {
    match o {
        Some(s) => Some(s@),
        None => None,
    }
}

/// Builds one task record from its field values.
fn make_task(
    name: &str,
    description: &str,
    category: CleanCategory,
    command: &str,
    path_check: Option<&str>,
    requires_confirmation: bool,
    dangerous: bool,
    estimated_size: Option<&str>,
    icon: Option<&str>,
) -> (t: Task)
    ensures
        t@ == (TaskView {
            name: name@,
            description: description@,
            category: category,
            command: command@,
            path_check: opt_str_view(path_check),
            requires_confirmation: requires_confirmation,
            dangerous: dangerous,
            estimated_size: opt_str_view(estimated_size),
            icon: opt_str_view(icon),
        }),
{
    Task {
        name: String::from_str(name),
        description: String::from_str(description),
        category,
        command: String::from_str(command),
        path_check: match path_check {
            Some(p) => Some(String::from_str(p)),
            None => None,
        },
        requires_confirmation,
        dangerous,
        estimated_size: match estimated_size {
            Some(e) => Some(String::from_str(e)),
            None => None,
        },
        icon: match icon {
            Some(i) => Some(String::from_str(i)),
            None => None,
        },
    }
}

/// The exact record of built-in task `i`.
pub open spec fn builtin_view(i: int) -> TaskView {
    if i == 0 {
        TaskView {
            name: "Go Module Cache"@,
            description: "清理Go模块缓存"@,
            category: CleanCategory::DevTools,
            command: "go clean -modcache"@,
            path_check: None,
            requires_confirmation: false,
            dangerous: false,
            estimated_size: Some("~500MB"@),
            icon: Some("🐹"@),
        }
    } else if i == 1 {
        TaskView {
            name: "Gradle Cache"@,
            description: "清理Gradle缓存"@,
            category: CleanCategory::DevTools,
            command: "rmdir /s /q %USERPROFILE%\\.gradle\\caches"@,
            path_check: Some("%USERPROFILE%\\.gradle\\caches"@),
            requires_confirmation: false,
            dangerous: false,
            estimated_size: Some("auto"@),
            icon: Some("🐘"@),
        }
    } else if i == 2 {
        TaskView {
            name: "Cargo Cache"@,
            description: "清理Cargo缓存（需要cargo-cache）"@,
            category: CleanCategory::DevTools,
            command: "cargo cache --remove-dir all"@,
            path_check: None,
            requires_confirmation: false,
            dangerous: false,
            estimated_size: Some("~2GB"@),
            icon: Some("🦀"@),
        }
    } else if i == 3 {
        TaskView {
            name: "npm Cache"@,
            description: "清理npm缓存"@,
            category: CleanCategory::DevTools,
            command: "npm cache clean --force"@,
            path_check: None,
            requires_confirmation: false,
            dangerous: false,
            estimated_size: Some("~200MB"@),
            icon: Some("📦"@),
        }
    } else if i == 4 {
        TaskView {
            name: "Trae AI Chat Logs"@,
            description: "清理Trae AI聊天记录（可能很大）"@,
            category: CleanCategory::AppCache,
            command: "rmdir /s /q %USERPROFILE%\\.marscode\\ai-chat\\logs"@,
            path_check: Some("%USERPROFILE%\\.marscode\\ai-chat\\logs"@),
            requires_confirmation: true,
            dangerous: false,
            estimated_size: Some("auto"@),
            icon: Some("🤖"@),
        }
    } else if i == 5 {
        TaskView {
            name: "KuGou Image Cache"@,
            description: "清理酷狗音乐图片缓存"@,
            category: CleanCategory::AppCache,
            command: "rmdir /s /q %USERPROFILE%\\AppData\\Roaming\\KuGou8\\ImagesCache"@,
            path_check: Some("%USERPROFILE%\\AppData\\Roaming\\KuGou8\\ImagesCache"@),
            requires_confirmation: false,
            dangerous: false,
            estimated_size: Some("auto"@),
            icon: Some("🎵"@),
        }
    } else if i == 6 {
        TaskView {
            name: "VSCode Cpptools Cache"@,
            description: "清理VSCode Cpptools缓存"@,
            category: CleanCategory::AppCache,
            command: "rmdir /s /q %LocalAppData%\\Microsoft\\vscode-cpptools"@,
            path_check: Some("%LocalAppData%\\Microsoft\\vscode-cpptools"@),
            requires_confirmation: false,
            dangerous: false,
            estimated_size: Some("auto"@),
            icon: Some("💻"@),
        }
    } else if i == 7 {
        TaskView {
            name: "Office Updates"@,
            description: "清理Office更新缓存"@,
            category: CleanCategory::AppCache,
            command: "rmdir /s /q \"C:\\Program Files (x86)\\Microsoft Office\\Updates\""@,
            path_check: Some("C:\\Program Files (x86)\\Microsoft Office\\Updates"@),
            requires_confirmation: true,
            dangerous: true,
            estimated_size: Some("auto"@),
            icon: Some("📊"@),
        }
    } else if i == 8 {
        TaskView {
            name: "Gradle Wrapper Dists"@,
            description: "清理Gradle Wrapper分发缓存"@,
            category: CleanCategory::DevTools,
            command: "rmdir /s /q %USERPROFILE%\\.gradle\\wrapper\\dists"@,
            path_check: Some("%USERPROFILE%\\.gradle\\wrapper\\dists"@),
            requires_confirmation: false,
            dangerous: false,
            estimated_size: Some("auto"@),
            icon: Some("🐘"@),
        }
    } else if i == 9 {
        TaskView {
            name: "QQ MiniApp"@,
            description: "清理QQ小程序缓存（未经测试）"@,
            category: CleanCategory::AppCache,
            command: "rmdir /s /q %USERPROFILE%\\AppData\\Roaming\\QQ\\miniapp"@,
            path_check: Some("%USERPROFILE%\\AppData\\Roaming\\QQ\\miniapp"@),
            requires_confirmation: true,
            dangerous: true,
            estimated_size: Some("auto"@),
            icon: Some("💬"@),
        }
    } else if i == 10 {
        TaskView {
            name: "System Component Cleanup"@,
            description: "系统组件清理（需要管理员权限）"@,
            category: CleanCategory::System,
            command: "Dism.exe /online /Cleanup-Image /StartComponentCleanup /ResetBase"@,
            path_check: None,
            requires_confirmation: true,
            dangerous: true,
            estimated_size: Some("~1-3GB"@),
            icon: Some("⚙️"@),
        }
    } else if i == 11 {
        TaskView {
            name: "Disk Cleanup"@,
            description: "Windows自带磁盘清理工具"@,
            category: CleanCategory::System,
            command: "cleanmgr"@,
            path_check: None,
            requires_confirmation: false,
            dangerous: false,
            estimated_size: Some("~可变"@),
            icon: Some("🧹"@),
        }
    } else {
        TaskView {
            name: "Clear Recycle Bin"@,
            description: "清空回收站"@,
            category: CleanCategory::System,
            command: "powershell Clear-RecycleBin -Force"@,
            path_check: None,
            requires_confirmation: true,
            dangerous: false,
            estimated_size: Some("~可变"@),
            icon: Some("🗑️"@),
        }
    }
}

/// The baked catalog of thirteen built-in tasks, in display order.
pub fn built_in_tasks() -> (r: Vec<Task>)
    ensures
        r@.len() == 13,
        forall|i: int| 0 <= i < 13 ==> #[trigger] r@[i]@ == builtin_view(i),
{
    let mut r: Vec<Task> = Vec::new();
    r.push(
        make_task(
            "Go Module Cache",
            "清理Go模块缓存",
            CleanCategory::DevTools,
            "go clean -modcache",
            None,
            false,
            false,
            Some("~500MB"),
            Some("🐹"),
        ),
    );
    r.push(
        make_task(
            "Gradle Cache",
            "清理Gradle缓存",
            CleanCategory::DevTools,
            "rmdir /s /q %USERPROFILE%\\.gradle\\caches",
            Some("%USERPROFILE%\\.gradle\\caches"),
            false,
            false,
            Some("auto"),
            Some("🐘"),
        ),
    );
    r.push(
        make_task(
            "Cargo Cache",
            "清理Cargo缓存（需要cargo-cache）",
            CleanCategory::DevTools,
            "cargo cache --remove-dir all",
            None,
            false,
            false,
            Some("~2GB"),
            Some("🦀"),
        ),
    );
    r.push(
        make_task(
            "npm Cache",
            "清理npm缓存",
            CleanCategory::DevTools,
            "npm cache clean --force",
            None,
            false,
            false,
            Some("~200MB"),
            Some("📦"),
        ),
    );
    r.push(
        make_task(
            "Trae AI Chat Logs",
            "清理Trae AI聊天记录（可能很大）",
            CleanCategory::AppCache,
            "rmdir /s /q %USERPROFILE%\\.marscode\\ai-chat\\logs",
            Some("%USERPROFILE%\\.marscode\\ai-chat\\logs"),
            true,
            false,
            Some("auto"),
            Some("🤖"),
        ),
    );
    r.push(
        make_task(
            "KuGou Image Cache",
            "清理酷狗音乐图片缓存",
            CleanCategory::AppCache,
            "rmdir /s /q %USERPROFILE%\\AppData\\Roaming\\KuGou8\\ImagesCache",
            Some("%USERPROFILE%\\AppData\\Roaming\\KuGou8\\ImagesCache"),
            false,
            false,
            Some("auto"),
            Some("🎵"),
        ),
    );
    r.push(
        make_task(
            "VSCode Cpptools Cache",
            "清理VSCode Cpptools缓存",
            CleanCategory::AppCache,
            "rmdir /s /q %LocalAppData%\\Microsoft\\vscode-cpptools",
            Some("%LocalAppData%\\Microsoft\\vscode-cpptools"),
            false,
            false,
            Some("auto"),
            Some("💻"),
        ),
    );
    r.push(
        make_task(
            "Office Updates",
            "清理Office更新缓存",
            CleanCategory::AppCache,
            "rmdir /s /q \"C:\\Program Files (x86)\\Microsoft Office\\Updates\"",
            Some("C:\\Program Files (x86)\\Microsoft Office\\Updates"),
            true,
            true,
            Some("auto"),
            Some("📊"),
        ),
    );
    r.push(
        make_task(
            "Gradle Wrapper Dists",
            "清理Gradle Wrapper分发缓存",
            CleanCategory::DevTools,
            "rmdir /s /q %USERPROFILE%\\.gradle\\wrapper\\dists",
            Some("%USERPROFILE%\\.gradle\\wrapper\\dists"),
            false,
            false,
            Some("auto"),
            Some("🐘"),
        ),
    );
    r.push(
        make_task(
            "QQ MiniApp",
            "清理QQ小程序缓存（未经测试）",
            CleanCategory::AppCache,
            "rmdir /s /q %USERPROFILE%\\AppData\\Roaming\\QQ\\miniapp",
            Some("%USERPROFILE%\\AppData\\Roaming\\QQ\\miniapp"),
            true,
            true,
            Some("auto"),
            Some("💬"),
        ),
    );
    r.push(
        make_task(
            "System Component Cleanup",
            "系统组件清理（需要管理员权限）",
            CleanCategory::System,
            "Dism.exe /online /Cleanup-Image /StartComponentCleanup /ResetBase",
            None,
            true,
            true,
            Some("~1-3GB"),
            Some("⚙️"),
        ),
    );
    r.push(
        make_task(
            "Disk Cleanup",
            "Windows自带磁盘清理工具",
            CleanCategory::System,
            "cleanmgr",
            None,
            false,
            false,
            Some("~可变"),
            Some("🧹"),
        ),
    );
    r.push(
        make_task(
            "Clear Recycle Bin",
            "清空回收站",
            CleanCategory::System,
            "powershell Clear-RecycleBin -Force",
            None,
            true,
            false,
            Some("~可变"),
            Some("🗑️"),
        ),
    );
    r
}

// --- the configuration file's contribution ----------------------------------

/// What reading and parsing the configuration file came to: no file at
/// all, a parsed task list, or a parse failure with its error text.
pub enum ConfigParse {
    FileMissing,
    Parsed(Vec<Task>),
    Malformed(String),
}

/// `t` moved into the `Custom` category, every other field kept.
pub open spec fn custom_of(t: TaskView) -> TaskView {
    TaskView { category: CleanCategory::Custom, ..t }
}

/// Forces every loaded task into the `Custom` category.
pub fn adopt_custom(tasks: Vec<Task>) -> (r: Vec<Task>)
    ensures
        r@.len() == tasks@.len(),
        forall|i: int| 0 <= i < tasks@.len() ==> #[trigger] r@[i]@ == custom_of(tasks@[i]@),
{
    let ghost orig = tasks@;
    let mut rest = tasks;
    let mut out: Vec<Task> = Vec::new();
    while rest.len() > 0
        invariant
            out@.len() + rest@.len() == orig.len(),
            rest@ == orig.subrange(out@.len() as int, orig.len() as int),
            forall|i: int| 0 <= i < out@.len() ==> #[trigger] out@[i]@ == custom_of(orig[i]@),
        decreases rest@.len(),
    {
        let t = rest.remove(0);
        proof {
            assert(t == orig[out@.len() as int]);
            assert(rest@ =~= orig.subrange(out@.len() + 1 as int, orig.len() as int));
        }
        out.push(
            Task {
                name: t.name,
                description: t.description,
                category: CleanCategory::Custom,
                command: t.command,
                path_check: t.path_check,
                requires_confirmation: t.requires_confirmation,
                dangerous: t.dangerous,
                estimated_size: t.estimated_size,
                icon: t.icon,
            },
        );
    }
    out
}

/// Turns the outcome of reading the configuration file into the custom
/// task list and the log line reporting what happened: loaded tasks are
/// forced into `Custom`; a missing file (after the caller seeds it) and
/// a malformed file both contribute nothing, and neither aborts startup.
pub fn apply_config(parse: ConfigParse) -> (r: (Vec<Task>, String))
    ensures
        parse matches ConfigParse::FileMissing ==> r.0@.len() == 0 && r.1@ == "创建示例配置文件"@,
        parse matches ConfigParse::Malformed(e) ==> r.0@.len() == 0 && r.1@ == "配置文件格式错误: "@
            + e@,
        parse matches ConfigParse::Parsed(ts) ==> r.0@.len() == ts@.len() && (forall|i: int|
            0 <= i < ts@.len() ==> #[trigger] r.0@[i]@ == custom_of(ts@[i]@)) && r.1@ == "加载了 "@
            + dec_digits(ts@.len()) + " 个自定义清理规则"@,
{
    match parse {
        ConfigParse::FileMissing => (Vec::new(), String::from_str("创建示例配置文件")),
        ConfigParse::Malformed(e) => {
            let mut m = String::from_str("配置文件格式错误: ");
            m.append(e.as_str());
            (Vec::new(), m)
        },
        ConfigParse::Parsed(ts) => {
            let n = ts.len();
            let adopted = adopt_custom(ts);
            let count = decimal_of(n as u64);
            let mut m = String::from_str("加载了 ");
            m.append(count.as_str());
            m.append(" 个自定义清理规则");
            (adopted, m)
        },
    }
}

/// The merged catalog: the built-in list followed by the custom list,
/// both in their own order.
pub fn merge_catalog(builtin: Vec<Task>, custom: Vec<Task>) -> (r: Vec<Task>)
    ensures
        r@ == builtin@ + custom@,
{
    let mut all = builtin;
    let mut rest = custom;
    all.append(&mut rest);
    all
}

/// The whole catalog for one outcome of reading the configuration file:
/// the thirteen built-ins followed by the file's contribution, plus the
/// loader's log line.
pub fn load_catalog(parse: ConfigParse) -> (r: (Vec<Task>, String))
    ensures
        r.0@.len() >= 13,
        forall|i: int| 0 <= i < 13 ==> #[trigger] r.0@[i]@ == builtin_view(i),
        parse matches ConfigParse::FileMissing ==> r.0@.len() == 13 && r.1@ == "创建示例配置文件"@,
        parse matches ConfigParse::Malformed(e) ==> r.0@.len() == 13 && r.1@ == "配置文件格式错误: "@
            + e@,
        parse matches ConfigParse::Parsed(ts) ==> r.0@.len() == 13 + ts@.len() && (forall|i: int|
            0 <= i < ts@.len() ==> #[trigger] r.0@[13 + i]@ == custom_of(ts@[i]@)) && r.1@ == "加载了 "@
            + dec_digits(ts@.len()) + " 个自定义清理规则"@,
{
    let builtin = built_in_tasks();
    let (custom, line) = apply_config(parse);
    let merged = merge_catalog(builtin, custom);
    (merged, line)
}

/// The example configuration the engine writes when no file exists: two
/// `[[task]]` entries showing the schema.
pub fn seed_config_text() -> (r: String)
    ensures
        r@ ==
        "# WinCleaner 自定义清理规则配置\n# 警告：请谨慎配置，错误的命令可能导致系统问题\n\n[[task]]\nname = \"示例: 清理临时文件\"\ndescription = \"清理用户临时文件夹\"\ncategory = \"Custom\"\ncommand = \"del /q %TEMP%\\\\*.tmp\"\npath_check = \"%TEMP%\"\nrequires_confirmation = true\ndangerous = false\nestimated_size = \"~100MB\"\nicon = \"📝\"\n\n[[task]]\nname = \"清理 VSCode 工作区缓存\"\ndescription = \"清理 VSCode 工作区缓存文件\"\ncategory = \"Custom\"\ncommand = \"rmdir /s /q %APPDATA%\\\\Code\\\\User\\\\workspaceStorage\"\npath_check = \"%APPDATA%\\\\Code\\\\User\\\\workspaceStorage\"\nrequires_confirmation = true\ndangerous = false\nestimated_size = \"auto\"\nicon = \"💻\"\n"@,
{
    String::from_str(
        "# WinCleaner 自定义清理规则配置\n# 警告：请谨慎配置，错误的命令可能导致系统问题\n\n[[task]]\nname = \"示例: 清理临时文件\"\ndescription = \"清理用户临时文件夹\"\ncategory = \"Custom\"\ncommand = \"del /q %TEMP%\\\\*.tmp\"\npath_check = \"%TEMP%\"\nrequires_confirmation = true\ndangerous = false\nestimated_size = \"~100MB\"\nicon = \"📝\"\n\n[[task]]\nname = \"清理 VSCode 工作区缓存\"\ndescription = \"清理 VSCode 工作区缓存文件\"\ncategory = \"Custom\"\ncommand = \"rmdir /s /q %APPDATA%\\\\Code\\\\User\\\\workspaceStorage\"\npath_check = \"%APPDATA%\\\\Code\\\\User\\\\workspaceStorage\"\nrequires_confirmation = true\ndangerous = false\nestimated_size = \"auto\"\nicon = \"💻\"\n",
    )
}

} // verus!
