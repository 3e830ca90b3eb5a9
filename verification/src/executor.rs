use vstd::prelude::*;
use vstd::string::*;
use crate::envvars::{EnvVars, spec_expand};
use crate::safety::{safety_veto, veto_prefix};
use crate::task::{Task, TaskView};
use crate::text::{str_contains, text_contains, trim_text, trimmed};

verus! {

// The execution pipeline around one task, split at the two points where
// the outside world acts. `plan_run` performs everything up to the
// subprocess launch: the pre-flight path gate, command expansion and the
// safety filter; it yields either the expanded command to hand to the
// shell or the classified refusal. `classify_outcome` turns what came
// back from the shell into the task's result. The caller performs the
// filesystem probe and the launch itself and feeds the observations in
// as plain values.

/// What the executor reports when a task does not succeed.
#[derive(Clone, Copy, Debug, PartialEq, Eq, Structural)]
pub enum ErrorKind {
    /// Path-gated task whose target does not exist.
    PathMissing,
    /// Path-gated task whose target directory has no entries.
    AlreadyEmpty,
    /// The protected-path filter refused the command.
    SafetyRefused,
    /// The subprocess or its launch reported a permission failure.
    AccessDenied,
    /// The subprocess reported a missing file or directory.
    NotFound,
    /// The subprocess reported the target as locked by another process.
    InUse,
    /// The shell could not find the program to run.
    CommandMissing,
    /// The process could not be created at all.
    SpawnFailed,
    /// Any other non-zero exit.
    Generic,
}

/// A classified failure: the kind and the message shown and logged.
#[derive(Clone, Debug)]
pub struct ClassifiedError {
    pub kind: ErrorKind,
    pub message: String,
}

/// What a filesystem probe of the expanded `path_check` target observed.
#[derive(Clone, Copy, Debug, PartialEq, Eq, Structural)]
pub enum PathProbe {
    /// The path does not exist.
    Missing,
    /// The path is a directory whose entry iterator yields nothing.
    EmptyDir,
    /// The path is a directory with at least one entry.
    NonEmptyDir,
    /// The path exists but is not a directory.
    NotADirectory,
}

/// What came back from handing the expanded command to the shell.
#[derive(Clone, Debug)]
pub enum SpawnOutcome {
    /// The process ran to completion with the given exit verdict and
    /// captured output.
    Completed { success: bool, stdout: String, stderr: String },
    /// The process could not be created; the text of the launch error.
    SpawnError { message: String },
}

// --- the exact message for each outcome -------------------------------------

pub open spec fn msg_path_missing(path: Seq<char>) -> Seq<char> {
    "清理路径不存在: "@ + path + "\n无需清理，跳过此任务"@
}

pub open spec fn msg_already_empty(path: Seq<char>) -> Seq<char> {
    "目录为空: "@ + path + "\n无需清理，跳过此任务"@
}

pub open spec fn msg_safety_refused(prefix: Seq<char>) -> Seq<char> {
    "safety-refused: "@ + prefix
}

pub open spec fn msg_access_denied(stderr_trimmed: Seq<char>) -> Seq<char> {
    "权限不足: "@ + stderr_trimmed + "\n请尝试以管理员身份运行程序"@
}

pub open spec fn msg_not_found(stderr_trimmed: Seq<char>) -> Seq<char> {
    "文件或目录不存在: "@ + stderr_trimmed + "\n可能已被其他程序清理"@
}

pub open spec fn msg_in_use(stderr_trimmed: Seq<char>) -> Seq<char> {
    "文件正在被使用: "@ + stderr_trimmed + "\n请关闭相关程序后重试"@
}

pub open spec fn msg_failed_with_detail(stderr_trimmed: Seq<char>, stdout_trimmed: Seq<char>) -> Seq<
    char,
> {
    "执行失败: "@ + stderr_trimmed + "\n详细信息: "@ + stdout_trimmed
}

pub open spec fn msg_failed(stderr_trimmed: Seq<char>) -> Seq<char> {
    "执行失败: "@ + stderr_trimmed
}

pub open spec fn msg_command_missing() -> Seq<char> {
    "系统命令执行失败: 找不到指定的命令或程序"@
}

pub open spec fn msg_spawn_access_denied() -> Seq<char> {
    "系统命令执行失败: 权限不足，请以管理员身份运行"@
}

pub open spec fn msg_spawn_failed(error_text: Seq<char>) -> Seq<char> {
    "系统命令执行错误: "@ + error_text
}

// --- pre-flight: path gate, expansion, safety filter -------------------------

/// The error the path gate stops a run with, when it does: a missing
/// target fails with `PathMissing`, an empty target directory with
/// `AlreadyEmpty`; any other observation lets the run proceed.
pub open spec fn gate_error(t: TaskView, env: EnvVars, probe: Option<PathProbe>) -> Option<
    (ErrorKind, Seq<char>),
> {
    match t.path_check {
        Some(raw) => {
            let path = spec_expand(raw, env);
            match probe {
                Some(PathProbe::Missing) => Some((ErrorKind::PathMissing, msg_path_missing(path))),
                Some(PathProbe::EmptyDir) => Some(
                    (ErrorKind::AlreadyEmpty, msg_already_empty(path)),
                ),
                _ => None,
            }
        },
        None => None,
    }
}

/// Everything the executor decides before a process is created: either
/// the expanded command to run, or the classified refusal (path gate
/// first, then the safety filter on the expanded command).
pub open spec fn spec_plan(t: TaskView, env: EnvVars, probe: Option<PathProbe>) -> Result<
    Seq<char>,
    (ErrorKind, Seq<char>),
> {
    match gate_error(t, env, probe) {
        Some(e) => Err(e),
        None => {
            let cmd = spec_expand(t.command, env);
            match veto_prefix(cmd) {
                Some(prefix) => Err((ErrorKind::SafetyRefused, msg_safety_refused(prefix))),
                None => Ok(cmd),
            }
        },
    }
}

/// Runs the pre-flight pipeline of one task: the path gate on the probed
/// target, expansion of the command, and the protected-path filter.
/// `probe` is the caller's observation of the expanded `path_check`
/// target and accompanies exactly the path-gated tasks. `Ok` carries the
/// expanded command for the shell; `Err` means no process is to be
/// created.
pub fn plan_run(task: &Task, env: &EnvVars, probe: Option<PathProbe>) -> (r: Result<
    String,
    ClassifiedError,
>)
    requires
        probe is Some <==> task@.path_check is Some,
    ensures
        r matches Ok(cmd) ==> spec_plan(task@, *env, probe) == Ok::<Seq<char>, (ErrorKind, Seq<char>)>(cmd@),
        r matches Err(e) ==> spec_plan(task@, *env, probe) == Err::<Seq<char>, (ErrorKind, Seq<char>)>(
            (e.kind, e.message@),
        ),
{
    if let Some(p) = &task.path_check {
        let expanded = env.expand(p.as_str());
        match probe {
            Some(PathProbe::Missing) => {
                let mut m = String::from_str("清理路径不存在: ");
                m.append(expanded.as_str());
                m.append("\n无需清理，跳过此任务");
                return Err(ClassifiedError { kind: ErrorKind::PathMissing, message: m });
            },
            Some(PathProbe::EmptyDir) => {
                let mut m = String::from_str("目录为空: ");
                m.append(expanded.as_str());
                m.append("\n无需清理，跳过此任务");
                return Err(ClassifiedError { kind: ErrorKind::AlreadyEmpty, message: m });
            },
            _ => {},
        }
    }
    let cmd = env.expand(task.command.as_str());
    match safety_veto(cmd.as_str()) {
        Some(prefix) => {
            let mut m = String::from_str("safety-refused: ");
            m.append(prefix);
            Err(ClassifiedError { kind: ErrorKind::SafetyRefused, message: m })
        },
        None => Ok(cmd),
    }
}

// --- classification of what the shell reported -------------------------------

/// The executor's verdict on what came back from the shell. A successful
/// exit is `Ok`. A failed exit is classified by the well-known Windows
/// substrings in the captured stderr — access denied, file not found,
/// file in use — and otherwise reported verbatim, with the captured
/// stdout added when there is any. A launch failure is classified by the
/// text of the launch error.
pub open spec fn spec_classify(o: SpawnOutcome) -> Result<(), (ErrorKind, Seq<char>)> {
    match o {
        SpawnOutcome::Completed { success, stdout, stderr } => {
            if success {
                Ok(())
            } else if text_contains(stderr@, "拒绝访问"@) {
                Err((ErrorKind::AccessDenied, msg_access_denied(trimmed(stderr@))))
            } else if text_contains(stderr@, "找不到文件"@) {
                Err((ErrorKind::NotFound, msg_not_found(trimmed(stderr@))))
            } else if text_contains(stderr@, "正在使用"@) {
                Err((ErrorKind::InUse, msg_in_use(trimmed(stderr@))))
            } else if stdout@.len() != 0 {
                Err((ErrorKind::Generic, msg_failed_with_detail(trimmed(stderr@), trimmed(stdout@))))
            } else {
                Err((ErrorKind::Generic, msg_failed(trimmed(stderr@))))
            }
        },
        SpawnOutcome::SpawnError { message } => {
            if text_contains(message@, "找不到指定的文件"@) {
                Err((ErrorKind::CommandMissing, msg_command_missing()))
            } else if text_contains(message@, "拒绝访问"@) {
                Err((ErrorKind::AccessDenied, msg_spawn_access_denied()))
            } else {
                Err((ErrorKind::SpawnFailed, msg_spawn_failed(message@)))
            }
        },
    }
}

/// Classifies the shell's outcome for one task.
pub fn classify_outcome(outcome: &SpawnOutcome) -> (r: Result<(), ClassifiedError>)
    ensures
        r is Ok <==> spec_classify(*outcome) is Ok,
        r matches Err(e) ==> spec_classify(*outcome) == Err::<(), (ErrorKind, Seq<char>)>(
            (e.kind, e.message@),
        ),
{
    match outcome {
        SpawnOutcome::Completed { success, stdout, stderr } => {
            if *success {
                Ok(())
            } else if str_contains(stderr.as_str(), "拒绝访问") {
                let t = trim_text(stderr.as_str());
                let mut m = String::from_str("权限不足: ");
                m.append(t.as_str());
                m.append("\n请尝试以管理员身份运行程序");
                Err(ClassifiedError { kind: ErrorKind::AccessDenied, message: m })
            } else if str_contains(stderr.as_str(), "找不到文件") {
                let t = trim_text(stderr.as_str());
                let mut m = String::from_str("文件或目录不存在: ");
                m.append(t.as_str());
                m.append("\n可能已被其他程序清理");
                Err(ClassifiedError { kind: ErrorKind::NotFound, message: m })
            } else if str_contains(stderr.as_str(), "正在使用") {
                let t = trim_text(stderr.as_str());
                let mut m = String::from_str("文件正在被使用: ");
                m.append(t.as_str());
                m.append("\n请关闭相关程序后重试");
                Err(ClassifiedError { kind: ErrorKind::InUse, message: m })
            } else if !stdout.as_str().is_empty() {
                let te = trim_text(stderr.as_str());
                let to = trim_text(stdout.as_str());
                let mut m = String::from_str("执行失败: ");
                m.append(te.as_str());
                m.append("\n详细信息: ");
                m.append(to.as_str());
                Err(ClassifiedError { kind: ErrorKind::Generic, message: m })
            } else {
                let te = trim_text(stderr.as_str());
                let mut m = String::from_str("执行失败: ");
                m.append(te.as_str());
                Err(ClassifiedError { kind: ErrorKind::Generic, message: m })
            }
        },
        SpawnOutcome::SpawnError { message } => {
            if str_contains(message.as_str(), "找不到指定的文件") {
                let m = String::from_str("系统命令执行失败: 找不到指定的命令或程序");
                Err(ClassifiedError { kind: ErrorKind::CommandMissing, message: m })
            } else if str_contains(message.as_str(), "拒绝访问") {
                let m = String::from_str("系统命令执行失败: 权限不足，请以管理员身份运行");
                Err(ClassifiedError { kind: ErrorKind::AccessDenied, message: m })
            } else {
                let mut m = String::from_str("系统命令执行错误: ");
                m.append(message.as_str());
                Err(ClassifiedError { kind: ErrorKind::SpawnFailed, message: m })
            }
        },
    }
}

/// Law: a path-gated task whose target is gone or holds nothing fails its
/// pre-flight check with exactly `PathMissing` or `AlreadyEmpty`, and no
/// command comes out to run. So a second run of a task whose first run
/// consumed its single target directory stops at one of these two
/// outcomes instead of succeeding again.
pub proof fn lemma_rerun_of_consumed_target_stops(
    t: TaskView,
    env: EnvVars,
    probe: Option<PathProbe>,
)
    requires
        t.path_check is Some,
        probe == Some(PathProbe::Missing) || probe == Some(PathProbe::EmptyDir),
    ensures
        spec_plan(t, env, probe) is Err,
        probe == Some(PathProbe::Missing) ==> (spec_plan(t, env, probe) matches Err(e) && e.0
            == ErrorKind::PathMissing),
        probe == Some(PathProbe::EmptyDir) ==> (spec_plan(t, env, probe) matches Err(e) && e.0
            == ErrorKind::AlreadyEmpty),
{
}

} // verus!
