use vstd::prelude::*;
use vstd::string::*;
use crate::envvars::{EnvVars, spec_expand};
use crate::sizefmt::{format_size, size_label};

verus! {

// The data model of the engine: a cleaning task, the category it belongs
// to, the statistics of a batch run, and the state value the engine
// publishes for the presentation layer.

/// The group a task is shown under. `Custom` is reserved for entries
/// loaded from the configuration file.
#[derive(Clone, Copy, Debug, PartialEq, Eq, Structural)]
pub enum CleanCategory {
    DevTools,
    AppCache,
    System,
    Custom,
}

/// One unit of cleanup work: a named, categorized shell command with an
/// optional pre-flight path check.
#[derive(Clone, Debug)]
pub struct Task {
    pub name: String,
    pub description: String,
    pub category: CleanCategory,
    pub command: String,
    pub path_check: Option<String>,
    pub requires_confirmation: bool,
    pub dangerous: bool,
    pub estimated_size: Option<String>,
    pub icon: Option<String>,
}

/// The mathematical image of a task: every text field as a character
/// sequence.
pub struct TaskView {
    pub name: Seq<char>,
    pub description: Seq<char>,
    pub category: CleanCategory,
    pub command: Seq<char>,
    pub path_check: Option<Seq<char>>,
    pub requires_confirmation: bool,
    pub dangerous: bool,
    pub estimated_size: Option<Seq<char>>,
    pub icon: Option<Seq<char>>,
}

/// The view of an optional string.
pub open spec fn opt_view(o: Option<String>) -> Option<Seq<char>> {
    match o {
        Some(s) => Some(s@),
        None => None,
    }
}

impl View for Task {
    type V = TaskView;

    open spec fn view(&self) -> TaskView {
        TaskView {
            name: self.name@,
            description: self.description@,
            category: self.category,
            command: self.command@,
            path_check: opt_view(self.path_check),
            requires_confirmation: self.requires_confirmation,
            dangerous: self.dangerous,
            estimated_size: opt_view(self.estimated_size),
            icon: opt_view(self.icon),
        }
    }
}

/// What a batch run reports: counts, the bytes reclaimed when at least one
/// measured delta was seen, and one line per failed task.
#[derive(Clone, Debug)]
pub struct CleanupStats {
    pub total_tasks: usize,
    pub successful_tasks: usize,
    pub failed_tasks: usize,
    pub total_space_freed: Option<u64>,
    pub errors: Vec<String>,
}

/// The engine's published state. Terminal values persist until the next
/// invocation moves the publisher back to `Running`.
#[derive(Clone, Debug)]
pub enum AppState {
    Idle,
    Running(String),
    Success,
    SuccessWithStats(CleanupStats),
    Error(String),
}

/// The sentinel label that asks for the size to be measured live.
pub open spec fn auto_label() -> Seq<char> {
    seq!['a', 'u', 't', 'o']
}

/// What the resolved size display of a task is, given the measured size
/// of its expanded `path_check` target (`measured` is `None` when the
/// path does not exist or was not measurable). An `estimated_size` other
/// than the `auto` sentinel is returned as it stands; `auto` without a
/// `path_check` falls back to the literal label.
pub open spec fn spec_resolved_size(t: TaskView, measured: Option<u64>) -> Option<Seq<char>> {
    match t.estimated_size {
        Some(e) => {
            if e == auto_label() && t.path_check is Some {
                match measured {
                    Some(b) => Some(size_label(b)),
                    None => None,
                }
            } else {
                Some(e)
            }
        },
        None => None,
    }
}

/// Law: a task whose `estimated_size` is the `auto` sentinel but which has
/// no `path_check` resolves to the literal label `auto` itself, whatever
/// the measurement argument holds.
pub proof fn lemma_auto_without_path_falls_back(t: TaskView, measured: Option<u64>)
    requires
        t.estimated_size == Some(auto_label()),
        t.path_check is None,
    ensures
        spec_resolved_size(t, measured) == Some(auto_label()),
{
}

impl Task {
    /// The expanded `path_check` target, when the task is path-gated.
    pub fn expanded_path_check(&self, env: &EnvVars) -> (r: Option<String>)
        ensures
            match r {
                Some(p) => self@.path_check matches Some(raw) && p@ == spec_expand(raw, *env),
                None => self@.path_check is None,
            },
    {
        match &self.path_check {
            Some(p) => Some(env.expand(p.as_str())),
            None => None,
        }
    }

    /// The size display shown beside a catalog entry: the
    /// `estimated_size` label, except that the `auto` sentinel on a path-gated task
    /// resolves to the formatted measurement handed in (the measured size
    /// of the expanded `path_check` target, `None` when that path does
    /// not exist or could not be traversed).
    pub fn resolve_estimated_size(&self, measured: Option<u64>) -> (r: Option<String>)
        ensures
            opt_view(r) == spec_resolved_size(self@, measured),
    {
        match &self.estimated_size {
            Some(e) => {
                let auto = String::from_str("auto");
                proof {
                    reveal_strlit("auto");
                    assert(auto@ =~= auto_label());
                }
                if *e == auto && self.path_check.is_some() {
                    match measured {
                        Some(b) => Some(format_size(b)),
                        None => None,
                    }
                } else {
                    Some(e.clone())
                }
            },
            None => None,
        }
    }
}

} // verus!
