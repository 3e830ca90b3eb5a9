use vstd::prelude::*;
use vstd::string::*;
use crate::executor::ClassifiedError;
use crate::sizefmt::{dec_digits, decimal_of};
use crate::task::AppState;

verus! {

// The single-writer state slot. The engine writes a value after each
// step; readers only ever observe the latest value. Terminal values
// (`Success`, `SuccessWithStats`, `Error`) persist until the next
// invocation publishes `Running` again — the slot itself never moves.

/// The engine's state slot.
#[derive(Debug)]
pub struct StatePublisher {
    state: AppState,
}

impl StatePublisher {
    /// The value the slot holds.
    pub closed spec fn current(&self) -> AppState {
        self.state
    }

    /// A fresh slot, idle.
    pub fn new() -> (r: StatePublisher)
        ensures
            r.current() == AppState::Idle,
    {
        StatePublisher { state: AppState::Idle }
    }

    /// Publishes a new state value.
    pub fn publish(&mut self, s: AppState)
        ensures
            final(self).current() == s,
    {
        self.state = s;
    }

    /// The latest published value.
    pub fn read(&self) -> (r: &AppState)
        ensures
            *r == self.current(),
    {
        &self.state
    }

    /// Publishes the end of a single-task run: `Success` on a clean
    /// exit, `Error` carrying the classified message otherwise.
    pub fn publish_outcome(&mut self, outcome: &Result<(), ClassifiedError>)
        ensures
            outcome is Ok ==> final(self).current() == AppState::Success,
            outcome matches Err(e) ==> (final(self).current() matches AppState::Error(m) && m@
                == e.message@),
    {
        match outcome {
            Ok(_) => {
                self.state = AppState::Success;
            },
            Err(e) => {
                self.state = AppState::Error(e.message.clone());
            },
        }
    }
}

/// The running banner of a single-task run.
pub fn running_single_text(task_name: &str) -> (r: String)
    ensures
        r@ == "正在执行: "@ + task_name@,
{
    let mut m = String::from_str("正在执行: ");
    m.append(task_name);
    m
}

/// The running banner the batch publishes before each task.
pub fn running_batch_text(task_name: &str) -> (r: String)
    ensures
        r@ == "正在清理: "@ + task_name@,
{
    let mut m = String::from_str("正在清理: ");
    m.append(task_name);
    m
}

/// The banner a batch of `count` tasks starts under.
pub fn batch_start_text(count: u64) -> (r: String)
    ensures
        r@ == "批量清理 "@ + dec_digits(count as nat) + " 个任务"@,
{
    let mut m = String::from_str("批量清理 ");
    let n = decimal_of(count);
    m.append(n.as_str());
    m.append(" 个任务");
    m
}

} // verus!
