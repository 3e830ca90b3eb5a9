use vstd::prelude::*;
use vstd::string::*;
use crate::executor::ClassifiedError;
use crate::task::{AppState, CleanupStats};

verus! {

// The batch orchestrator's bookkeeping. The caller walks the selection in
// order, runs each resolved task, and records the outcome here together
// with the size of the task's target measured before and after the run;
// no outcome ever aborts the batch. At the end the accumulator becomes a
// `CleanupStats` and the final published state.

/// `a + b`, capped at the largest byte count.
pub open spec fn sat_add_u64(a: u64, b: u64) -> u64 {
    if a + b > u64::MAX {
        u64::MAX
    } else {
        (a + b) as u64
    }
}

/// The bytes a task's run reclaimed: the drop from the size measured
/// before the run to the size measured after it, and zero unless both
/// measurements are known and the size actually dropped.
pub open spec fn measured_delta(before: Option<u64>, after: Option<u64>) -> u64 {
    match (before, after) {
        (Some(b), Some(a)) => if b > a {
            (b - a) as u64
        } else {
            0
        },
        _ => 0,
    }
}

/// The accumulator of one batch run.
#[derive(Clone, Debug)]
pub struct BatchRun {
    /// How many tasks the selection holds.
    pub total: usize,
    /// How many outcomes were recorded so far.
    pub completed: usize,
    /// How many of them succeeded.
    pub successful: usize,
    /// How many of them failed.
    pub failed: usize,
    /// The reclaimed bytes summed over the successful tasks.
    pub freed: u64,
    /// One `<task name>: <message>` line per failed task, in order.
    pub errors: Vec<String>,
}

impl BatchRun {
    /// Every recorded outcome is either a success or a failure, nothing
    /// was recorded beyond the selection, and each failure left its line.
    pub open spec fn wf(self) -> bool {
        &&& self.completed == self.successful + self.failed
        &&& self.completed <= self.total
        &&& self.failed == self.errors@.len()
    }

    /// A fresh accumulator for a selection of `total` tasks.
    pub fn new(total: usize) -> (r: BatchRun)
        ensures
            r.wf(),
            r.total == total,
            r.completed == 0,
            r.successful == 0,
            r.failed == 0,
            r.freed == 0,
            r.errors@.len() == 0,
    {
        BatchRun { total, completed: 0, successful: 0, failed: 0, freed: 0, errors: Vec::new() }
    }

    /// Records one successful task, adding the measured drop of its
    /// target's size — when both measurements are known — to the
    /// reclaimed total.
    pub fn record_success(&mut self, before: Option<u64>, after: Option<u64>)
        requires
            old(self).wf(),
            old(self).completed < old(self).total,
        ensures
            final(self).wf(),
            final(self).total == old(self).total,
            final(self).completed == old(self).completed + 1,
            final(self).successful == old(self).successful + 1,
            final(self).failed == old(self).failed,
            final(self).freed == sat_add_u64(old(self).freed, measured_delta(before, after)),
            final(self).errors == old(self).errors,
    {
        let delta: u64 = match (before, after) {
            (Some(b), Some(a)) => if b > a {
                b - a
            } else {
                0
            },
            _ => 0,
        };
        self.freed = self.freed.saturating_add(delta);
        self.successful = self.successful + 1;
        self.completed = self.completed + 1;
    }

    /// Records one failed task and its error line.
    pub fn record_failure(&mut self, task_name: &str, error: &ClassifiedError)
        requires
            old(self).wf(),
            old(self).completed < old(self).total,
        ensures
            final(self).wf(),
            final(self).total == old(self).total,
            final(self).completed == old(self).completed + 1,
            final(self).successful == old(self).successful,
            final(self).failed == old(self).failed + 1,
            final(self).freed == old(self).freed,
            final(self).errors.deep_view() == old(self).errors.deep_view().push(
                task_name@ + ": "@ + error.message@,
            ),
    {
        let mut line = String::from_str(task_name);
        line.append(": ");
        line.append(error.message.as_str());
        self.errors.push(line);
        self.failed = self.failed + 1;
        self.completed = self.completed + 1;
        proof {
            assert(self.errors.deep_view() =~= old(self).errors.deep_view().push(
                task_name@ + ": "@ + error.message@,
            ));
        }
    }

    /// Records the outcome of one task, as the orchestrator's loop sees
    /// it: a success counts and may add reclaimed bytes, a failure counts
    /// and leaves its `<task name>: <message>` line; either way the batch
    /// goes on.
    pub fn record_outcome(
        &mut self,
        task_name: &str,
        outcome: &Result<(), ClassifiedError>,
        before: Option<u64>,
        after: Option<u64>,
    )
        requires
            old(self).wf(),
            old(self).completed < old(self).total,
        ensures
            final(self).wf(),
            final(self).total == old(self).total,
            final(self).completed == old(self).completed + 1,
            outcome is Ok ==> {
                &&& final(self).successful == old(self).successful + 1
                &&& final(self).failed == old(self).failed
                &&& final(self).freed == sat_add_u64(old(self).freed, measured_delta(before, after))
                &&& final(self).errors == old(self).errors
            },
            outcome matches Err(e) ==> {
                &&& final(self).successful == old(self).successful
                &&& final(self).failed == old(self).failed + 1
                &&& final(self).freed == old(self).freed
                &&& final(self).errors.deep_view() == old(self).errors.deep_view().push(
                    task_name@ + ": "@ + e.message@,
                )
            },
    {
        match outcome {
            Ok(_) => self.record_success(before, after),
            Err(e) => self.record_failure(task_name, e),
        }
    }

    /// The report of the finished batch: the counts as recorded, and the
    /// reclaimed total only when it is not zero.
    pub fn into_stats(self) -> (s: CleanupStats)
        requires
            self.wf(),
        ensures
            s.total_tasks == self.total,
            s.successful_tasks == self.successful,
            s.failed_tasks == self.failed,
            s.total_space_freed == if self.freed > 0 {
                Some(self.freed)
            } else {
                None::<u64>
            },
            s.errors == self.errors,
            s.failed_tasks == s.errors@.len(),
    {
        CleanupStats {
            total_tasks: self.total,
            successful_tasks: self.successful,
            failed_tasks: self.failed,
            total_space_freed: if self.freed > 0 {
                Some(self.freed)
            } else {
                None
            },
            errors: self.errors,
        }
    }
}

/// The state published when a batch ends: plain `Success` when every task
/// succeeded, `SuccessWithStats` carrying the report when any failed.
pub fn batch_final_state(stats: CleanupStats) -> (st: AppState)
    ensures
        stats.failed_tasks > 0 ==> st == AppState::SuccessWithStats(stats),
        stats.failed_tasks == 0 ==> st == AppState::Success,
{
    if stats.failed_tasks > 0 {
        AppState::SuccessWithStats(stats)
    } else {
        AppState::Success
    }
}

} // verus!
