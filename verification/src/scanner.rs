use vstd::prelude::*;

verus! {

/// Counts of one scan over detected tasks.
#[derive(Debug, Clone, Copy, PartialEq, Eq, Structural)]
pub struct ScanSummary {
    pub discovered: usize,
    pub skipped_existing: usize,
    pub processed: usize,
}

/// What a scan does with the next detected task.
#[derive(Debug, Clone, Copy, PartialEq, Eq, Structural)]
pub enum ScanStep {
    /// The task was recorded before: leave it alone.
    SkipExisting,
    /// The task is new: process it.
    Process,
}

/// The counts after deciding one more task; `already_recorded` tells whether the
/// store held the task before.
pub open spec fn scan_next(summary: ScanSummary, already_recorded: bool) -> ScanSummary {
    if already_recorded {
        ScanSummary { skipped_existing: (summary.skipped_existing + 1) as usize, ..summary }
    } else {
        ScanSummary { processed: (summary.processed + 1) as usize, ..summary }
    }
}

/// The counts after deciding the tasks in order, given for each whether the
/// store held it when its turn came.
pub open spec fn scan_fold(summary: ScanSummary, recorded: Seq<bool>) -> ScanSummary
    decreases recorded.len(),
{
    if recorded.len() == 0 {
        summary
    } else {
        scan_next(scan_fold(summary, recorded.drop_last()), recorded.last())
    }
}

/// Number of `true` entries.
pub open spec fn count_true(flags: Seq<bool>) -> nat
    decreases flags.len(),
{
    if flags.len() == 0 {
        0
    } else {
        count_true(flags.drop_last()) + if flags.last() {
            1nat
        } else {
            0nat
        }
    }
}

/// Starts a scan over `task_count` detected tasks.
pub fn scan_begin(task_count: usize) -> (summary: ScanSummary)
    ensures
        summary == (ScanSummary { discovered: task_count, skipped_existing: 0, processed: 0 }),
{
    ScanSummary { discovered: task_count, skipped_existing: 0, processed: 0 }
}

/// Decides the next task of a scan: a task the store already holds is skipped,
/// a new one is processed; the matching count goes up by one.
pub fn scan_step(summary: ScanSummary, already_recorded: bool) -> (result: (ScanSummary, ScanStep))
    requires
        summary.skipped_existing + summary.processed < summary.discovered,
    ensures
        result.0 == scan_next(summary, already_recorded),
        result.1 == (if already_recorded {
            ScanStep::SkipExisting
        } else {
            ScanStep::Process
        }),
{
    if already_recorded {
        (
            ScanSummary { skipped_existing: summary.skipped_existing + 1, ..summary },
            ScanStep::SkipExisting,
        )
    } else {
        (ScanSummary { processed: summary.processed + 1, ..summary }, ScanStep::Process)
    }
}

/// A finished scan accounts for every discovered task exactly once: the skipped
/// ones are those already recorded, the others are processed.
pub proof fn law_scan_accounts_for_every_task(task_count: usize, recorded: Seq<bool>)
    requires
        recorded.len() == task_count,
    ensures
        ({
            let done = scan_fold(
                ScanSummary { discovered: task_count, skipped_existing: 0, processed: 0 },
                recorded,
            );
            &&& done.discovered == task_count
            &&& done.skipped_existing == count_true(recorded)
            &&& done.processed == recorded.len() - count_true(recorded)
            &&& done.skipped_existing + done.processed == done.discovered
        }),
{
    lemma_scan_fold_counts(task_count, recorded);
}

proof fn lemma_scan_fold_counts(task_count: usize, recorded: Seq<bool>)
    requires
        recorded.len() <= task_count,
    ensures
        ({
            let done = scan_fold(
                ScanSummary { discovered: task_count, skipped_existing: 0, processed: 0 },
                recorded,
            );
            &&& done.discovered == task_count
            &&& done.skipped_existing == count_true(recorded)
            &&& done.processed == recorded.len() - count_true(recorded)
        }),
    decreases recorded.len(),
{
    if recorded.len() > 0 {
        lemma_scan_fold_counts(task_count, recorded.drop_last());
        lemma_count_true_bounded(recorded.drop_last());
    }
}

proof fn lemma_count_true_bounded(flags: Seq<bool>)
    ensures
        count_true(flags) <= flags.len(),
    decreases flags.len(),
{
    if flags.len() > 0 {
        lemma_count_true_bounded(flags.drop_last());
    }
}

} // verus!
