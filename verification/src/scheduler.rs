use vstd::prelude::*;
use vstd::string::StringExecFns;

use crate::domain::task::TaskRecord;

verus! {

/// Largest number of tasks whose titles a merged notification lists.
pub const MAX_VISIBLE_TITLES: usize = 10;

/// Summary of the tasks merged into one delayed notification.
#[derive(Debug, Clone, PartialEq, Eq)]
pub struct MergeSummary {
    pub rule_id: String,
    pub task_count: usize,
    pub success_count: usize,
    pub failure_count: usize,
    pub longest_duration_seconds: u64,
    pub visible_titles: Vec<String>,
}

/// Number of successful tasks.
pub open spec fn count_successes(tasks: Seq<TaskRecord>) -> nat
    decreases tasks.len(),
{
    if tasks.len() == 0 {
        0
    } else {
        count_successes(tasks.drop_last()) + if tasks.last().success {
            1nat
        } else {
            0nat
        }
    }
}

/// Number of failed tasks.
pub open spec fn count_failures(tasks: Seq<TaskRecord>) -> nat
    decreases tasks.len(),
{
    if tasks.len() == 0 {
        0
    } else {
        count_failures(tasks.drop_last()) + if tasks.last().success {
            0nat
        } else {
            1nat
        }
    }
}

/// The longest task duration, 0 when there is no task.
pub open spec fn longest_duration(tasks: Seq<TaskRecord>) -> u64
    decreases tasks.len(),
{
    if tasks.len() == 0 {
        0
    } else {
        let rest = longest_duration(tasks.drop_last());
        if tasks.last().duration_seconds > rest {
            tasks.last().duration_seconds
        } else {
            rest
        }
    }
}

/// The titles a summary shows: all of them, in order, for at most ten tasks, and
/// none beyond that.
pub open spec fn visible_titles(tasks: Seq<TaskRecord>) -> Seq<String> {
    if tasks.len() <= MAX_VISIBLE_TITLES {
        tasks.map_values(|task: TaskRecord| task.title)
    } else {
        Seq::empty()
    }
}

/// Builds the summary of the tasks merged under one rule.
pub fn build_merge_summary(rule_id: &str, tasks: &[TaskRecord]) -> (summary: MergeSummary)
    ensures
        summary.rule_id@ == rule_id@,
        summary.task_count == tasks@.len(),
        summary.success_count == count_successes(tasks@),
        summary.failure_count == count_failures(tasks@),
        summary.longest_duration_seconds == longest_duration(tasks@),
        summary.visible_titles@ == visible_titles(tasks@),
        tasks@.len() > 10 ==> summary.visible_titles@.len() == 0,
        tasks@.len() <= 10 ==> summary.visible_titles@.len() == tasks@.len() && forall|i: int|
            0 <= i < tasks@.len() ==> #[trigger] summary.visible_titles@[i] == tasks@[i].title,
{
    let n = tasks.len();
    let mut success_count: usize = 0;
    let mut failure_count: usize = 0;
    let mut longest: u64 = 0;
    let mut titles: Vec<String> = Vec::new();
    let mut i: usize = 0;
    while i < n
        invariant
            n == tasks@.len(),
            i <= n,
            success_count == count_successes(tasks@.take(i as int)),
            failure_count == count_failures(tasks@.take(i as int)),
            success_count + failure_count == i,
            longest == longest_duration(tasks@.take(i as int)),
            titles@ == tasks@.take(i as int).map_values(|task: TaskRecord| task.title),
        decreases n - i,
    {
        let task = &tasks[i];
        proof {
            assert(tasks@.take(i as int + 1).drop_last() =~= tasks@.take(i as int));
            assert(tasks@.take(i as int + 1).last() == tasks@[i as int]);
        }
        if task.success {
            success_count += 1;
        } else {
            failure_count += 1;
        }
        if task.duration_seconds > longest {
            longest = task.duration_seconds;
        }
        titles.push(task.title.clone());
        proof {
            assert(titles@ =~= tasks@.take(i as int + 1).map_values(|task: TaskRecord| task.title));
        }
        i += 1;
    }
    proof {
        assert(tasks@.take(n as int) =~= tasks@);
    }
    let shown = if n <= MAX_VISIBLE_TITLES {
        titles
    } else {
        Vec::new()
    };
    proof {
        assert(shown@ =~= visible_titles(tasks@));
    }
    MergeSummary {
        rule_id: String::from_str(rule_id),
        task_count: n,
        success_count,
        failure_count,
        longest_duration_seconds: longest,
        visible_titles: shown,
    }
}

proof fn lemma_remove_one_task(tasks: Seq<TaskRecord>, i: int)
    requires
        0 <= i < tasks.len(),
    ensures
        count_successes(tasks) == count_successes(tasks.remove(i)) + if tasks[i].success {
            1nat
        } else {
            0nat
        },
        count_failures(tasks) == count_failures(tasks.remove(i)) + if tasks[i].success {
            0nat
        } else {
            1nat
        },
        longest_duration(tasks) == (if tasks[i].duration_seconds > longest_duration(
            tasks.remove(i),
        ) {
            tasks[i].duration_seconds
        } else {
            longest_duration(tasks.remove(i))
        }),
    decreases tasks.len(),
{
    let last = tasks.len() - 1;
    if i == last {
        assert(tasks.remove(i) =~= tasks.drop_last());
    } else {
        let rest = tasks.drop_last();
        lemma_remove_one_task(rest, i);
        let removed = tasks.remove(i);
        assert(removed.drop_last() =~= rest.remove(i));
        assert(removed.last() == tasks.last());
        assert(rest[i] == tasks[i]);
    }
}

proof fn lemma_titles_multiset(tasks: Seq<TaskRecord>, reordered: Seq<TaskRecord>)
    requires
        tasks.to_multiset() == reordered.to_multiset(),
    ensures
        tasks.map_values(|task: TaskRecord| task.title).to_multiset() == reordered.map_values(
            |task: TaskRecord| task.title,
        ).to_multiset(),
    decreases tasks.len(),
{
    broadcast use vstd::seq_lib::group_to_multiset_ensures;

    let title = |task: TaskRecord| task.title;
    if tasks.len() == 0 {
        assert(reordered.to_multiset().len() == 0);
        assert(reordered.len() == 0);
        assert(tasks.map_values(title) =~= Seq::<String>::empty());
        assert(reordered.map_values(title) =~= Seq::<String>::empty());
    } else {
        let x = tasks.last();
        let rest = tasks.drop_last();
        assert(tasks =~= rest.push(x));
        vstd::seq_lib::to_multiset_build(rest, x);
        assert(reordered.to_multiset().count(x) > 0);
        assert(reordered.contains(x));
        let i = choose|i: int| 0 <= i < reordered.len() && reordered[i] == x;
        vstd::seq_lib::to_multiset_remove(reordered, i);
        let others = reordered.remove(i);
        assert(others.to_multiset() =~= rest.to_multiset());
        lemma_titles_multiset(rest, others);
        assert(tasks.map_values(title) =~= rest.map_values(title).push(x.title));
        vstd::seq_lib::to_multiset_build(rest.map_values(title), x.title);
        assert(others.map_values(title) =~= reordered.map_values(title).remove(i));
        vstd::seq_lib::to_multiset_remove(reordered.map_values(title), i);
        assert(reordered.map_values(title)[i] == x.title);
        assert(reordered.map_values(title).to_multiset().count(x.title) > 0);
        assert(reordered.map_values(title).to_multiset() =~= others.map_values(
            title,
        ).to_multiset().insert(x.title));
    }
}

/// A merge summary does not depend on the order of the tasks: reordering them
/// keeps every count and the longest duration, and shows the same titles.
pub proof fn law_merge_summary_ignores_task_order(
    tasks: Seq<TaskRecord>,
    reordered: Seq<TaskRecord>,
)
    requires
        tasks.to_multiset() == reordered.to_multiset(),
    ensures
        tasks.len() == reordered.len(),
        count_successes(tasks) == count_successes(reordered),
        count_failures(tasks) == count_failures(reordered),
        longest_duration(tasks) == longest_duration(reordered),
        visible_titles(tasks).to_multiset() == visible_titles(reordered).to_multiset(),
    decreases tasks.len(),
{
    broadcast use vstd::seq_lib::group_to_multiset_ensures;

    if tasks.len() == 0 {
        assert(reordered.to_multiset().len() == 0);
    } else {
        let x = tasks.last();
        let rest = tasks.drop_last();
        assert(tasks =~= rest.push(x));
        vstd::seq_lib::to_multiset_build(rest, x);
        assert(reordered.to_multiset().count(x) > 0);
        assert(reordered.contains(x));
        let i = choose|i: int| 0 <= i < reordered.len() && reordered[i] == x;
        vstd::seq_lib::to_multiset_remove(reordered, i);
        let others = reordered.remove(i);
        assert(others.to_multiset() =~= rest.to_multiset());
        law_merge_summary_ignores_task_order(rest, others);
        lemma_remove_one_task(reordered, i);
    }
    lemma_titles_multiset(tasks, reordered);
}

/// Titles are shown by the number of merged tasks alone: every title, in task
/// order, for ten tasks or fewer, and none for more than ten, whatever the
/// tasks' success flags.
pub proof fn law_titles_shown_for_at_most_ten_tasks(tasks: Seq<TaskRecord>)
    ensures
        tasks.len() > 10 ==> visible_titles(tasks).len() == 0,
        tasks.len() <= 10 ==> visible_titles(tasks).len() == tasks.len() && forall|i: int|
            0 <= i < tasks.len() ==> #[trigger] visible_titles(tasks)[i] == tasks[i].title,
{
}

/// Every merged task is counted exactly once, as a success or as a failure.
pub proof fn law_successes_and_failures_partition(tasks: Seq<TaskRecord>)
    ensures
        count_successes(tasks) + count_failures(tasks) == tasks.len(),
    decreases tasks.len(),
{
    if tasks.len() > 0 {
        law_successes_and_failures_partition(tasks.drop_last());
    }
}

/// The longest duration bounds every task's duration and, when there are tasks,
/// is the duration of one of them.
pub proof fn law_longest_duration_is_maximum(tasks: Seq<TaskRecord>)
    ensures
        forall|i: int|
            0 <= i < tasks.len() ==> #[trigger] tasks[i].duration_seconds <= longest_duration(tasks),
        tasks.len() > 0 ==> exists|i: int|
            0 <= i < tasks.len() && #[trigger] tasks[i].duration_seconds == longest_duration(tasks),
        tasks.len() == 0 ==> longest_duration(tasks) == 0,
    decreases tasks.len(),
{
    if tasks.len() > 0 {
        let rest = tasks.drop_last();
        law_longest_duration_is_maximum(rest);
        assert forall|i: int| 0 <= i < tasks.len() implies #[trigger] tasks[i].duration_seconds
            <= longest_duration(tasks) by {
            if i < tasks.len() - 1 {
                assert(tasks[i] == rest[i]);
            }
        }
        if tasks.last().duration_seconds > longest_duration(rest) {
            assert(tasks[tasks.len() - 1].duration_seconds == longest_duration(tasks));
        } else if rest.len() > 0 {
            let k = choose|k: int| 0 <= k < rest.len() && #[trigger] rest[k].duration_seconds
                == longest_duration(rest);
            assert(tasks[k] == rest[k]);
        } else {
            assert(tasks[0].duration_seconds == longest_duration(tasks));
        }
    }
}

} // verus!
