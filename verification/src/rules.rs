use vstd::prelude::*;

use crate::domain::decision::NotificationDecision;
use crate::domain::rule::{
    DurationCondition, DurationRange, NotificationRule, OutsideWindowPolicy, TimeWindow,
    TimeWindowCondition,
};
use crate::domain::task::{TaskRecord, Weekday};

verus! {

/// A duration range accepts `d` when `min <= d` and, if it has a maximum, `d <= max`.
pub open spec fn range_accepts(range: DurationRange, d: u64) -> bool {
    &&& d >= range.min_seconds
    &&& match range.max_seconds {
        Some(max_seconds) => d <= max_seconds,
        None => true,
    }
}

/// `Any` accepts every duration; `Ranges` accepts a duration that some range accepts.
pub open spec fn duration_accepts(condition: DurationCondition, d: u64) -> bool {
    match condition {
        DurationCondition::Any => true,
        DurationCondition::Ranges(ranges) => exists|i: int|
            0 <= i < ranges@.len() && #[trigger] range_accepts(ranges@[i], d),
    }
}

/// A window accepts a moment when its weekday is listed and its second of the day
/// lies between start and end, both inclusive; a window whose start is after its
/// end wraps around midnight.
pub open spec fn window_accepts(window: TimeWindow, weekday: Weekday, seconds: u32) -> bool {
    &&& window.weekdays@.contains(weekday)
    &&& if window.start_seconds <= window.end_seconds {
        window.start_seconds <= seconds <= window.end_seconds
    } else {
        seconds >= window.start_seconds || seconds <= window.end_seconds
    }
}

/// `Always` accepts every moment; `Windows` accepts a moment that some window accepts.
pub open spec fn time_window_accepts(
    condition: TimeWindowCondition,
    weekday: Weekday,
    seconds: u32,
) -> bool {
    match condition {
        TimeWindowCondition::Always => true,
        TimeWindowCondition::Windows(windows) => exists|i: int|
            0 <= i < windows@.len() && #[trigger] window_accepts(windows@[i], weekday, seconds),
    }
}

/// A rule selects a task when it is enabled and accepts the task's duration.
pub open spec fn rule_selects(rule: NotificationRule, task: TaskRecord) -> bool {
    rule.enabled && duration_accepts(rule.duration, task.duration_seconds)
}

/// What a selecting rule decides: send now inside its time window, otherwise
/// discard or delay as its outside-window policy says.
pub open spec fn rule_decision(rule: NotificationRule, task: TaskRecord) -> NotificationDecision {
    if time_window_accepts(rule.time_window, task.completed_at_weekday, task.completed_at_seconds) {
        NotificationDecision::SendNow { rule_id: rule.id }
    } else {
        match rule.outside_window {
            OutsideWindowPolicy::Discard => NotificationDecision::Discard { rule_id: rule.id },
            OutsideWindowPolicy::Delay => NotificationDecision::Delay { rule_id: rule.id },
        }
    }
}

/// The decision for a task under ordered rules: the first selecting rule decides;
/// when none selects the task is ignored.
pub open spec fn decide(rules: Seq<NotificationRule>, task: TaskRecord) -> NotificationDecision
    decreases rules.len(),
{
    if rules.len() == 0 {
        NotificationDecision::Ignore
    } else if rule_selects(rules[0], task) {
        rule_decision(rules[0], task)
    } else {
        decide(rules.drop_first(), task)
    }
}

/// First match wins: when rule `i` is the first rule that selects the task, the
/// decision is the one rule `i` makes, whatever the other rules say.
pub proof fn law_first_selecting_rule_decides(
    rules: Seq<NotificationRule>,
    task: TaskRecord,
    i: int,
)
    requires
        0 <= i < rules.len(),
        rule_selects(rules[i], task),
        forall|j: int| 0 <= j < i ==> !#[trigger] rule_selects(rules[j], task),
    ensures
        decide(rules, task) == rule_decision(rules[i], task),
    decreases i,
{
    if i > 0 {
        assert(!rule_selects(rules[0], task));
        let rest = rules.drop_first();
        assert forall|j: int| 0 <= j < i - 1 implies !#[trigger] rule_selects(rest[j], task) by {
            assert(rest[j] == rules[j + 1]);
        }
        law_first_selecting_rule_decides(rest, task, i - 1);
    }
}

/// A task is ignored exactly when no rule selects it (no rule is enabled and
/// accepts its duration).
pub proof fn law_ignored_iff_no_rule_selects(rules: Seq<NotificationRule>, task: TaskRecord)
    ensures
        (decide(rules, task) is Ignore) <==> (forall|j: int|
            0 <= j < rules.len() ==> !#[trigger] rule_selects(rules[j], task)),
    decreases rules.len(),
{
    if rules.len() > 0 {
        let rest = rules.drop_first();
        law_ignored_iff_no_rule_selects(rest, task);
        if !rule_selects(rules[0], task) {
            if decide(rules, task) is Ignore {
                assert forall|j: int| 0 <= j < rules.len() implies !#[trigger] rule_selects(
                    rules[j],
                    task,
                ) by {
                    if j > 0 {
                        assert(rules[j] == rest[j - 1]);
                    }
                }
            } else {
                let k = choose|k: int| 0 <= k < rest.len() && #[trigger] rule_selects(rest[k], task);
                assert(rules[k + 1] == rest[k]);
            }
        }
    }
}

/// A disabled rule never influences a decision: inserting one anywhere in the
/// list leaves every decision unchanged.
pub proof fn law_disabled_rule_is_irrelevant(
    rules: Seq<NotificationRule>,
    k: int,
    disabled: NotificationRule,
    task: TaskRecord,
)
    requires
        0 <= k <= rules.len(),
        !disabled.enabled,
    ensures
        decide(rules.insert(k, disabled), task) == decide(rules, task),
    decreases k,
{
    let with = rules.insert(k, disabled);
    if k == 0 {
        assert(with.drop_first() =~= rules);
    } else {
        let rest = rules.drop_first();
        assert(with.drop_first() =~= rest.insert(k - 1, disabled));
        assert(with[0] == rules[0]);
        law_disabled_rule_is_irrelevant(rest, k - 1, disabled, task);
    }
}

/// Rules after the first selecting rule never matter, and rules that do not
/// select the task can be dropped from the front.
pub proof fn law_rule_list_concatenation(
    first: Seq<NotificationRule>,
    second: Seq<NotificationRule>,
    task: TaskRecord,
)
    ensures
        (exists|j: int| 0 <= j < first.len() && #[trigger] rule_selects(first[j], task))
            ==> decide(first + second, task) == decide(first, task),
        (forall|j: int| 0 <= j < first.len() ==> !#[trigger] rule_selects(first[j], task))
            ==> decide(first + second, task) == decide(second, task),
    decreases first.len(),
{
    if first.len() == 0 {
        assert(first + second =~= second);
    } else {
        let rest = first.drop_first();
        assert((first + second).drop_first() =~= rest + second);
        assert((first + second)[0] == first[0]);
        law_rule_list_concatenation(rest, second, task);
        if !rule_selects(first[0], task) {
            if exists|j: int| 0 <= j < first.len() && #[trigger] rule_selects(first[j], task) {
                let j = choose|j: int| 0 <= j < first.len() && #[trigger] rule_selects(first[j], task);
                assert(rest[j - 1] == first[j]);
            }
            if forall|j: int| 0 <= j < first.len() ==> !#[trigger] rule_selects(first[j], task) {
                assert forall|j: int| 0 <= j < rest.len() implies !#[trigger] rule_selects(
                    rest[j],
                    task,
                ) by {
                    assert(rest[j] == first[j + 1]);
                }
            }
        }
    }
}

/// Inside its time window the first selecting rule sends the notification now;
/// outside it, the rule's policy discards or delays. A rule whose window is
/// `Always` therefore sends every task it selects right away.
pub proof fn law_window_or_policy_decides(rules: Seq<NotificationRule>, task: TaskRecord, i: int)
    requires
        0 <= i < rules.len(),
        rule_selects(rules[i], task),
        forall|j: int| 0 <= j < i ==> !#[trigger] rule_selects(rules[j], task),
    ensures
        time_window_accepts(
            rules[i].time_window,
            task.completed_at_weekday,
            task.completed_at_seconds,
        ) ==> decide(rules, task) == (NotificationDecision::SendNow { rule_id: rules[i].id }),
        !time_window_accepts(
            rules[i].time_window,
            task.completed_at_weekday,
            task.completed_at_seconds,
        ) && rules[i].outside_window == OutsideWindowPolicy::Discard ==> decide(rules, task) == (
        NotificationDecision::Discard { rule_id: rules[i].id }),
        !time_window_accepts(
            rules[i].time_window,
            task.completed_at_weekday,
            task.completed_at_seconds,
        ) && rules[i].outside_window == OutsideWindowPolicy::Delay ==> decide(rules, task) == (
        NotificationDecision::Delay { rule_id: rules[i].id }),
        rules[i].time_window is Always ==> decide(rules, task) == (NotificationDecision::SendNow {
            rule_id: rules[i].id,
        }),
{
    law_first_selecting_rule_decides(rules, task, i);
}

/// An enabled rule that accepts any duration, such as the default rule, makes
/// sure that no task is ignored.
pub proof fn law_catch_all_rule_never_ignores(
    rules: Seq<NotificationRule>,
    task: TaskRecord,
    k: int,
)
    requires
        0 <= k < rules.len(),
        rules[k].enabled,
        rules[k].duration is Any,
    ensures
        !(decide(rules, task) is Ignore),
{
    law_ignored_iff_no_rule_selects(rules, task);
    assert(rule_selects(rules[k], task));
}

/// A list of duration ranges accepts a duration exactly when one of the ranges,
/// wherever it stands in the list, has a minimum at most the duration and
/// either no maximum or a maximum at least the duration; `Any` accepts all.
pub proof fn law_duration_condition_meaning(condition: DurationCondition, d: u64)
    ensures
        condition is Any ==> duration_accepts(condition, d),
        condition matches DurationCondition::Ranges(ranges) ==> (duration_accepts(condition, d)
            <==> exists|i: int|
            0 <= i < ranges@.len() && (#[trigger] ranges@[i]).min_seconds <= d && (
            ranges@[i].max_seconds is None || d <= ranges@[i].max_seconds.unwrap())),
{
    if let DurationCondition::Ranges(ranges) = condition {
        if duration_accepts(condition, d) {
            let i = choose|i: int| 0 <= i < ranges@.len() && #[trigger] range_accepts(ranges@[i], d);
            assert(ranges@[i].min_seconds <= d);
        }
        if exists|i: int|
            0 <= i < ranges@.len() && (#[trigger] ranges@[i]).min_seconds <= d && (
            ranges@[i].max_seconds is None || d <= ranges@[i].max_seconds.unwrap()) {
            let i = choose|i: int|
                0 <= i < ranges@.len() && (#[trigger] ranges@[i]).min_seconds <= d && (
                ranges@[i].max_seconds is None || d <= ranges@[i].max_seconds.unwrap());
            assert(range_accepts(ranges@[i], d));
        }
    }
}

/// An enabled first rule whose window is `Always` sends a task now as soon as
/// any one of its duration ranges holds the task's duration, whatever its other
/// ranges and the later rules say; when none of its ranges holds it, the rule
/// takes no part and the later rules decide.
pub proof fn law_first_rule_duration_ranges(
    rule: NotificationRule,
    later: Seq<NotificationRule>,
    task: TaskRecord,
)
    requires
        rule.enabled,
        rule.duration is Ranges,
        rule.time_window is Always,
    ensures
        (exists|i: int|
            0 <= i < rule.duration->Ranges_0@.len() && (#[trigger] rule.duration->Ranges_0@[i]).min_seconds
                <= task.duration_seconds && (rule.duration->Ranges_0@[i].max_seconds is None
                || task.duration_seconds <= rule.duration->Ranges_0@[i].max_seconds.unwrap()))
            ==> decide(seq![rule] + later, task) == (NotificationDecision::SendNow {
            rule_id: rule.id,
        }),
        (forall|i: int|
            0 <= i < rule.duration->Ranges_0@.len() ==> !((#[trigger] rule.duration->Ranges_0@[i]).min_seconds
                <= task.duration_seconds && (rule.duration->Ranges_0@[i].max_seconds is None
                || task.duration_seconds <= rule.duration->Ranges_0@[i].max_seconds.unwrap())))
            ==> decide(seq![rule] + later, task) == decide(later, task),
{
    law_duration_condition_meaning(rule.duration, task.duration_seconds);
    let all = seq![rule] + later;
    assert(all[0] == rule);
    assert(all.drop_first() =~= later);
}

/// A window only ever accepts moments on its listed weekdays. A window whose
/// start is not after its end accepts the seconds from start to end, both
/// included; one whose start is after its end wraps around midnight and accepts
/// every second except those strictly between its end and its start. A list of
/// windows accepts a moment when any one of them does, wherever it stands.
pub proof fn law_time_window_meaning(
    condition: TimeWindowCondition,
    window: TimeWindow,
    weekday: Weekday,
    seconds: u32,
)
    ensures
        !window.weekdays@.contains(weekday) ==> !window_accepts(window, weekday, seconds),
        window.start_seconds <= window.end_seconds ==> (window_accepts(window, weekday, seconds)
            <==> window.weekdays@.contains(weekday) && window.start_seconds <= seconds
            && seconds <= window.end_seconds),
        window.start_seconds > window.end_seconds ==> (window_accepts(window, weekday, seconds)
            <==> window.weekdays@.contains(weekday) && !(window.end_seconds < seconds
            && seconds < window.start_seconds)),
        condition is Always ==> time_window_accepts(condition, weekday, seconds),
        condition matches TimeWindowCondition::Windows(windows) ==> (time_window_accepts(
            condition,
            weekday,
            seconds,
        ) <==> exists|i: int|
            0 <= i < windows@.len() && #[trigger] window_accepts(windows@[i], weekday, seconds)),
{
}

/// Evaluates the ordered rules for a finished task.
pub fn evaluate(rules: &[NotificationRule], task: &TaskRecord) -> (decision: NotificationDecision)
    ensures
        decision == decide(rules@, *task),
{
    let n = rules.len();
    let mut i: usize = 0;
    assert(rules@.subrange(0, n as int) =~= rules@);
    while i < n
        invariant
            n == rules@.len(),
            i <= n,
            decide(rules@, *task) == decide(rules@.subrange(i as int, n as int), *task),
        decreases n - i,
    {
        let rule = &rules[i];
        proof {
            assert(rules@.subrange(i as int, n as int).drop_first() =~= rules@.subrange(
                i as int + 1,
                n as int,
            ));
            assert(rules@.subrange(i as int, n as int)[0] == rules@[i as int]);
        }
        if rule.enabled && duration_matches(&rule.duration, task.duration_seconds) {
            if time_window_matches(
                &rule.time_window,
                task.completed_at_weekday,
                task.completed_at_seconds,
            ) {
                return NotificationDecision::SendNow { rule_id: rule.id.clone() };
            }
            return match rule.outside_window {
                OutsideWindowPolicy::Discard => NotificationDecision::Discard {
                    rule_id: rule.id.clone(),
                },
                OutsideWindowPolicy::Delay => NotificationDecision::Delay {
                    rule_id: rule.id.clone(),
                },
            };
        }
        i += 1;
    }
    proof {
        assert(rules@.subrange(n as int, n as int).len() == 0);
    }
    NotificationDecision::Ignore
}

fn duration_matches(condition: &DurationCondition, duration_seconds: u64) -> (matched: bool)
    ensures
        matched == duration_accepts(*condition, duration_seconds),
{
    match condition {
        DurationCondition::Any => true,
        DurationCondition::Ranges(ranges) => {
            let n = ranges.len();
            let mut i: usize = 0;
            while i < n
                invariant
                    n == ranges@.len(),
                    i <= n,
                    duration_accepts(*condition, duration_seconds) == exists|j: int|
                        0 <= j < n && #[trigger] range_accepts(ranges@[j], duration_seconds),
                    forall|j: int| 0 <= j < i ==> !#[trigger] range_accepts(ranges@[j], duration_seconds),
                decreases n - i,
            {
                let range = &ranges[i];
                let within_max = match range.max_seconds {
                    Some(max_seconds) => duration_seconds <= max_seconds,
                    None => true,
                };
                if duration_seconds >= range.min_seconds && within_max {
                    assert(range_accepts(ranges@[i as int], duration_seconds));
                    return true;
                }
                i += 1;
            }
            false
        },
    }
}

fn time_window_matches(condition: &TimeWindowCondition, weekday: Weekday, seconds: u32) -> (matched: bool)
    ensures
        matched == time_window_accepts(*condition, weekday, seconds),
{
    match condition {
        TimeWindowCondition::Always => true,
        TimeWindowCondition::Windows(windows) => {
            let n = windows.len();
            let mut i: usize = 0;
            while i < n
                invariant
                    n == windows@.len(),
                    i <= n,
                    time_window_accepts(*condition, weekday, seconds) == exists|j: int|
                        0 <= j < n && #[trigger] window_accepts(windows@[j], weekday, seconds),
                    forall|j: int|
                        0 <= j < i ==> !#[trigger] window_accepts(windows@[j], weekday, seconds),
                decreases n - i,
            {
                if single_window_matches(&windows[i], weekday, seconds) {
                    assert(window_accepts(windows@[i as int], weekday, seconds));
                    return true;
                }
                i += 1;
            }
            false
        },
    }
}

fn single_window_matches(window: &TimeWindow, weekday: Weekday, seconds: u32) -> (matched: bool)
    ensures
        matched == window_accepts(*window, weekday, seconds),
{
    if window.start_seconds <= window.end_seconds {
        weekday_listed(&window.weekdays, weekday) && seconds >= window.start_seconds && seconds
            <= window.end_seconds
    } else {
        weekday_listed(&window.weekdays, weekday) && (seconds >= window.start_seconds || seconds
            <= window.end_seconds)
    }
}

fn weekday_listed(weekdays: &Vec<Weekday>, weekday: Weekday) -> (listed: bool)
    ensures
        listed == weekdays@.contains(weekday),
{
    let n = weekdays.len();
    let mut i: usize = 0;
    while i < n
        invariant
            n == weekdays@.len(),
            i <= n,
            forall|j: int| 0 <= j < i ==> weekdays@[j] != weekday,
        decreases n - i,
    {
        if weekdays[i] == weekday {
            assert(weekdays@[i as int] == weekday);
            return true;
        }
        i += 1;
    }
    false
}

} // verus!
