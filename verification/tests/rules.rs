use codex_notice::domain::decision::NotificationDecision;
use codex_notice::domain::rule::{
    DurationCondition, DurationRange, NotificationRule, OutsideWindowPolicy, TimeWindow,
    TimeWindowCondition,
};
use codex_notice::domain::task::{TaskRecord, Weekday};
use codex_notice::rules::evaluate;

fn task(duration_seconds: u64, weekday: Weekday, seconds: u32) -> TaskRecord {
    TaskRecord {
        id: "task-1".to_string(),
        title: "Codex task".to_string(),
        duration_seconds,
        completed_at_weekday: weekday,
        completed_at_seconds: seconds,
        success: true,
    }
}

fn rule(id: &str, duration: DurationCondition) -> NotificationRule {
    NotificationRule {
        id: id.to_string(),
        name: id.to_string(),
        enabled: true,
        duration,
        time_window: TimeWindowCondition::Always,
        outside_window: OutsideWindowPolicy::Discard,
    }
}

fn rule_with_window(
    id: &str,
    duration: DurationCondition,
    weekdays: Vec<Weekday>,
    start_seconds: u32,
    end_seconds: u32,
    outside_window: OutsideWindowPolicy,
) -> NotificationRule {
    NotificationRule {
        id: id.to_string(),
        name: id.to_string(),
        enabled: true,
        duration,
        time_window: TimeWindowCondition::Windows(vec![TimeWindow {
            weekdays,
            start_seconds,
            end_seconds,
        }]),
        outside_window,
    }
}

fn workdays() -> Vec<Weekday> {
    vec![Weekday::Mon, Weekday::Tue, Weekday::Wed, Weekday::Thu, Weekday::Fri]
}

#[test]
fn first_duration_matching_rule_wins() {
    let rules = vec![
        rule(
            "workday-short",
            DurationCondition::Ranges(vec![DurationRange {
                min_seconds: 60,
                max_seconds: Some(50 * 60),
            }]),
        ),
        rule("catch-all", DurationCondition::Any),
    ];

    let decision = evaluate(&rules, &task(30 * 60, Weekday::Sat, 12 * 3600));

    assert_eq!(
        decision,
        NotificationDecision::SendNow {
            rule_id: "workday-short".to_string()
        }
    );
}

#[test]
fn unmatched_duration_is_ignored() {
    let rules = vec![rule(
        "only-hour",
        DurationCondition::Ranges(vec![DurationRange {
            min_seconds: 60 * 60,
            max_seconds: Some(70 * 60),
        }]),
    )];

    let decision = evaluate(&rules, &task(30 * 60, Weekday::Mon, 9 * 3600));

    assert_eq!(decision, NotificationDecision::Ignore);
}

#[test]
fn matching_duration_outside_window_uses_selected_rule_delay_policy() {
    let rules = vec![
        rule_with_window(
            "workday-short",
            DurationCondition::Ranges(vec![DurationRange {
                min_seconds: 60,
                max_seconds: Some(50 * 60),
            }]),
            workdays(),
            8 * 3600,
            20 * 3600,
            OutsideWindowPolicy::Delay,
        ),
        rule("catch-all", DurationCondition::Any),
    ];

    let decision = evaluate(&rules, &task(30 * 60, Weekday::Sat, 12 * 3600));

    assert_eq!(
        decision,
        NotificationDecision::Delay {
            rule_id: "workday-short".to_string()
        }
    );
}

#[test]
fn matching_duration_outside_window_uses_selected_rule_discard_policy() {
    let rules = vec![rule_with_window(
        "workday-short",
        DurationCondition::Ranges(vec![DurationRange {
            min_seconds: 60,
            max_seconds: Some(50 * 60),
        }]),
        workdays(),
        8 * 3600,
        20 * 3600,
        OutsideWindowPolicy::Discard,
    )];

    let decision = evaluate(&rules, &task(30 * 60, Weekday::Sat, 12 * 3600));

    assert_eq!(
        decision,
        NotificationDecision::Discard {
            rule_id: "workday-short".to_string()
        }
    );
}

#[test]
fn cross_midnight_window_matches_after_midnight() {
    let rules = vec![rule_with_window(
        "night",
        DurationCondition::Any,
        vec![Weekday::Mon, Weekday::Tue],
        22 * 3600,
        2 * 3600,
        OutsideWindowPolicy::Discard,
    )];

    let decision = evaluate(&rules, &task(10 * 60, Weekday::Tue, 1 * 3600));

    assert_eq!(
        decision,
        NotificationDecision::SendNow {
            rule_id: "night".to_string()
        }
    );
}

#[test]
fn disabled_rules_are_skipped() {
    let mut disabled = rule("off", DurationCondition::Any);
    disabled.enabled = false;
    let rules = vec![disabled, rule("on", DurationCondition::Any)];

    let decision = evaluate(&rules, &task(5, Weekday::Wed, 100));

    assert_eq!(decision, NotificationDecision::SendNow { rule_id: "on".to_string() });
}

#[test]
fn only_disabled_rules_ignore_the_task() {
    let mut disabled = rule("off", DurationCondition::Any);
    disabled.enabled = false;

    assert_eq!(evaluate(&[disabled], &task(5, Weekday::Wed, 100)), NotificationDecision::Ignore);
    assert_eq!(evaluate(&[], &task(5, Weekday::Wed, 100)), NotificationDecision::Ignore);
}

#[test]
fn duration_range_bounds_are_inclusive_and_open_maximum_has_no_limit() {
    let bounded = vec![rule(
        "bounded",
        DurationCondition::Ranges(vec![DurationRange { min_seconds: 60, max_seconds: Some(120) }]),
    )];
    assert_eq!(
        evaluate(&bounded, &task(60, Weekday::Mon, 0)),
        NotificationDecision::SendNow { rule_id: "bounded".to_string() }
    );
    assert_eq!(
        evaluate(&bounded, &task(120, Weekday::Mon, 0)),
        NotificationDecision::SendNow { rule_id: "bounded".to_string() }
    );
    assert_eq!(evaluate(&bounded, &task(59, Weekday::Mon, 0)), NotificationDecision::Ignore);
    assert_eq!(evaluate(&bounded, &task(121, Weekday::Mon, 0)), NotificationDecision::Ignore);

    let open = vec![rule(
        "long",
        DurationCondition::Ranges(vec![
            DurationRange { min_seconds: 60, max_seconds: Some(3000) },
            DurationRange { min_seconds: 7200, max_seconds: None },
        ]),
    )];
    assert_eq!(
        evaluate(&open, &task(u64::MAX, Weekday::Mon, 0)),
        NotificationDecision::SendNow { rule_id: "long".to_string() }
    );
    assert_eq!(evaluate(&open, &task(5000, Weekday::Mon, 0)), NotificationDecision::Ignore);
    assert_eq!(evaluate(&[rule("none", DurationCondition::Ranges(vec![]))], &task(1, Weekday::Mon, 0)), NotificationDecision::Ignore);
}

#[test]
fn cross_midnight_window_rejects_midday_and_unlisted_days() {
    let rules = vec![rule_with_window(
        "night",
        DurationCondition::Any,
        vec![Weekday::Mon, Weekday::Tue],
        22 * 3600,
        2 * 3600,
        OutsideWindowPolicy::Delay,
    )];

    assert_eq!(
        evaluate(&rules, &task(10, Weekday::Mon, 23 * 3600)),
        NotificationDecision::SendNow { rule_id: "night".to_string() }
    );
    assert_eq!(
        evaluate(&rules, &task(10, Weekday::Mon, 12 * 3600)),
        NotificationDecision::Delay { rule_id: "night".to_string() }
    );
    assert_eq!(
        evaluate(&rules, &task(10, Weekday::Sun, 1 * 3600)),
        NotificationDecision::Delay { rule_id: "night".to_string() }
    );
}

#[test]
fn window_edges_are_inclusive() {
    let rules = vec![rule_with_window(
        "day",
        DurationCondition::Any,
        workdays(),
        8 * 3600,
        20 * 3600,
        OutsideWindowPolicy::Discard,
    )];
    assert_eq!(
        evaluate(&rules, &task(1, Weekday::Fri, 8 * 3600)),
        NotificationDecision::SendNow { rule_id: "day".to_string() }
    );
    assert_eq!(
        evaluate(&rules, &task(1, Weekday::Fri, 20 * 3600)),
        NotificationDecision::SendNow { rule_id: "day".to_string() }
    );
    assert_eq!(
        evaluate(&rules, &task(1, Weekday::Fri, 20 * 3600 + 1)),
        NotificationDecision::Discard { rule_id: "day".to_string() }
    );
}

#[test]
fn later_rules_never_override_the_first_selecting_rule() {
    let first = rule_with_window(
        "first",
        DurationCondition::Any,
        vec![Weekday::Mon],
        0,
        10,
        OutsideWindowPolicy::Discard,
    );
    let rules = vec![first, rule("second", DurationCondition::Any)];

    assert_eq!(
        evaluate(&rules, &task(1, Weekday::Tue, 5)),
        NotificationDecision::Discard { rule_id: "first".to_string() }
    );
}

#[test]
fn catch_all_rule_leaves_no_task_ignored() {
    let rules = vec![
        rule(
            "hour",
            DurationCondition::Ranges(vec![DurationRange { min_seconds: 3600, max_seconds: None }]),
        ),
        rule("catch-all", DurationCondition::Any),
    ];

    for duration in [0, 59, 3599, 3600, u64::MAX] {
        assert_ne!(evaluate(&rules, &task(duration, Weekday::Sun, 0)), NotificationDecision::Ignore);
    }
}
