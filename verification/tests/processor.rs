use codex_notice::domain::decision::{NotificationDecision, NotificationEventStatus};
use codex_notice::domain::rule::{
    DurationCondition, DurationRange, NotificationRule, OutsideWindowPolicy, TimeWindow,
    TimeWindowCondition,
};
use codex_notice::domain::task::{TaskRecord, Weekday};
use codex_notice::processor::{
    event_id_for, plan_task_processing, status_for_decision, status_name, DelayedEntry,
    ProcessingOutcome,
};
use codex_notice::storage::events::decision_rule_id;

fn task(duration_seconds: u64, weekday: Weekday, seconds: u32) -> TaskRecord {
    TaskRecord {
        id: "task-1".to_string(),
        title: "Codex task".to_string(),
        duration_seconds,
        completed_at_weekday: weekday,
        completed_at_seconds: seconds,
        success: true,
    }
}

fn always_rule() -> NotificationRule {
    NotificationRule {
        id: "default-rule".to_string(),
        name: "默认规则".to_string(),
        enabled: true,
        duration: DurationCondition::Any,
        time_window: TimeWindowCondition::Always,
        outside_window: OutsideWindowPolicy::Discard,
    }
}

fn delayed_workday_rule() -> NotificationRule {
    NotificationRule {
        id: "workday-short".to_string(),
        name: "工作日中短任务".to_string(),
        enabled: true,
        duration: DurationCondition::Ranges(vec![DurationRange {
            min_seconds: 60,
            max_seconds: Some(50 * 60),
        }]),
        time_window: TimeWindowCondition::Windows(vec![TimeWindow {
            weekdays: vec![Weekday::Mon, Weekday::Tue, Weekday::Wed, Weekday::Thu, Weekday::Fri],
            start_seconds: 8 * 3600,
            end_seconds: 20 * 3600,
        }]),
        outside_window: OutsideWindowPolicy::Delay,
    }
}

fn discard_workday_rule() -> NotificationRule {
    NotificationRule { outside_window: OutsideWindowPolicy::Discard, ..delayed_workday_rule() }
}

#[test]
fn plan_is_pending_when_rule_allows_send_now() {
    let plan = plan_task_processing(&[always_rule()], &task(30 * 60, Weekday::Mon, 9 * 3600), 1_000, 86_400);

    assert_eq!(plan.status, NotificationEventStatus::Pending);
    assert_eq!(plan.decision, NotificationDecision::SendNow { rule_id: "default-rule".to_string() });
    assert_eq!(plan.event_id, "task-1:pending");
    assert_eq!(plan.delayed, None);
    assert_eq!(
        plan.outcome(),
        ProcessingOutcome { event_id: "task-1:pending".to_string(), status: NotificationEventStatus::Pending }
    );
}

#[test]
fn plan_queues_delayed_task_for_selected_rule() {
    let plan = plan_task_processing(
        &[delayed_workday_rule(), always_rule()],
        &task(30 * 60, Weekday::Sat, 12 * 3600),
        1_000,
        86_400,
    );

    assert_eq!(plan.status, NotificationEventStatus::Delayed);
    assert_eq!(plan.event_id, "task-1:delayed");
    assert_eq!(
        plan.delayed,
        Some(DelayedEntry {
            rule_id: "workday-short".to_string(),
            task_id: "task-1".to_string(),
            queued_at: 1_000,
            expires_at: 87_400,
        })
    );
}

#[test]
fn plan_discards_without_delay_queue() {
    let plan = plan_task_processing(&[discard_workday_rule()], &task(30 * 60, Weekday::Sat, 12 * 3600), 1_000, 86_400);

    assert_eq!(plan.status, NotificationEventStatus::Discarded);
    assert_eq!(plan.event_id, "task-1:discarded");
    assert_eq!(plan.delayed, None);
}

#[test]
fn plan_ignores_task_when_no_duration_rule_matches() {
    let plan = plan_task_processing(&[delayed_workday_rule()], &task(30, Weekday::Mon, 9 * 3600), 1_000, 86_400);

    assert_eq!(plan.decision, NotificationDecision::Ignore);
    assert_eq!(plan.status, NotificationEventStatus::Ignored);
    assert_eq!(plan.event_id, "task-1:ignored");
    assert_eq!(decision_rule_id(&plan.decision), None);
}

#[test]
fn statuses_have_lower_case_names() {
    assert_eq!(status_name(NotificationEventStatus::Ignored), "ignored");
    assert_eq!(status_name(NotificationEventStatus::Pending), "pending");
    assert_eq!(status_name(NotificationEventStatus::Sent), "sent");
    assert_eq!(status_name(NotificationEventStatus::Discarded), "discarded");
    assert_eq!(status_name(NotificationEventStatus::Delayed), "delayed");
    assert_eq!(status_name(NotificationEventStatus::Failed), "failed");
    assert_eq!(event_id_for("thread:a:1", NotificationEventStatus::Sent), "thread:a:1:sent");
}

#[test]
fn each_decision_maps_to_its_status_and_rule() {
    let rule_id = "r".to_string();
    assert_eq!(status_for_decision(&NotificationDecision::Ignore), NotificationEventStatus::Ignored);
    assert_eq!(
        status_for_decision(&NotificationDecision::SendNow { rule_id: rule_id.clone() }),
        NotificationEventStatus::Pending
    );
    assert_eq!(
        status_for_decision(&NotificationDecision::Discard { rule_id: rule_id.clone() }),
        NotificationEventStatus::Discarded
    );
    assert_eq!(
        status_for_decision(&NotificationDecision::Delay { rule_id: rule_id.clone() }),
        NotificationEventStatus::Delayed
    );
    assert_eq!(
        decision_rule_id(&NotificationDecision::Delay { rule_id: rule_id.clone() }),
        Some("r".to_string())
    );
}
