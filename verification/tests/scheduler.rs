use codex_notice::domain::task::{TaskRecord, Weekday};
use codex_notice::scheduler::{build_merge_summary, MergeSummary};

fn task(id: &str, title: &str, duration_seconds: u64, success: bool) -> TaskRecord {
    TaskRecord {
        id: id.to_string(),
        title: title.to_string(),
        duration_seconds,
        completed_at_weekday: Weekday::Mon,
        completed_at_seconds: 8 * 3600,
        success,
    }
}

#[test]
fn summary_shows_titles_when_task_count_is_ten_or_less() {
    let tasks = vec![
        task("1", "Build feature", 600, true),
        task("2", "Fix test", 1200, false),
    ];

    let summary = build_merge_summary("rule-1", &tasks);

    assert_eq!(
        summary,
        MergeSummary {
            rule_id: "rule-1".to_string(),
            task_count: 2,
            success_count: 1,
            failure_count: 1,
            longest_duration_seconds: 1200,
            visible_titles: vec!["Build feature".to_string(), "Fix test".to_string()],
        }
    );
}

#[test]
fn summary_hides_titles_when_task_count_is_more_than_ten() {
    let tasks: Vec<TaskRecord> = (0..11)
        .map(|index| task(&index.to_string(), &format!("Task {index}"), 60, true))
        .collect();

    let summary = build_merge_summary("rule-1", &tasks);

    assert_eq!(summary.task_count, 11);
    assert!(summary.visible_titles.is_empty());
}

#[test]
fn summary_of_exactly_ten_tasks_shows_every_title() {
    let tasks: Vec<TaskRecord> = (0..10)
        .map(|index| task(&index.to_string(), &format!("Task {index}"), index * 10, index % 3 != 0))
        .collect();

    let summary = build_merge_summary("rule-2", &tasks);

    assert_eq!(summary.visible_titles.len(), 10);
    assert_eq!(summary.visible_titles[9], "Task 9");
    assert_eq!(summary.success_count, 6);
    assert_eq!(summary.failure_count, 4);
    assert_eq!(summary.longest_duration_seconds, 90);
}

#[test]
fn summary_of_no_tasks_is_empty() {
    let summary = build_merge_summary("rule-3", &[]);

    assert_eq!(
        summary,
        MergeSummary {
            rule_id: "rule-3".to_string(),
            task_count: 0,
            success_count: 0,
            failure_count: 0,
            longest_duration_seconds: 0,
            visible_titles: Vec::new(),
        }
    );
}

#[test]
fn summary_does_not_depend_on_task_order() {
    let tasks = vec![
        task("1", "Build feature", 600, true),
        task("2", "Fix test", 1200, false),
        task("3", "Write docs", 300, true),
    ];
    let reordered = vec![tasks[2].clone(), tasks[0].clone(), tasks[1].clone()];

    let a = build_merge_summary("rule-1", &tasks);
    let b = build_merge_summary("rule-1", &reordered);

    assert_eq!(a.task_count, b.task_count);
    assert_eq!(a.success_count, b.success_count);
    assert_eq!(a.failure_count, b.failure_count);
    assert_eq!(a.longest_duration_seconds, b.longest_duration_seconds);
    let mut titles_a = a.visible_titles.clone();
    let mut titles_b = b.visible_titles.clone();
    titles_a.sort();
    titles_b.sort();
    assert_eq!(titles_a, titles_b);
}
