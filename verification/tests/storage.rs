use codex_notice::domain::rule::{DurationCondition, OutsideWindowPolicy, TimeWindowCondition};
use codex_notice::storage::rules::{enabled_column, enabled_from_column, rule_order_column};
use codex_notice::storage::schema::{default_rule, rules_to_seed};

#[test]
fn default_rule_accepts_everything_and_discards_outside_window() {
    let rule = default_rule();

    assert_eq!(rule.id, "default-rule");
    assert_eq!(rule.name, "默认规则");
    assert!(rule.enabled);
    assert_eq!(rule.duration, DurationCondition::Any);
    assert_eq!(rule.time_window, TimeWindowCondition::Always);
    assert_eq!(rule.outside_window, OutsideWindowPolicy::Discard);
}

#[test]
fn default_rule_is_seeded_only_into_an_empty_table() {
    assert_eq!(rules_to_seed(0), vec![default_rule()]);
    assert!(rules_to_seed(1).is_empty());
    assert!(rules_to_seed(5).is_empty());
}

#[test]
fn enabled_flag_round_trips_through_its_column() {
    assert_eq!(enabled_column(true), 1);
    assert_eq!(enabled_column(false), 0);
    assert!(enabled_from_column(enabled_column(true)));
    assert!(!enabled_from_column(enabled_column(false)));
    assert!(!enabled_from_column(2));
    assert_eq!(rule_order_column(3), 3);
}
