use vstd::prelude::*;
use vstd::string::StringExecFns;

use crate::domain::rule::{
    DurationCondition, NotificationRule, OutsideWindowPolicy, TimeWindowCondition,
};

verus! {

/// The rule a fresh database starts with: enabled, any duration, at any time,
/// discarding outside its window.
pub open spec fn is_default_rule(rule: NotificationRule) -> bool {
    &&& rule.id@ == "default-rule"@
    &&& rule.name@ == "默认规则"@
    &&& rule.enabled
    &&& rule.duration is Any
    &&& rule.time_window is Always
    &&& rule.outside_window == OutsideWindowPolicy::Discard
}

/// The default rule.
pub fn default_rule() -> (rule: NotificationRule)
    ensures
        is_default_rule(rule),
{
    NotificationRule {
        id: String::from_str("default-rule"),
        name: String::from_str("默认规则"),
        enabled: true,
        duration: DurationCondition::Any,
        time_window: TimeWindowCondition::Always,
        outside_window: OutsideWindowPolicy::Discard,
    }
}

/// How many rules initialization adds to a table holding `existing` rules.
pub open spec fn seed_count(existing: int) -> nat {
    if existing == 0 {
        1
    } else {
        0
    }
}

/// The rules to seed a database with that holds `existing_rule_count` rules:
/// the default rule into an empty table, nothing otherwise.
pub fn rules_to_seed(existing_rule_count: i64) -> (seed: Vec<NotificationRule>)
    ensures
        seed@.len() == seed_count(existing_rule_count as int),
        forall|i: int| 0 <= i < seed@.len() ==> is_default_rule(#[trigger] seed@[i]),
{
    let mut seed = Vec::new();
    if existing_rule_count == 0 {
        seed.push(default_rule());
    }
    seed
}

/// Seeding is done once: an empty table gets exactly the default rule, and
/// initializing again adds nothing.
pub proof fn law_default_rule_seeded_once(existing: int)
    requires
        existing >= 0,
    ensures
        existing == 0 ==> seed_count(existing) == 1,
        seed_count(existing + seed_count(existing)) == 0,
{
}

} // verus!
