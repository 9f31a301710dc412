use vstd::prelude::*;

use super::task::Weekday;

verus! {

/// One ordered notification rule.
#[derive(Debug, Clone, PartialEq, Eq)]
pub struct NotificationRule {
    pub id: String,
    pub name: String,
    pub enabled: bool,
    pub duration: DurationCondition,
    pub time_window: TimeWindowCondition,
    pub outside_window: OutsideWindowPolicy,
}

/// Which task durations a rule accepts.
#[derive(Debug, Clone, PartialEq, Eq)]
pub enum DurationCondition {
    Any,
    Ranges(Vec<DurationRange>),
}

/// An inclusive duration range in seconds; no maximum means open-ended.
#[derive(Debug, Clone, PartialEq, Eq)]
pub struct DurationRange {
    pub min_seconds: u64,
    pub max_seconds: Option<u64>,
}

/// When a rule may notify immediately.
#[derive(Debug, Clone, PartialEq, Eq)]
pub enum TimeWindowCondition {
    Always,
    Windows(Vec<TimeWindow>),
}

/// A window of seconds since midnight on some weekdays. A window whose start
/// lies after its end wraps around midnight.
#[derive(Debug, Clone, PartialEq, Eq)]
pub struct TimeWindow {
    pub weekdays: Vec<Weekday>,
    pub start_seconds: u32,
    pub end_seconds: u32,
}

/// What a matching rule does with a task that finished outside its window.
#[derive(Debug, Clone, Copy, PartialEq, Eq, Structural)]
pub enum OutsideWindowPolicy {
    Discard,
    Delay,
}

} // verus!
