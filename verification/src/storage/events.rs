use vstd::prelude::*;

use crate::domain::decision::{NotificationDecision, NotificationEventStatus};

verus! {

/// A stored notification event.
#[derive(Debug, Clone, PartialEq, Eq)]
pub struct NotificationEventRecord {
    pub id: String,
    pub task_id: String,
    pub rule_id: Option<String>,
    pub decision: NotificationDecision,
    pub status: NotificationEventStatus,
}

/// The rule a decision names; an ignored task names none.
pub open spec fn rule_id_of(decision: NotificationDecision) -> Option<String> {
    match decision {
        NotificationDecision::Ignore => None,
        NotificationDecision::SendNow { rule_id } => Some(rule_id),
        NotificationDecision::Discard { rule_id } => Some(rule_id),
        NotificationDecision::Delay { rule_id } => Some(rule_id),
    }
}

/// The rule id stored beside a decision.
pub fn decision_rule_id(decision: &NotificationDecision) -> (rule_id: Option<String>)
    ensures
        rule_id == rule_id_of(*decision),
{
    match decision {
        NotificationDecision::Ignore => None,
        NotificationDecision::SendNow { rule_id } => Some(rule_id.clone()),
        NotificationDecision::Discard { rule_id } => Some(rule_id.clone()),
        NotificationDecision::Delay { rule_id } => Some(rule_id.clone()),
    }
}

/// An event names a rule exactly when its decision is not to ignore the task.
pub proof fn law_rule_id_present_unless_ignored(decision: NotificationDecision)
    ensures
        (rule_id_of(decision) is Some) <==> !(decision is Ignore),
{
}

} // verus!
