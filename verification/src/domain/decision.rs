use vstd::prelude::*;

verus! {

/// The outcome of evaluating the rules for one task.
#[derive(Debug, Clone, PartialEq, Eq)]
pub enum NotificationDecision {
    Ignore,
    SendNow { rule_id: String },
    Discard { rule_id: String },
    Delay { rule_id: String },
}

/// The stored state of a notification event.
#[derive(Debug, Clone, Copy, PartialEq, Eq, Structural)]
pub enum NotificationEventStatus {
    Ignored,
    Pending,
    Sent,
    Discarded,
    Delayed,
    Failed,
}

} // verus!
