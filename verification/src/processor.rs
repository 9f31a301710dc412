use vstd::prelude::*;
use vstd::string::StringExecFns;

use crate::domain::decision::{NotificationDecision, NotificationEventStatus};
use crate::domain::rule::NotificationRule;
use crate::domain::task::TaskRecord;
use crate::rules::{decide, evaluate};

verus! {

/// The event written for a processed task.
#[derive(Debug, Clone, PartialEq, Eq)]
pub struct ProcessingOutcome {
    pub event_id: String,
    pub status: NotificationEventStatus,
}

/// A task queued for a later merged notification under a rule.
#[derive(Debug, Clone, PartialEq, Eq)]
pub struct DelayedEntry {
    pub rule_id: String,
    pub task_id: String,
    pub queued_at: i64,
    pub expires_at: i64,
}

/// Everything that processing one task writes: the decision and event, and the
/// delayed-queue entry when the decision is to delay.
#[derive(Debug, Clone, PartialEq, Eq)]
pub struct ProcessingPlan {
    pub decision: NotificationDecision,
    pub status: NotificationEventStatus,
    pub event_id: String,
    pub delayed: Option<DelayedEntry>,
}

/// The event status recorded for a decision: sending now leaves the event
/// pending delivery.
pub open spec fn status_of(decision: NotificationDecision) -> NotificationEventStatus {
    match decision {
        NotificationDecision::Ignore => NotificationEventStatus::Ignored,
        NotificationDecision::SendNow { .. } => NotificationEventStatus::Pending,
        NotificationDecision::Discard { .. } => NotificationEventStatus::Discarded,
        NotificationDecision::Delay { .. } => NotificationEventStatus::Delayed,
    }
}

/// The lower-case name of a status.
pub open spec fn status_text(status: NotificationEventStatus) -> Seq<char> {
    match status {
        NotificationEventStatus::Ignored => "ignored"@,
        NotificationEventStatus::Pending => "pending"@,
        NotificationEventStatus::Sent => "sent"@,
        NotificationEventStatus::Discarded => "discarded"@,
        NotificationEventStatus::Delayed => "delayed"@,
        NotificationEventStatus::Failed => "failed"@,
    }
}

/// The event id of a task: the task id, a colon and the status name.
pub open spec fn event_id_text(task_id: Seq<char>, status: NotificationEventStatus) -> Seq<char> {
    task_id + ":"@ + status_text(status)
}

/// The delayed-queue entry a decision asks for: one under the delaying rule,
/// queued now and expiring `ttl` seconds later, and none for other decisions.
pub open spec fn delayed_entry_for(
    decision: NotificationDecision,
    task_id: String,
    now: i64,
    ttl: i64,
) -> Option<DelayedEntry> {
    match decision {
        NotificationDecision::Delay { rule_id } => Some(
            DelayedEntry { rule_id, task_id, queued_at: now, expires_at: (now + ttl) as i64 },
        ),
        _ => None,
    }
}

pub fn status_for_decision(decision: &NotificationDecision) -> (status: NotificationEventStatus)
    ensures
        status == status_of(*decision),
{
    match decision {
        NotificationDecision::Ignore => NotificationEventStatus::Ignored,
        NotificationDecision::SendNow { .. } => NotificationEventStatus::Pending,
        NotificationDecision::Discard { .. } => NotificationEventStatus::Discarded,
        NotificationDecision::Delay { .. } => NotificationEventStatus::Delayed,
    }
}

pub fn status_name(status: NotificationEventStatus) -> (name: &'static str)
    ensures
        name@ == status_text(status),
{
    match status {
        NotificationEventStatus::Ignored => "ignored",
        NotificationEventStatus::Pending => "pending",
        NotificationEventStatus::Sent => "sent",
        NotificationEventStatus::Discarded => "discarded",
        NotificationEventStatus::Delayed => "delayed",
        NotificationEventStatus::Failed => "failed",
    }
}

/// The id of the event recorded for a task with the given status.
pub fn event_id_for(task_id: &str, status: NotificationEventStatus) -> (event_id: String)
    ensures
        event_id@ == event_id_text(task_id@, status),
{
    let mut event_id = String::from_str(task_id);
    event_id.append(":");
    event_id.append(status_name(status));
    event_id
}

/// Plans the processing of a detected task: evaluates the rules, derives the
/// event status and id, and the delayed-queue entry for a delay decision.
/// The expiry `now + ttl` must fit in an `i64` when the decision is to delay.
pub fn plan_task_processing(
    rules: &[NotificationRule],
    task: &TaskRecord,
    now_epoch_seconds: i64,
    delay_ttl_seconds: i64,
) -> (plan: ProcessingPlan)
    requires
        decide(rules@, *task) is Delay ==> i64::MIN <= now_epoch_seconds + delay_ttl_seconds
            <= i64::MAX,
    ensures
        plan.decision == decide(rules@, *task),
        plan.status == status_of(plan.decision),
        plan.event_id@ == event_id_text(task.id@, plan.status),
        plan.delayed == delayed_entry_for(plan.decision, task.id, now_epoch_seconds, delay_ttl_seconds),
        plan.delayed matches Some(entry) ==> entry.queued_at == now_epoch_seconds
            && entry.expires_at == now_epoch_seconds + delay_ttl_seconds && entry.task_id == task.id,
        (plan.delayed is Some) <==> (plan.decision is Delay),
{
    let decision = evaluate(rules, task);
    let status = status_for_decision(&decision);
    let event_id = event_id_for(task.id.as_str(), status);
    let delayed = match &decision {
        NotificationDecision::Delay { rule_id } => Some(
            DelayedEntry {
                rule_id: rule_id.clone(),
                task_id: task.id.clone(),
                queued_at: now_epoch_seconds,
                expires_at: now_epoch_seconds + delay_ttl_seconds,
            },
        ),
        _ => None,
    };
    ProcessingPlan { decision, status, event_id, delayed }
}

impl ProcessingPlan {
    /// The outcome reported for the plan once it has been written.
    pub fn outcome(&self) -> (outcome: ProcessingOutcome)
        ensures
            outcome.event_id == self.event_id,
            outcome.status == self.status,
    {
        ProcessingOutcome { event_id: self.event_id.clone(), status: self.status }
    }
}

/// A delayed-queue entry is planned exactly when the task is given the delayed
/// status, and then under the rule the decision names.
pub proof fn law_delay_queue_follows_status(
    rules: Seq<NotificationRule>,
    task: TaskRecord,
    now: i64,
    ttl: i64,
)
    ensures
        (delayed_entry_for(decide(rules, task), task.id, now, ttl) is Some) <==> status_of(
            decide(rules, task),
        ) == NotificationEventStatus::Delayed,
        decide(rules, task) matches NotificationDecision::Delay { rule_id } ==> delayed_entry_for(
            decide(rules, task),
            task.id,
            now,
            ttl,
        ).unwrap().rule_id == rule_id,
{
}

/// A delayed entry is queued at the given time and expires exactly the given
/// time-to-live later, for every time-to-live, under the delaying rule and for
/// the given task; other decisions queue nothing.
pub proof fn law_delayed_entry_expires_after_ttl(
    decision: NotificationDecision,
    task_id: String,
    now: i64,
    ttl: i64,
)
    requires
        i64::MIN <= now + ttl <= i64::MAX,
    ensures
        delayed_entry_for(decision, task_id, now, ttl) matches Some(entry) ==> {
            &&& entry.queued_at == now
            &&& entry.expires_at == now + ttl
            &&& entry.expires_at - entry.queued_at == ttl
            &&& entry.task_id == task_id
            &&& decision == (NotificationDecision::Delay { rule_id: entry.rule_id })
        },
        !(decision is Delay) ==> delayed_entry_for(decision, task_id, now, ttl) is None,
        decision is Delay ==> delayed_entry_for(decision, task_id, now, ttl) is Some,
{
}

/// The event status tells the decision's kind: ignored exactly for an ignored
/// task, pending delivery exactly when the notification is to be sent now,
/// discarded exactly for a discard and delayed exactly for a delay.
pub proof fn law_status_tells_decision(decision: NotificationDecision)
    ensures
        (status_of(decision) == NotificationEventStatus::Ignored) <==> (decision is Ignore),
        (status_of(decision) == NotificationEventStatus::Pending) <==> (decision is SendNow),
        (status_of(decision) == NotificationEventStatus::Discarded) <==> (decision is Discard),
        (status_of(decision) == NotificationEventStatus::Delayed) <==> (decision is Delay),
{
}

/// Processing never produces the delivery states: a new event is ignored,
/// pending, discarded or delayed, never already sent or failed.
pub proof fn law_new_events_are_not_delivered(decision: NotificationDecision)
    ensures
        status_of(decision) != NotificationEventStatus::Sent,
        status_of(decision) != NotificationEventStatus::Failed,
{
}

/// Distinct statuses give distinct event ids for the same task, so one task can
/// have one event per status.
pub proof fn law_event_ids_distinguish_status(
    task_id: Seq<char>,
    first: NotificationEventStatus,
    second: NotificationEventStatus,
)
    requires
        first != second,
    ensures
        event_id_text(task_id, first) != event_id_text(task_id, second),
{
    reveal_strlit("ignored");
    reveal_strlit("pending");
    reveal_strlit("sent");
    reveal_strlit("discarded");
    reveal_strlit("delayed");
    reveal_strlit("failed");
    reveal_strlit(":");
    let a = event_id_text(task_id, first);
    let b = event_id_text(task_id, second);
    let n: int = task_id.len() as int + 1;
    assert(a.subrange(n, a.len() as int) =~= status_text(first));
    assert(b.subrange(n, b.len() as int) =~= status_text(second));
    let ta = status_text(first);
    let tb = status_text(second);
    assert(ta.len() >= 4 && tb.len() >= 4);
    assert(ta[0] != tb[0] || ta[1] != tb[1]);
    assert(ta != tb);
    assert(a.subrange(n, a.len() as int) != b.subrange(n, b.len() as int));
}

} // verus!
