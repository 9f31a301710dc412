use vstd::prelude::*;
use vstd::string::{StrSliceExecFns, StringExecFns};

use crate::domain::decision::NotificationEventStatus;
use crate::text::push_char;

verus! {

/// Counts of one pass over the pending notification events.
#[derive(Debug, Clone, Copy, PartialEq, Eq, Structural)]
pub struct DispatchSummary {
    pub attempted: usize,
    pub sent: usize,
    pub failed: usize,
}

/// The notifier that posts macOS notifications through AppleScript.
#[derive(Debug, Clone, Copy, PartialEq, Eq, Structural)]
pub struct MacOsNotifier;

/// The counts after one more delivery attempt.
pub open spec fn dispatch_next(summary: DispatchSummary, delivered: bool) -> DispatchSummary {
    if delivered {
        DispatchSummary { sent: (summary.sent + 1) as usize, ..summary }
    } else {
        DispatchSummary { failed: (summary.failed + 1) as usize, ..summary }
    }
}

/// The counts after the delivery attempts in order.
pub open spec fn dispatch_fold(summary: DispatchSummary, delivered: Seq<bool>) -> DispatchSummary
    decreases delivered.len(),
{
    if delivered.len() == 0 {
        summary
    } else {
        dispatch_next(dispatch_fold(summary, delivered.drop_last()), delivered.last())
    }
}

/// Number of delivered notifications.
pub open spec fn count_delivered(delivered: Seq<bool>) -> nat
    decreases delivered.len(),
{
    if delivered.len() == 0 {
        0
    } else {
        count_delivered(delivered.drop_last()) + if delivered.last() {
            1nat
        } else {
            0nat
        }
    }
}

/// The status an event takes after a delivery attempt.
pub open spec fn delivery_status(delivered: bool) -> NotificationEventStatus {
    if delivered {
        NotificationEventStatus::Sent
    } else {
        NotificationEventStatus::Failed
    }
}

/// Starts a dispatch pass over `pending_count` pending events.
pub fn dispatch_begin(pending_count: usize) -> (summary: DispatchSummary)
    ensures
        summary == (DispatchSummary { attempted: pending_count, sent: 0, failed: 0 }),
{
    DispatchSummary { attempted: pending_count, sent: 0, failed: 0 }
}

/// Records one delivery attempt: a delivered notification marks its event sent,
/// a failed one marks it failed, and the matching count goes up by one.
pub fn dispatch_step(summary: DispatchSummary, delivered: bool) -> (result: (
    DispatchSummary,
    NotificationEventStatus,
))
    requires
        summary.sent + summary.failed < summary.attempted,
    ensures
        result.0 == dispatch_next(summary, delivered),
        result.1 == delivery_status(delivered),
{
    if delivered {
        (DispatchSummary { sent: summary.sent + 1, ..summary }, NotificationEventStatus::Sent)
    } else {
        (DispatchSummary { failed: summary.failed + 1, ..summary }, NotificationEventStatus::Failed)
    }
}

/// A finished dispatch pass accounts for every pending event: each is either
/// sent or failed.
pub proof fn law_dispatch_accounts_for_every_event(pending_count: usize, delivered: Seq<bool>)
    requires
        delivered.len() == pending_count,
    ensures
        ({
            let done = dispatch_fold(
                DispatchSummary { attempted: pending_count, sent: 0, failed: 0 },
                delivered,
            );
            &&& done.attempted == pending_count
            &&& done.sent == count_delivered(delivered)
            &&& done.sent + done.failed == done.attempted
        }),
{
    lemma_dispatch_fold_counts(pending_count, delivered);
}

proof fn lemma_dispatch_fold_counts(pending_count: usize, delivered: Seq<bool>)
    requires
        delivered.len() <= pending_count,
    ensures
        ({
            let done = dispatch_fold(
                DispatchSummary { attempted: pending_count, sent: 0, failed: 0 },
                delivered,
            );
            &&& done.attempted == pending_count
            &&& done.sent == count_delivered(delivered)
            &&& done.sent + done.failed == delivered.len()
        }),
    decreases delivered.len(),
{
    if delivered.len() > 0 {
        lemma_dispatch_fold_counts(pending_count, delivered.drop_last());
    }
}

/// The title of every local notification.
pub fn notification_title() -> (title: &'static str)
    ensures
        title@ == "CodeX Notice"@,
{
    "CodeX Notice"
}

/// The body of the notification for a finished task.
pub fn notification_body(task_id: &str) -> (body: String)
    ensures
        body@ == "Codex 任务已完成："@ + task_id@,
{
    let mut body = String::from_str("Codex 任务已完成：");
    body.append(task_id);
    body
}

/// A character as it stands inside an AppleScript string literal: backslashes
/// and double quotes get a backslash in front.
pub open spec fn escaped_char(c: char) -> Seq<char> {
    if c == '\\' {
        seq!['\\', '\\']
    } else if c == '"' {
        seq!['\\', '"']
    } else {
        seq![c]
    }
}

/// Text with every character escaped.
pub open spec fn escaped(s: Seq<char>) -> Seq<char>
    decreases s.len(),
{
    if s.len() == 0 {
        Seq::empty()
    } else {
        escaped_char(s[0]) + escaped(s.drop_first())
    }
}

/// An AppleScript string literal holding `s`.
pub open spec fn apple_script_literal(s: Seq<char>) -> Seq<char> {
    seq!['"'] + escaped(s) + seq!['"']
}

/// Reads the inside of an AppleScript string literal back: a backslash stands
/// for the character after it.
pub open spec fn unescaped(s: Seq<char>) -> Seq<char>
    decreases s.len(),
{
    if s.len() == 0 {
        Seq::empty()
    } else if s[0] == '\\' && s.len() >= 2 {
        seq![s[1]] + unescaped(s.subrange(2, s.len() as int))
    } else {
        seq![s[0]] + unescaped(s.drop_first())
    }
}

/// The AppleScript command that shows a notification.
pub open spec fn notification_script_text(title: Seq<char>, body: Seq<char>) -> Seq<char> {
    "display notification "@ + apple_script_literal(body) + " with title "@
        + apple_script_literal(title)
}

proof fn lemma_escaped_concat(a: Seq<char>, b: Seq<char>)
    ensures
        escaped(a + b) == escaped(a) + escaped(b),
    decreases a.len(),
{
    if a.len() == 0 {
        assert(a + b =~= b);
        assert(escaped(a) + escaped(b) =~= escaped(b));
    } else {
        assert((a + b).drop_first() =~= a.drop_first() + b);
        assert((a + b)[0] == a[0]);
        lemma_escaped_concat(a.drop_first(), b);
        assert(escaped(a + b) =~= escaped(a) + escaped(b));
    }
}

/// Writes `value` as an AppleScript string literal, in double quotes, with
/// backslashes and double quotes escaped.
pub fn apple_script_string(value: &str) -> (literal: String)
    ensures
        literal@ == apple_script_literal(value@),
{
    let n = value.unicode_len();
    let mut out = String::new();
    push_char(&mut out, '"');
    let mut i: usize = 0;
    while i < n
        invariant
            n == value@.len(),
            i <= n,
            out@ == seq!['"'] + escaped(value@.take(i as int)),
        decreases n - i,
    {
        let c = value.get_char(i);
        if c == '\\' {
            push_char(&mut out, '\\');
            push_char(&mut out, '\\');
        } else if c == '"' {
            push_char(&mut out, '\\');
            push_char(&mut out, '"');
        } else {
            push_char(&mut out, c);
        }
        proof {
            let prefix = value@.take(i as int);
            assert(value@.take(i as int + 1) =~= prefix + seq![c]);
            lemma_escaped_concat(prefix, seq![c]);
            assert(seq![c].drop_first() =~= Seq::<char>::empty());
            assert(seq![c][0] == c);
            assert(escaped(Seq::<char>::empty()) =~= Seq::<char>::empty());
            assert(escaped(seq![c]) =~= escaped_char(c) + escaped(Seq::<char>::empty()));
            assert(escaped(seq![c]) =~= escaped_char(c));
            assert(out@ =~= seq!['"'] + escaped(value@.take(i as int + 1)));
        }
        i += 1;
    }
    push_char(&mut out, '"');
    proof {
        assert(value@.take(n as int) =~= value@);
    }
    out
}

/// The AppleScript command that shows a notification with the given title and
/// body.
pub fn notification_script(title: &str, body: &str) -> (script: String)
    ensures
        script@ == notification_script_text(title@, body@),
{
    let mut script = String::from_str("display notification ");
    let quoted_body = apple_script_string(body);
    script.append(quoted_body.as_str());
    script.append(" with title ");
    let quoted_title = apple_script_string(title);
    script.append(quoted_title.as_str());
    proof {
        assert(script@ =~= notification_script_text(title@, body@));
    }
    script
}

/// Number of backslashes and double quotes in a text.
pub open spec fn count_escapable(s: Seq<char>) -> nat
    decreases s.len(),
{
    if s.len() == 0 {
        0
    } else {
        count_escapable(s.drop_first()) + if s[0] == '\\' || s[0] == '"' {
            1nat
        } else {
            0nat
        }
    }
}

/// Only backslashes and double quotes are escaped: a text without them stands
/// unchanged between the two quotes, and every literal is two quotes plus one
/// extra character per backslash or double quote longer than its text.
pub proof fn law_only_backslash_and_quote_are_escaped(s: Seq<char>)
    ensures
        (forall|i: int| 0 <= i < s.len() ==> #[trigger] s[i] != '\\' && s[i] != '"')
            ==> apple_script_literal(s) == seq!['"'] + s + seq!['"'],
        apple_script_literal(s).len() == s.len() + 2 + count_escapable(s),
        apple_script_literal(s)[0] == '"',
        apple_script_literal(s)[apple_script_literal(s).len() - 1] == '"',
{
    lemma_plain_text_escapes_to_itself(s);
    lemma_escaped_len(s);
}

proof fn lemma_plain_text_escapes_to_itself(s: Seq<char>)
    ensures
        (forall|i: int| 0 <= i < s.len() ==> #[trigger] s[i] != '\\' && s[i] != '"')
            ==> escaped(s) == s,
    decreases s.len(),
{
    if s.len() > 0 {
        let rest = s.drop_first();
        lemma_plain_text_escapes_to_itself(rest);
        if forall|i: int| 0 <= i < s.len() ==> #[trigger] s[i] != '\\' && s[i] != '"' {
            assert(s[0] != '\\' && s[0] != '"');
            assert forall|i: int| 0 <= i < rest.len() implies #[trigger] rest[i] != '\\' && rest[i]
                != '"' by {
                assert(rest[i] == s[i + 1]);
            }
            assert(escaped(s) =~= seq![s[0]] + rest);
            assert(seq![s[0]] + rest =~= s);
        }
    }
}

proof fn lemma_escaped_len(s: Seq<char>)
    ensures
        escaped(s).len() == s.len() + count_escapable(s),
    decreases s.len(),
{
    if s.len() > 0 {
        lemma_escaped_len(s.drop_first());
    }
}

/// Escaping loses nothing: reading an escaped text back gives the original.
pub proof fn law_escaping_round_trips(s: Seq<char>)
    ensures
        unescaped(escaped(s)) == s,
    decreases s.len(),
{
    if s.len() > 0 {
        let rest = s.drop_first();
        let tail = escaped(rest);
        law_escaping_round_trips(rest);
        let e = escaped(s);
        assert(e == escaped_char(s[0]) + tail);
        if s[0] == '\\' || s[0] == '"' {
            assert(e.subrange(2, e.len() as int) =~= tail);
            assert(e[0] == '\\');
            assert(e[1] == s[0]);
        } else {
            assert(e.drop_first() =~= tail);
            assert(e[0] == s[0]);
        }
        assert(unescaped(e) =~= s);
    }
}

} // verus!
