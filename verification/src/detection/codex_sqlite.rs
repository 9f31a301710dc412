//! Decoding of the rows that Codex keeps in its `state_*.sqlite` databases into
//! task records, and the choice of which files in the Codex directory are such
//! databases.

use chrono::{DateTime, Datelike, Timelike, Utc};
use vstd::prelude::*;
use vstd::string::StringExecFns;

use crate::domain::task::{weekday_from_index, TaskRecord, Weekday};
use crate::text::{
    decimal_string, decimal_text, ends_with_text, lemma_text_less_order, same_text,
    starts_with_text, text_before, text_less,
};

verus! {

/// Seconds in a day.
pub const SECONDS_PER_DAY: i64 = 86_400;

/// The first Unix timestamp chrono's calendar holds: midnight UTC on 1 January
/// of year -262143, its earliest date.
pub const CALENDAR_FIRST_SECOND: i64 = -8_334_601_228_800;

/// The last Unix timestamp chrono's calendar holds: the last second of
/// 31 December of year 262142, its latest date.
pub const CALENDAR_LAST_SECOND: i64 = 8_210_266_876_799;

/// Whether chrono's calendar holds the timestamp.
pub open spec fn in_calendar(timestamp_seconds: int) -> bool {
    CALENDAR_FIRST_SECOND <= timestamp_seconds <= CALENDAR_LAST_SECOND
}

/// The weekday of a Unix timestamp: 1970-01-01 was a Thursday.
pub open spec fn weekday_of_timestamp(timestamp_seconds: int) -> Weekday {
    weekday_from_index(timestamp_seconds / 86_400 + 3)
}

/// The second of the UTC day of a Unix timestamp.
pub open spec fn second_of_day(timestamp_seconds: int) -> int {
    timestamp_seconds % 86_400
}

/// The UTC weekday and second of the day of a Unix timestamp, by
/// `chrono::DateTime::<Utc>::from_timestamp(secs, 0)` followed by `weekday()` and
/// `num_seconds_from_midnight()` on the result. chrono counts days from the
/// epoch with Euclidean division by 86,400 and keeps the remainder as the time
/// of day; it returns `None` exactly when that day lies outside its calendar,
/// years -262143 through 262142, which is the span from
/// `CALENDAR_FIRST_SECOND` to `CALENDAR_LAST_SECOND`.
#[verifier::external_body]
fn utc_weekday_and_second(timestamp_seconds: i64) -> (parts: Option<(Weekday, u32)>)
    ensures
        parts matches Some((weekday, seconds)) ==> weekday == weekday_of_timestamp(
            timestamp_seconds as int,
        ) && seconds == second_of_day(timestamp_seconds as int),
        (parts is Some) == in_calendar(timestamp_seconds as int),
{
    match DateTime::<Utc>::from_timestamp(timestamp_seconds, 0) {
        Some(datetime) => Some((match datetime.weekday() {
            chrono::Weekday::Mon => Weekday::Mon,
            chrono::Weekday::Tue => Weekday::Tue,
            chrono::Weekday::Wed => Weekday::Wed,
            chrono::Weekday::Thu => Weekday::Thu,
            chrono::Weekday::Fri => Weekday::Fri,
            chrono::Weekday::Sat => Weekday::Sat,
            chrono::Weekday::Sun => Weekday::Sun,
        }, datetime.num_seconds_from_midnight())),
        None => None,
    }
}

/// The weekday and second of the day that `timestamp_parts` gives: those of
/// the timestamp inside chrono's calendar, those of the epoch (Thursday,
/// second 0) outside it.
pub open spec fn timestamp_parts_of(timestamp_seconds: int) -> (Weekday, u32) {
    if in_calendar(timestamp_seconds) {
        (weekday_of_timestamp(timestamp_seconds), second_of_day(timestamp_seconds) as u32)
    } else {
        (Weekday::Thu, 0u32)
    }
}

/// The UTC weekday and second of the day of a Unix timestamp; a timestamp
/// beyond the calendar falls back to the epoch (Thursday, second 0).
pub fn timestamp_parts(timestamp_seconds: i64) -> (parts: (Weekday, u32))
    ensures
        parts == timestamp_parts_of(timestamp_seconds as int),
{
    match utc_weekday_and_second(timestamp_seconds) {
        Some(parts) => parts,
        None => {
            let epoch = utc_weekday_and_second(0);
            assert(weekday_of_timestamp(0) == Weekday::Thu);
            epoch.unwrap()
        },
    }
}

/// A finished agent job as read from the `agent_jobs` table.
#[derive(Debug, Clone, PartialEq, Eq)]
pub struct AgentJobRow {
    pub id: String,
    pub name: String,
    pub status: String,
    pub started_at: Option<i64>,
    pub completed_at: Option<i64>,
    pub last_error: Option<String>,
}

/// A desktop thread as read from the `threads` table.
#[derive(Debug, Clone, PartialEq, Eq)]
pub struct ThreadRow {
    pub id: String,
    pub title: String,
    pub created_at_ms: Option<i64>,
    pub updated_at_ms: Option<i64>,
    pub created_at: i64,
    pub updated_at: i64,
}

/// Whole seconds between two millisecond times, 0 when the end is missing or
/// before the start.
pub open spec fn elapsed_seconds(started_ms: Option<i64>, completed_ms: Option<i64>) -> u64 {
    match (started_ms, completed_ms) {
        (Some(started), Some(completed)) => if completed >= started {
            ((completed - started) / 1000) as u64
        } else {
            0
        },
        _ => 0,
    }
}

/// The difference of the two times fits in an `i64`.
pub open spec fn elapsed_fits(started_ms: Option<i64>, completed_ms: Option<i64>) -> bool {
    match (started_ms, completed_ms) {
        (Some(started), Some(completed)) => completed < started || completed - started
            <= i64::MAX,
        _ => true,
    }
}

/// An agent job succeeded when its status is `completed` and it left no error.
pub open spec fn job_succeeded(row: AgentJobRow) -> bool {
    row.status@ == "completed"@ && row.last_error is None
}

/// The task record of a finished agent job. Agent jobs carry no completion
/// moment, so every job counts as finished on Monday at midnight.
pub fn agent_job_task(row: AgentJobRow) -> (task: TaskRecord)
    requires
        elapsed_fits(row.started_at, row.completed_at),
    ensures
        task.id == row.id,
        task.title == row.name,
        task.duration_seconds == elapsed_seconds(row.started_at, row.completed_at),
        task.completed_at_weekday == Weekday::Mon,
        task.completed_at_seconds == 0,
        task.success == job_succeeded(row),
{
    let duration_seconds = match (row.started_at, row.completed_at) {
        (Some(started), Some(completed)) => if completed >= started {
            ((completed - started) / 1000) as u64
        } else {
            0
        },
        _ => 0,
    };
    let success = same_text(row.status.as_str(), "completed") && row.last_error.is_none();
    TaskRecord {
        id: row.id,
        title: row.name,
        duration_seconds,
        completed_at_weekday: Weekday::Mon,
        completed_at_seconds: 0,
        success,
    }
}

/// The title a thread gets when its own is blank.
pub fn default_thread_title() -> (title: &'static str)
    ensures
        title@ == "Codex 桌面任务"@,
{
    "Codex 桌面任务"
}

/// Whether `c` has the Unicode `White_Space` property, the property by which
/// `str::trim` and `char::is_whitespace` recognise white space. The property's code points, as the Unicode
/// Character Database file PropList.txt lists them: U+0009 to U+000D, U+0020,
/// U+0085, U+00A0, U+1680, U+2000 to U+200A, U+2028, U+2029, U+202F, U+205F and
/// U+3000.
pub open spec fn is_white_space(c: char) -> bool {
    let u = c as int;
    ||| 0x09 <= u <= 0x0D
    ||| u == 0x20
    ||| u == 0x85
    ||| u == 0xA0
    ||| u == 0x1680
    ||| 0x2000 <= u <= 0x200A
    ||| u == 0x2028
    ||| u == 0x2029
    ||| u == 0x202F
    ||| u == 0x205F
    ||| u == 0x3000
}

/// Whether `c` has the Unicode `White_Space` property, the test that
/// `char::is_whitespace` and `str::trim` make.
pub fn char_is_white_space(c: char) -> (white: bool)
    ensures
        white == is_white_space(c),
{
    let u = c as u32;
    (0x09 <= u && u <= 0x0D) || u == 0x20 || u == 0x85 || u == 0xA0 || u == 0x1680 || (0x2000
        <= u && u <= 0x200A) || u == 0x2028 || u == 0x2029 || u == 0x202F || u == 0x205F || u
        == 0x3000
}

/// A title is blank when trimming white space leaves nothing of it.
pub open spec fn is_blank(title: Seq<char>) -> bool {
    forall|i: int| 0 <= i < title.len() ==> #[trigger] is_white_space(title[i])
}

/// Whether every character of `title` is white space.
pub fn title_is_blank(title: &str) -> (blank: bool)
    ensures
        blank == is_blank(title@),
{
    let chars = crate::text::chars_of(title);
    let n = chars.len();
    let mut i: usize = 0;
    while i < n
        invariant
            n == chars@.len(),
            chars@ == title@,
            i <= n,
            forall|j: int| 0 <= j < i ==> #[trigger] is_white_space(title@[j]),
        decreases n - i,
    {
        if !char_is_white_space(chars[i]) {
            return false;
        }
        i += 1;
    }
    true
}

/// The title of a thread task: the thread's own title, or the default title
/// when the thread's is blank.
pub fn thread_title(title: String, blank: bool) -> (shown: String)
    ensures
        blank ==> shown@ == "Codex 桌面任务"@,
        !blank ==> shown == title,
{
    if blank {
        String::from_str(default_thread_title())
    } else {
        title
    }
}

/// When a thread started: its millisecond creation time, else its creation
/// second times 1000.
pub open spec fn thread_started_ms(row: ThreadRow) -> int {
    match row.created_at_ms {
        Some(ms) => ms as int,
        None => row.created_at * 1000,
    }
}

/// When a thread finished: its millisecond update time, else its update second
/// times 1000.
pub open spec fn thread_completed_ms(row: ThreadRow) -> int {
    match row.updated_at_ms {
        Some(ms) => ms as int,
        None => row.updated_at * 1000,
    }
}

/// The second counts scaled to milliseconds fit in an `i64`, and so does the
/// difference of the two times.
pub open spec fn thread_row_fits(row: ThreadRow) -> bool {
    &&& i64::MIN <= row.created_at * 1000 <= i64::MAX
    &&& i64::MIN <= row.updated_at * 1000 <= i64::MAX
    &&& thread_completed_ms(row) >= thread_started_ms(row) ==> thread_completed_ms(row)
        - thread_started_ms(row) <= i64::MAX
}

/// Division rounding toward zero, as Rust's `/` on signed integers does.
pub open spec fn div_toward_zero(a: int, b: int) -> int {
    if a >= 0 {
        a / b
    } else {
        -((-a) / b)
    }
}

/// The task id of a thread finished at `completed_ms`: `thread:<id>:<ms>`.
pub open spec fn thread_task_id(id: Seq<char>, completed_ms: int) -> Seq<char> {
    "thread:"@ + id + ":"@ + decimal_text(completed_ms)
}

/// The task record of a recently updated desktop thread. Threads count as
/// successful; the completion moment is the UTC weekday and second of the
/// update time.
pub fn thread_task(row: ThreadRow) -> (task: TaskRecord)
    requires
        thread_row_fits(row),
    ensures
        task.id@ == thread_task_id(row.id@, thread_completed_ms(row)),
        is_blank(row.title@) ==> task.title@ == "Codex 桌面任务"@,
        !is_blank(row.title@) ==> task.title == row.title,
        task.duration_seconds == (if thread_completed_ms(row) >= thread_started_ms(row) {
            ((thread_completed_ms(row) - thread_started_ms(row)) / 1000) as u64
        } else {
            0u64
        }),
        (task.completed_at_weekday, task.completed_at_seconds) == timestamp_parts_of(
            div_toward_zero(thread_completed_ms(row), 1000),
        ),
        task.success,
{
    let created_fallback = row.created_at * 1000;
    let updated_fallback = row.updated_at * 1000;
    let started_ms = match row.created_at_ms {
        Some(ms) => ms,
        None => created_fallback,
    };
    let completed_ms = match row.updated_at_ms {
        Some(ms) => ms,
        None => updated_fallback,
    };
    let duration_seconds = if completed_ms >= started_ms {
        ((completed_ms - started_ms) / 1000) as u64
    } else {
        0
    };
    let moment: i64 = if completed_ms >= 0 {
        completed_ms / 1000
    } else {
        let magnitude: i128 = -(completed_ms as i128);
        (-(magnitude / 1000)) as i64
    };
    let (completed_at_weekday, completed_at_seconds) = timestamp_parts(moment);
    let mut id = String::from_str("thread:");
    id.append(row.id.as_str());
    id.append(":");
    let ms_text = decimal_string(completed_ms);
    id.append(ms_text.as_str());
    let blank = title_is_blank(row.title.as_str());
    let title = thread_title(row.title, blank);
    proof {
        assert(id@ =~= thread_task_id(row.id@, thread_completed_ms(row)));
    }
    TaskRecord {
        id,
        title,
        duration_seconds,
        completed_at_weekday,
        completed_at_seconds,
        success: true,
    }
}

/// Codex keeps its state in files named `state_*.sqlite`.
pub open spec fn is_state_database_name_text(name: Seq<char>) -> bool {
    "state_"@.is_prefix_of(name) && ".sqlite"@.is_suffix_of(name)
}

/// Whether a file name is that of a Codex state database.
pub fn is_state_database_name(name: &str) -> (is_state: bool)
    ensures
        is_state == is_state_database_name_text(name@),
{
    starts_with_text(name, "state_") && ends_with_text(name, ".sqlite")
}

/// Names in order: none comes after a later one.
pub open spec fn names_sorted(names: Seq<String>) -> bool {
    forall|i: int, j: int|
        0 <= i < j < names.len() ==> !text_less(#[trigger] names[j]@, #[trigger] names[i]@)
}

/// A file is a Codex state database exactly when its name starts with the six
/// characters `state_` and ends with the seven characters `.sqlite`; so
/// `state_5.sqlite-wal`, `state_5.sqlite-shm` and `logs_2.sqlite` are not.
pub proof fn law_state_database_name_shape(name: Seq<char>)
    ensures
        is_state_database_name_text(name) <==> {
            &&& name.len() >= 7
            &&& name[0] == 's' && name[1] == 't' && name[2] == 'a' && name[3] == 't'
            &&& name[4] == 'e' && name[5] == '_'
            &&& name[name.len() - 7] == '.' && name[name.len() - 6] == 's'
            &&& name[name.len() - 5] == 'q' && name[name.len() - 4] == 'l'
            &&& name[name.len() - 3] == 'i' && name[name.len() - 2] == 't'
            &&& name[name.len() - 1] == 'e'
        },
{
    reveal_strlit("state_");
    reveal_strlit(".sqlite");
    let p = "state_"@;
    let q = ".sqlite"@;
    if name.len() >= 7 {
        let n = name.len() as int;
        if name[0] == 's' && name[1] == 't' && name[2] == 'a' && name[3] == 't' && name[4] == 'e'
            && name[5] == '_' {
            assert(p =~= name.subrange(0, 6));
        }
        if name[n - 7] == '.' && name[n - 6] == 's' && name[n - 5] == 'q' && name[n - 4] == 'l'
            && name[n - 3] == 'i' && name[n - 2] == 't' && name[n - 1] == 'e' {
            assert(q =~= name.subrange(n - 7, n));
        }
        if p.is_prefix_of(name) {
            assert forall|k: int| 0 <= k < 6 implies name[k] == p[k] by {
                assert(name.subrange(0, 6)[k] == name[k]);
            }
            assert(p[0] == 's' && p[1] == 't' && p[2] == 'a' && p[3] == 't' && p[4] == 'e' && p[5]
                == '_');
        }
        if q.is_suffix_of(name) {
            assert forall|k: int| 0 <= k < 7 implies name[n - 7 + k] == q[k] by {
                assert(name.subrange(n - 7, n)[k] == name[n - 7 + k]);
            }
            assert(q[0] == '.' && q[1] == 's' && q[2] == 'q' && q[3] == 'l' && q[4] == 'i' && q[5]
                == 't' && q[6] == 'e');
        }
    }
}

/// Keeps the file names that are Codex state databases, in ascending order.
pub fn select_state_databases(names: &Vec<String>) -> (selected: Vec<String>)
    ensures
        names_sorted(selected@),
        selected@.to_multiset() == names@.filter(
            |name: String| is_state_database_name_text(name@),
        ).to_multiset(),
{
    broadcast use vstd::seq_lib::group_to_multiset_ensures;

    let ghost keep = |name: String| is_state_database_name_text(name@);
    let n = names.len();
    let mut selected: Vec<String> = Vec::new();
    let mut i: usize = 0;
    proof {
        assert(names@.take(0).filter(keep) =~= Seq::<String>::empty());
    }
    while i < n
        invariant
            n == names@.len(),
            i <= n,
            keep == (|name: String| is_state_database_name_text(name@)),
            names_sorted(selected@),
            selected@.to_multiset() == names@.take(i as int).filter(keep).to_multiset(),
        decreases n - i,
    {
        let name = &names[i];
        proof {
            assert(names@.take(i as int + 1) =~= names@.take(i as int).push(names@[i as int]));
            names@.take(i as int).lemma_filter_push(names@[i as int], keep);
        }
        if is_state_database_name(name.as_str()) {
            let position = insertion_point(&selected, name.as_str());
            let ghost before = selected@;
            selected.insert(position, name.clone());
            proof {
                vstd::seq_lib::to_multiset_insert(before, position as int, *name);
                vstd::seq_lib::to_multiset_build(names@.take(i as int).filter(keep), *name);
                assert forall|a: int, b: int| 0 <= a < b < selected@.len() implies !text_less(
                    #[trigger] selected@[b]@,
                    #[trigger] selected@[a]@,
                ) by {
                    let p = position as int;
                    if b == p {
                        assert(selected@[a] == before[a]);
                        assert(!text_less(name@, before[a]@));
                    } else if a == p {
                        assert(selected@[b] == before[b - 1]);
                        lemma_text_less_order(name@, before[p]@, name@);
                        if b - 1 > p {
                            assert(!text_less(before[b - 1]@, before[p]@));
                            lemma_text_less_order(before[b - 1]@, name@, before[p]@);
                        }
                    } else if a < p && b < p {
                        assert(selected@[a] == before[a]);
                        assert(selected@[b] == before[b]);
                        assert(!text_less(before[b]@, before[a]@));
                    } else if a < p {
                        assert(selected@[a] == before[a]);
                        assert(selected@[b] == before[b - 1]);
                        assert(!text_less(before[b - 1]@, before[a]@));
                    } else {
                        assert(selected@[a] == before[a - 1]);
                        assert(selected@[b] == before[b - 1]);
                        assert(!text_less(before[b - 1]@, before[a - 1]@));
                    }
                }
            }
        }
        i += 1;
    }
    proof {
        assert(names@.take(n as int) =~= names@);
    }
    selected
}

/// The first position in sorted `names` whose name comes strictly after `name`,
/// so that inserting there keeps the names sorted.
fn insertion_point(names: &Vec<String>, name: &str) -> (position: usize)
    requires
        names_sorted(names@),
    ensures
        position <= names@.len(),
        forall|k: int| 0 <= k < position ==> !text_less(name@, #[trigger] names@[k]@),
        position < names@.len() ==> text_less(name@, names@[position as int]@),
{
    let n = names.len();
    let mut k: usize = 0;
    while k < n
        invariant
            n == names@.len(),
            k <= n,
            forall|j: int| 0 <= j < k ==> !text_less(name@, #[trigger] names@[j]@),
        decreases n - k,
    {
        if text_before(name, names[k].as_str()) {
            return k;
        }
        k += 1;
    }
    n
}

} // verus!
