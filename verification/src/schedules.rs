//! The static schedule data: an ordered list of named blocks for each school
//! day, each block given as a name and a pair of "hour:minute" strings.
use vstd::prelude::*;

verus! {

/// One row of a day's schedule: a display name and the start and end times
/// as "hour:minute" strings.
pub struct ScheduleEntry {
    pub name: String,
    pub start: String,
    pub end: String,
}

/// A day of the week.
#[derive(Clone, Copy, Debug, PartialEq, Eq, Structural)]
pub enum Day {
    Mon,
    Tue,
    Wed,
    Thu,
    Fri,
    Sat,
    Sun,
}

/// Whether an entry holds exactly the given name, start and end strings.
pub open spec fn entry_is(e: ScheduleEntry, name: Seq<char>, start: Seq<char>, end: Seq<char>) -> bool {
    e.name@ == name && e.start@ == start && e.end@ == end
}

/// Whether a list of entries holds exactly the given (name, start, end)
/// triples, in order.
pub open spec fn entries_match(
    es: Seq<ScheduleEntry>,
    ts: Seq<(Seq<char>, Seq<char>, Seq<char>)>,
) -> bool {
    es.len() == ts.len() && forall|i: int|
        0 <= i < es.len() ==> entry_is(#[trigger] es[i], ts[i].0, ts[i].1, ts[i].2)
}

/// Common morning schedule for full-length days.
pub open spec fn full_schedule_base_spec() -> Seq<(Seq<char>, Seq<char>, Seq<char>)> {
    seq![
        ("Block 1"@, "7:30"@, "8:36"@),
        ("Block 2"@, "8:44"@, "9:44"@),
        ("Block 3"@, "9:52"@, "10:52"@),
        ("Block 4"@, "11:00"@, "12:00"@),
        ("Lunch"@, "12:00"@, "1:00"@),
    ]
}

/// Repeats blocks 1 and 2 in the afternoon.
pub open spec fn afternoon_schedule_c_spec() -> Seq<(Seq<char>, Seq<char>, Seq<char>)> {
    seq![("Block 1"@, "1:00"@, "1:25"@), ("Block 2"@, "1:30"@, "1:55"@)]
}

/// Repeats blocks 3 and 4 in the afternoon.
pub open spec fn afternoon_schedule_d_spec() -> Seq<(Seq<char>, Seq<char>, Seq<char>)> {
    seq![("Block 3"@, "1:00"@, "1:25"@), ("Block 4"@, "1:30"@, "1:55"@)]
}

/// No afternoon session.
pub open spec fn half_day_schedule_spec() -> Seq<(Seq<char>, Seq<char>, Seq<char>)> {
    seq![
        ("Block 1"@, "7:30"@, "8:30"@),
        ("Block 2"@, "8:40"@, "9:40"@),
        ("Block 3"@, "9:50"@, "10:50"@),
        ("Block 4"@, "11:00"@, "12:00"@),
    ]
}

/// The schedule for a day: the morning base with the matching afternoon
/// blocks on full days, the half-day list on Wednesday, and none on the
/// weekend.
pub open spec fn day_schedule_spec(day: Day) -> Option<Seq<(Seq<char>, Seq<char>, Seq<char>)>> {
    match day {
        Day::Mon | Day::Tue => Some(full_schedule_base_spec() + afternoon_schedule_c_spec()),
        Day::Wed => Some(half_day_schedule_spec()),
        Day::Thu | Day::Fri => Some(full_schedule_base_spec() + afternoon_schedule_d_spec()),
        Day::Sat | Day::Sun => None,
    }
}

fn entry(name: &str, start: &str, end: &str) -> (e: ScheduleEntry)
    ensures
        entry_is(e, name@, start@, end@),
{
    ScheduleEntry { name: name.to_owned(), start: start.to_owned(), end: end.to_owned() }
}

/// Common morning schedule for full-length days.
pub fn full_schedule_base() -> (r: Vec<ScheduleEntry>)
    ensures
        entries_match(r@, full_schedule_base_spec()),
{
    let mut v: Vec<ScheduleEntry> = Vec::new();
    v.push(entry("Block 1", "7:30", "8:36"));
    v.push(entry("Block 2", "8:44", "9:44"));
    v.push(entry("Block 3", "9:52", "10:52"));
    v.push(entry("Block 4", "11:00", "12:00"));
    v.push(entry("Lunch", "12:00", "1:00"));
    v
}

/// Repeats blocks 1 and 2 in the afternoon.
pub fn afternoon_schedule_c() -> (r: Vec<ScheduleEntry>)
    ensures
        entries_match(r@, afternoon_schedule_c_spec()),
{
    let mut v: Vec<ScheduleEntry> = Vec::new();
    v.push(entry("Block 1", "1:00", "1:25"));
    v.push(entry("Block 2", "1:30", "1:55"));
    v
}

/// Repeats blocks 3 and 4 in the afternoon.
pub fn afternoon_schedule_d() -> (r: Vec<ScheduleEntry>)
    ensures
        entries_match(r@, afternoon_schedule_d_spec()),
{
    let mut v: Vec<ScheduleEntry> = Vec::new();
    v.push(entry("Block 3", "1:00", "1:25"));
    v.push(entry("Block 4", "1:30", "1:55"));
    v
}

/// No afternoon session.
pub fn half_day_schedule() -> (r: Vec<ScheduleEntry>)
    ensures
        entries_match(r@, half_day_schedule_spec()),
{
    let mut v: Vec<ScheduleEntry> = Vec::new();
    v.push(entry("Block 1", "7:30", "8:30"));
    v.push(entry("Block 2", "8:40", "9:40"));
    v.push(entry("Block 3", "9:50", "10:50"));
    v.push(entry("Block 4", "11:00", "12:00"));
    v
}

proof fn lemma_entries_match_concat(
    es1: Seq<ScheduleEntry>,
    ts1: Seq<(Seq<char>, Seq<char>, Seq<char>)>,
    es2: Seq<ScheduleEntry>,
    ts2: Seq<(Seq<char>, Seq<char>, Seq<char>)>,
)
    requires
        entries_match(es1, ts1),
        entries_match(es2, ts2),
    ensures
        entries_match(es1 + es2, ts1 + ts2),
{
    assert forall|i: int| 0 <= i < (es1 + es2).len() implies entry_is(
        #[trigger] (es1 + es2)[i],
        (ts1 + ts2)[i].0,
        (ts1 + ts2)[i].1,
        (ts1 + ts2)[i].2,
    ) by {
        if i < es1.len() {
            assert(entry_is(es1[i], ts1[i].0, ts1[i].1, ts1[i].2));
        } else {
            assert(entry_is(es2[i - es1.len()], ts2[i - ts1.len()].0, ts2[i - ts1.len()].1, ts2[i - ts1.len()].2));
        }
    }
}

/// The ordered list of named blocks for the given day, or `None` on a day
/// with no school.
pub fn day_schedule(day: Day) -> (r: Option<Vec<ScheduleEntry>>)
    ensures
        r is Some <==> day_schedule_spec(day) is Some,
        r matches Some(v) ==> entries_match(v@, day_schedule_spec(day)->Some_0),
{
    match day {
        Day::Mon | Day::Tue => {
            let mut v = full_schedule_base();
            let mut a = afternoon_schedule_c();
            proof {
                lemma_entries_match_concat(
                    v@,
                    full_schedule_base_spec(),
                    a@,
                    afternoon_schedule_c_spec(),
                );
            }
            v.append(&mut a);
            Some(v)
        },
        Day::Wed => Some(half_day_schedule()),
        Day::Thu | Day::Fri => {
            let mut v = full_schedule_base();
            let mut a = afternoon_schedule_d();
            proof {
                lemma_entries_match_concat(
                    v@,
                    full_schedule_base_spec(),
                    a@,
                    afternoon_schedule_d_spec(),
                );
            }
            v.append(&mut a);
            Some(v)
        },
        Day::Sat | Day::Sun => None,
    }
}

} // verus!
