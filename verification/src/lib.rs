//! A daily class-schedule library: named time blocks, a classifier that
//! reports each block's state relative to the current time, and the row
//! selection logic behind the schedule table.
use vstd::prelude::*;
use vstd::string::StringExecFns;

pub mod render;
pub mod schedules;
pub mod time;

use crate::time::Time;

verus! {

/// The state of a block relative to a query time.
#[derive(Clone, Copy, Debug, PartialEq, Eq, Structural)]
pub enum Order {
    /// Block already finished
    Finished,
    /// Block is in progress
    InProgress,
    /// Block has not begun yet
    NotStarted,
}

/// The three-way classification of a query instant `now` against an interval
/// `[start, end]`, all in minutes since midnight: before `start` the block has
/// not started, from `start` through `end` (inclusive) it is in progress, and
/// past `end` it is finished.
pub open spec fn classify_spec(start: int, end: int, now: int) -> Order {
    if end - now > end - start {
        Order::NotStarted
    } else if end - now >= 0 {
        Order::InProgress
    } else {
        Order::Finished
    }
}

/// Whether `now` lies strictly inside the open interval `(start, end)`;
/// unlike `classify_spec`, both boundaries are excluded.
pub open spec fn contains_spec(start: int, end: int, now: int) -> bool {
    start < now && now < end
}

/// A single block of time in the schedule.
pub struct Block {
    start_time: Time,
    end_time: Time,
    // caches this value rather than recalculating each time
    length: i32,
}

impl Block {
    pub closed spec fn start_time_spec(self) -> Time {
        self.start_time
    }

    pub closed spec fn end_time_spec(self) -> Time {
        self.end_time
    }

    /// Start of the block, in minutes since midnight.
    pub open spec fn start_min(self) -> int {
        self.start_time_spec().minutes()
    }

    /// End of the block, in minutes since midnight.
    pub open spec fn end_min(self) -> int {
        self.end_time_spec().minutes()
    }

    /// The cached length agrees with the end points.
    pub closed spec fn wf(self) -> bool {
        self.length == self.end_min() - self.start_min()
    }

    /// The classification of this block at minute `now`.
    pub open spec fn order_at(self, now: int) -> Order {
        classify_spec(self.start_min(), self.end_min(), now)
    }

    pub fn new(start_time: Time, end_time: Time) -> (b: Block)
        ensures
            b.wf(),
            b.start_time_spec() == start_time,
            b.end_time_spec() == end_time,
    {
        Block {
            start_time,
            end_time,
            length: end_time.total_minutes() as i32 - start_time.total_minutes() as i32,
        }
    }

    pub fn check_order(&self, time: &Time) -> (r: Order)
        requires
            self.wf(),
        ensures
            r == self.order_at(time.minutes()),
    {
        let duration: i32 = self.end_time.total_minutes() as i32 - time.total_minutes() as i32;

        if duration > self.length {
            // duration extends past the beginning of the block
            // block hasn't started yet
            Order::NotStarted
        } else if duration >= 0 {
            // duration between 0 and block length
            // block is in progress
            Order::InProgress
        } else {
            // the end time of the block has passed
            // the block has finished
            Order::Finished
        }
    }

    /// Whether `time` falls strictly inside the block: exactly hitting either
    /// boundary is reported as not contained, unlike `check_order`, which
    /// treats both boundaries as in progress.
    pub fn contains(&self, time: &Time) -> (r: bool)
        ensures
            r == contains_spec(self.start_min(), self.end_min(), time.minutes()),
    {
        let t = time.total_minutes();
        self.start_time.total_minutes() < t && t < self.end_time.total_minutes()
    }

    /// The block's time range in "HH:MM - HH:MM" form.
    pub open spec fn display_spec(self) -> Seq<char> {
        self.start_time_spec().hhmm_spec() + seq![' ', '-', ' '] + self.end_time_spec().hhmm_spec()
    }

    /// Writes the block's time range in "HH:MM - HH:MM" form.
    pub fn time_range_string(&self) -> (r: String)
        requires
            self.start_time_spec().valid(),
            self.end_time_spec().valid(),
        ensures
            r@ == self.display_spec(),
    {
        let mut r = self.start_time.hhmm();
        proof {
            reveal_strlit(" - ");
            assert(" - "@ =~= seq![' ', '-', ' ']);
        }
        r.append(" - ");
        let end = self.end_time.hhmm();
        r.append(end.as_str());
        proof {
            assert(r@ =~= self.display_spec());
        }
        r
    }
}

/// A query instant strictly between the ends of an interval is classified as
/// in progress.
pub proof fn lemma_strictly_inside_in_progress(start: int, end: int, now: int)
    requires
        start < end,
        start < now,
        now < end,
    ensures
        classify_spec(start, end, now) == Order::InProgress,
{
}

/// A query instant before the start of an interval is classified as not
/// started.
pub proof fn lemma_before_start_not_started(start: int, end: int, now: int)
    requires
        now < start,
    ensures
        classify_spec(start, end, now) == Order::NotStarted,
{
}

/// A query instant after the end of an interval is classified as finished.
pub proof fn lemma_after_end_finished(start: int, end: int, now: int)
    requires
        start <= end,
        now > end,
    ensures
        classify_spec(start, end, now) == Order::Finished,
{
}

/// The boundary asymmetry between the classifier and containment: at exactly
/// the end of an interval the classifier still reports in progress (and so it
/// does at exactly the start), while containment excludes both boundaries.
pub proof fn lemma_boundary_asymmetry(start: int, end: int)
    requires
        start <= end,
    ensures
        classify_spec(start, end, end) == Order::InProgress,
        classify_spec(start, end, start) == Order::InProgress,
        !contains_spec(start, end, end),
        !contains_spec(start, end, start),
{
}

/// Classifying every block of a chronologically ordered list with strictly
/// separated blocks against one query instant partitions the list: at most
/// one block is in progress, the finished blocks form a prefix, and the
/// not-started blocks form a suffix.
pub proof fn lemma_classification_partitions(blocks: Seq<Block>, now: int)
    requires
        forall|i: int| 0 <= i < blocks.len() ==> #[trigger] blocks[i].start_min() <= blocks[i].end_min(),
        forall|i: int, j: int|
            0 <= i < j < blocks.len() ==> #[trigger] blocks[i].end_min() < #[trigger] blocks[j].start_min(),
    ensures
        forall|i: int, j: int|
            0 <= i < j < blocks.len() ==> !(#[trigger] blocks[i].order_at(now) == Order::InProgress
                && #[trigger] blocks[j].order_at(now) == Order::InProgress),
        forall|i: int, j: int|
            0 <= i < j < blocks.len() && #[trigger] blocks[j].order_at(now) == Order::Finished
                ==> #[trigger] blocks[i].order_at(now) == Order::Finished,
        forall|i: int, j: int|
            0 <= i < j < blocks.len() && #[trigger] blocks[i].order_at(now) == Order::NotStarted
                ==> #[trigger] blocks[j].order_at(now) == Order::NotStarted,
{
}

} // verus!
