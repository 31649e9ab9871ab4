//! The row selection logic behind the schedule table: classify every entry of
//! a day's schedule against the current time, then decide which rows appear
//! and with which styling.
use vstd::prelude::*;

use crate::schedules::ScheduleEntry;
use crate::time::Time;
use crate::time::parse_time;
use crate::time::parse_time_spec;
use crate::Block;
use crate::Order;
use crate::classify_spec;

verus! {

/// The styling of one visible row of the table.
#[derive(Clone, Copy, Debug, PartialEq, Eq, Structural)]
pub enum RowStyle {
    /// A block that has already passed
    Finished,
    /// The block in progress
    Current,
    /// The first block still to come
    Next,
    /// A block after the next one
    Upcoming,
}

/// What the table pass decides: either the terminal state where only the
/// remaining blocks were asked for and none remain, or the list of visible
/// rows, each an index into the day's entries with its styling.
pub enum RenderOutcome {
    SchoolOver,
    Table(Vec<(usize, RowStyle)>),
}

/// Whether both time strings of an entry parse.
pub open spec fn entry_parses(e: ScheduleEntry) -> bool {
    parse_time_spec(e.start@) is Some && parse_time_spec(e.end@) is Some
}

/// The classification of an entry's block at minute `now`.
pub open spec fn entry_order_spec(e: ScheduleEntry, now: int) -> Order
    recommends
        entry_parses(e),
{
    classify_spec(
        parse_time_spec(e.start@)->Some_0.minutes(),
        parse_time_spec(e.end@)->Some_0.minutes(),
        now,
    )
}

/// The classification of every entry of a list at minute `now`.
pub open spec fn orders_spec(entries: Seq<ScheduleEntry>, now: int) -> Seq<Order> {
    Seq::new(entries.len(), |i: int| entry_order_spec(entries[i], now))
}

/// Classifies every entry of a day's schedule against `now`, or returns
/// `None` if any entry's time strings are malformed.
pub fn classify_entries(entries: &Vec<ScheduleEntry>, now: Time) -> (r: Option<Vec<Order>>)
    ensures
        r is Some <==> (forall|i: int| 0 <= i < entries@.len() ==> entry_parses(#[trigger] entries@[i])),
        r matches Some(v) ==> v@ == orders_spec(entries@, now.minutes()),
{
    let mut orders: Vec<Order> = Vec::new();
    let mut i: usize = 0;
    while i < entries.len()
        invariant
            0 <= i <= entries@.len(),
            orders@.len() == i,
            forall|j: int| 0 <= j < i ==> entry_parses(#[trigger] entries@[j]),
            forall|j: int|
                0 <= j < i ==> orders@[j] == entry_order_spec(#[trigger] entries@[j], now.minutes()),
        decreases entries@.len() - i,
    {
        let start = match parse_time(entries[i].start.as_str()) {
            Some(t) => t,
            None => {
                return None;
            },
        };
        let end = match parse_time(entries[i].end.as_str()) {
            Some(t) => t,
            None => {
                return None;
            },
        };
        orders.push(Block::new(start, end).check_order(&now));
        i += 1;
    }
    proof {
        assert(orders@ =~= orders_spec(entries@, now.minutes()));
    }
    Some(orders)
}

/// The index of the first entry at or after `from` whose classification is
/// `target`, if any.
pub open spec fn spec_first_from(orders: Seq<Order>, from: int, target: Order) -> Option<int>
    decreases orders.len() - from,
{
    if from < 0 || from >= orders.len() {
        None
    } else if orders[from] == target {
        Some(from)
    } else {
        spec_first_from(orders, from + 1, target)
    }
}

/// Finds the first entry at or after `from` classified as `target`.
pub fn first_from(orders: &Vec<Order>, from: usize, target: Order) -> (r: Option<usize>)
    requires
        from <= orders@.len(),
    ensures
        r matches Some(i) ==> from <= i < orders@.len() && orders@[i as int] == target
            && spec_first_from(orders@, from as int, target) == Some(i as int),
        r is None ==> spec_first_from(orders@, from as int, target) is None,
{
    let mut i: usize = from;
    while i < orders.len()
        invariant
            from <= i <= orders@.len(),
            spec_first_from(orders@, from as int, target) == spec_first_from(orders@, i as int, target),
        decreases orders@.len() - i,
    {
        if orders[i] == target {
            return Some(i);
        }
        i += 1;
    }
    None
}

/// Whether the pass ends in the "school is over" terminal state: only the
/// remaining blocks were asked for, and no block is in progress.
pub open spec fn school_over_spec(orders: Seq<Order>, only_remaining: bool) -> bool {
    only_remaining && spec_first_from(orders, 0, Order::InProgress) is None
}

/// The visible rows for a classified schedule: with a block in progress, the
/// passed rows (kept only when all blocks were asked for), then the current
/// row, then, where a block is still to come, the next row and everything
/// after it; with no block in progress, every row styled as still to come.
pub open spec fn plan_spec(orders: Seq<Order>, only_remaining: bool) -> Seq<(int, RowStyle)> {
    match spec_first_from(orders, 0, Order::InProgress) {
        Some(c) => (if only_remaining {
            Seq::<(int, RowStyle)>::empty()
        } else {
            Seq::new(c as nat, |i: int| (i, RowStyle::Finished))
        }) + seq![(c, RowStyle::Current)] + (match spec_first_from(orders, c, Order::NotStarted) {
            Some(nx) => seq![(nx, RowStyle::Next)] + Seq::new(
                (orders.len() - nx - 1) as nat,
                |i: int| (nx + 1 + i, RowStyle::Upcoming),
            ),
            None => Seq::<(int, RowStyle)>::empty(),
        }),
        None => Seq::new(orders.len(), |i: int| (i, RowStyle::Next)),
    }
}

/// Whether the executable rows carry exactly the planned indices and styles.
pub open spec fn rows_match(rs: Seq<(usize, RowStyle)>, ps: Seq<(int, RowStyle)>) -> bool {
    rs.len() == ps.len() && forall|i: int|
        0 <= i < rs.len() ==> (#[trigger] rs[i]).0 as int == ps[i].0 && rs[i].1 == ps[i].1
}

/// Decides which rows of a classified schedule are shown and how each is
/// styled, or that the "school is over" terminal state holds.
pub fn plan_rows(orders: &Vec<Order>, only_remaining: bool) -> (r: RenderOutcome)
    ensures
        r is SchoolOver <==> school_over_spec(orders@, only_remaining),
        r matches RenderOutcome::Table(rows) ==> rows_match(rows@, plan_spec(orders@, only_remaining)),
{
    let n = orders.len();
    let current_block_index = first_from(orders, 0, Order::InProgress);

    if only_remaining && current_block_index.is_none() {
        return RenderOutcome::SchoolOver;
    }

    let mut rows: Vec<(usize, RowStyle)> = Vec::new();

    if let Some(current) = current_block_index {
        let ghost p: int = if only_remaining {
            0
        } else {
            current as int
        };

        // add passed blocks
        // if you want to print everything, print the ones leading up to the
        // current block
        if !only_remaining {
            let mut i: usize = 0;
            while i < current
                invariant
                    0 <= i <= current,
                    rows@.len() == i,
                    forall|j: int|
                        0 <= j < i ==> (#[trigger] rows@[j]).0 == j && rows@[j].1
                            == RowStyle::Finished,
                decreases current - i,
            {
                rows.push((i, RowStyle::Finished));
                i += 1;
            }
        }

        // add current row
        rows.push((current, RowStyle::Current));

        if let Some(next) = first_from(orders, current, Order::NotStarted) {
            // add next block with styling
            rows.push((next, RowStyle::Next));

            // add rest of cells
            let mut i: usize = next + 1;
            while i < n
                invariant
                    n == orders@.len(),
                    0 <= p,
                    next < n,
                    next + 1 <= i <= n,
                    rows@.len() == p + 2 + (i - next - 1),
                    forall|j: int|
                        0 <= j < p ==> (#[trigger] rows@[j]).0 == j && rows@[j].1
                            == RowStyle::Finished,
                    rows@[p].0 == current && rows@[p].1 == RowStyle::Current,
                    rows@[p + 1].0 == next && rows@[p + 1].1 == RowStyle::Next,
                    forall|j: int|
                        p + 2 <= j < rows@.len() ==> (#[trigger] rows@[j]).0 == next + 1 + (j - p
                            - 2) && rows@[j].1 == RowStyle::Upcoming,
                decreases n - i,
            {
                rows.push((i, RowStyle::Upcoming));
                i += 1;
            }

            proof {
                let plan = plan_spec(orders@, only_remaining);
                assert(rows@.len() == plan.len());
                assert forall|j: int| 0 <= j < rows@.len() implies (#[trigger] rows@[j]).0 as int
                    == plan[j].0 && rows@[j].1 == plan[j].1 by {
                    if j < p {
                    } else if j == p {
                    } else if j == p + 1 {
                    } else {
                        assert(plan[j] == (next + 1 + (j - p - 2), RowStyle::Upcoming));
                    }
                }
            }
        } else {
            proof {
                let plan = plan_spec(orders@, only_remaining);
                assert(rows@.len() == plan.len());
                assert forall|j: int| 0 <= j < rows@.len() implies (#[trigger] rows@[j]).0 as int
                    == plan[j].0 && rows@[j].1 == plan[j].1 by {
                    if j < p {
                    } else {
                        assert(j == p);
                    }
                }
            }
        }
    } else {
        // add all cells
        let mut i: usize = 0;
        while i < n
            invariant
                n == orders@.len(),
                0 <= i <= n,
                rows@.len() == i,
                forall|j: int|
                    0 <= j < i ==> (#[trigger] rows@[j]).0 == j && rows@[j].1 == RowStyle::Next,
            decreases n - i,
        {
            rows.push((i, RowStyle::Next));
            i += 1;
        }
    }

    RenderOutcome::Table(rows)
}

/// Classifies a day's schedule against `now` and decides the visible rows,
/// or returns `None` if any entry's time strings are malformed.
pub fn render_plan(entries: &Vec<ScheduleEntry>, now: Time, only_remaining: bool) -> (r: Option<
    RenderOutcome,
>)
    ensures
        r is Some <==> (forall|i: int| 0 <= i < entries@.len() ==> entry_parses(#[trigger] entries@[i])),
        r matches Some(out) ==> {
            let orders = orders_spec(entries@, now.minutes());
            &&& (out is SchoolOver <==> school_over_spec(orders, only_remaining))
            &&& (out matches RenderOutcome::Table(rows) ==> rows_match(
                rows@,
                plan_spec(orders, only_remaining),
            ))
        },
{
    match classify_entries(entries, now) {
        Some(orders) => Some(plan_rows(&orders, only_remaining)),
        None => None,
    }
}

} // verus!
