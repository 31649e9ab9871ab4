use unicode_schedule::render::{classify_entries, render_plan, RenderOutcome, RowStyle};
use unicode_schedule::schedules::{day_schedule, Day, ScheduleEntry};
use unicode_schedule::time::Time;
use unicode_schedule::Order;

#[test]
fn weekdays_have_schedules_and_weekend_has_none() {
    assert!(day_schedule(Day::Mon).is_some());
    assert!(day_schedule(Day::Tue).is_some());
    assert!(day_schedule(Day::Wed).is_some());
    assert!(day_schedule(Day::Thu).is_some());
    assert!(day_schedule(Day::Fri).is_some());
    assert!(day_schedule(Day::Sat).is_none());
    assert!(day_schedule(Day::Sun).is_none());
}

#[test]
fn full_day_repeats_morning_blocks_in_the_afternoon() {
    let mon = day_schedule(Day::Mon).unwrap();
    let names: Vec<&str> = mon.iter().map(|e| e.name.as_str()).collect();
    assert_eq!(
        names,
        vec!["Block 1", "Block 2", "Block 3", "Block 4", "Lunch", "Block 1", "Block 2"]
    );
    let thu = day_schedule(Day::Thu).unwrap();
    let names: Vec<&str> = thu.iter().map(|e| e.name.as_str()).collect();
    assert_eq!(
        names,
        vec!["Block 1", "Block 2", "Block 3", "Block 4", "Lunch", "Block 3", "Block 4"]
    );
    let wed = day_schedule(Day::Wed).unwrap();
    assert_eq!(wed.len(), 4);
    assert_eq!(wed[3].end, "12:00");
}

#[test]
fn monday_morning_at_nine() {
    // On a Monday at 09:00, Block 2 (8:44 - 9:44) is in progress, Block 1 is
    // finished, and every later block has not started.
    let entries = day_schedule(Day::Mon).unwrap();
    let now = Time::new(9, 0);
    let orders = classify_entries(&entries, now).unwrap();
    assert_eq!(orders.len(), 7);
    assert_eq!(orders[0], Order::Finished);
    assert_eq!(orders[1], Order::InProgress);
    for o in &orders[2..] {
        assert_eq!(*o, Order::NotStarted);
    }
    assert_eq!(entries[1].name, "Block 2");
    assert_eq!(entries[1].start, "8:44");
    assert_eq!(entries[1].end, "9:44");

    match render_plan(&entries, now, false).unwrap() {
        RenderOutcome::Table(rows) => {
            assert_eq!(
                rows,
                vec![
                    (0, RowStyle::Finished),
                    (1, RowStyle::Current),
                    (2, RowStyle::Next),
                    (3, RowStyle::Upcoming),
                    (4, RowStyle::Upcoming),
                    (5, RowStyle::Upcoming),
                    (6, RowStyle::Upcoming),
                ]
            );
        }
        RenderOutcome::SchoolOver => panic!("expected a table"),
    }

    match render_plan(&entries, now, true).unwrap() {
        RenderOutcome::Table(rows) => {
            assert_eq!(rows[0], (1, RowStyle::Current));
            assert_eq!(rows[1], (2, RowStyle::Next));
            assert_eq!(rows.len(), 6);
        }
        RenderOutcome::SchoolOver => panic!("expected a table"),
    }
}

#[test]
fn wednesday_afternoon_is_school_over_when_filtering() {
    // On a Wednesday at 13:00 the half-day schedule has ended, so asking for
    // the remaining blocks ends in the "school is over" state.
    let entries = day_schedule(Day::Wed).unwrap();
    let now = Time::new(13, 0);
    let orders = classify_entries(&entries, now).unwrap();
    for o in &orders {
        assert_eq!(*o, Order::Finished);
    }
    match render_plan(&entries, now, true).unwrap() {
        RenderOutcome::SchoolOver => {}
        RenderOutcome::Table(_) => panic!("expected the school-over state"),
    }
}

#[test]
fn wednesday_afternoon_without_filter_shows_every_row() {
    let entries = day_schedule(Day::Wed).unwrap();
    let now = Time::new(13, 0);
    match render_plan(&entries, now, false).unwrap() {
        RenderOutcome::Table(rows) => {
            assert_eq!(
                rows,
                vec![
                    (0, RowStyle::Next),
                    (1, RowStyle::Next),
                    (2, RowStyle::Next),
                    (3, RowStyle::Next),
                ]
            );
        }
        RenderOutcome::SchoolOver => panic!("expected a table"),
    }
}

#[test]
fn before_school_every_row_is_still_to_come() {
    let entries = day_schedule(Day::Mon).unwrap();
    let now = Time::new(6, 0);
    match render_plan(&entries, now, false).unwrap() {
        RenderOutcome::Table(rows) => {
            assert_eq!(rows.len(), 7);
            for (_, style) in &rows {
                assert_eq!(*style, RowStyle::Next);
            }
        }
        RenderOutcome::SchoolOver => panic!("expected a table"),
    }
}

#[test]
fn touching_blocks_are_both_in_progress_at_the_shared_boundary() {
    // Block 4 ends at 12:00 and Lunch starts at 12:00; the inclusive
    // boundaries of the classifier report both as in progress there.
    let entries = day_schedule(Day::Mon).unwrap();
    let orders = classify_entries(&entries, Time::new(12, 0)).unwrap();
    assert_eq!(orders[3], Order::InProgress);
    assert_eq!(orders[4], Order::InProgress);
}

#[test]
fn malformed_time_string_fails_classification() {
    let entries = vec![ScheduleEntry {
        name: String::from("Block 1"),
        start: String::from("7:30"),
        end: String::from("late"),
    }];
    assert!(classify_entries(&entries, Time::new(9, 0)).is_none());
    assert!(render_plan(&entries, Time::new(9, 0), false).is_none());
}
