use unicode_schedule::time::Time;
use unicode_schedule::{Block, Order};

fn block(sh: u8, sm: u8, eh: u8, em: u8) -> Block {
    Block::new(Time::new(sh, sm), Time::new(eh, em))
}

#[test]
fn strictly_inside_is_in_progress() {
    let b = block(7, 30, 8, 36);
    assert_eq!(b.check_order(&Time::new(8, 0)), Order::InProgress);
    assert_eq!(b.check_order(&Time::new(7, 31)), Order::InProgress);
    assert_eq!(b.check_order(&Time::new(8, 35)), Order::InProgress);
}

#[test]
fn before_start_is_not_started() {
    let b = block(7, 30, 8, 36);
    assert_eq!(b.check_order(&Time::new(6, 0)), Order::NotStarted);
    assert_eq!(b.check_order(&Time::new(7, 29)), Order::NotStarted);
}

#[test]
fn after_end_is_finished() {
    let b = block(7, 30, 8, 36);
    assert_eq!(b.check_order(&Time::new(8, 37)), Order::Finished);
    assert_eq!(b.check_order(&Time::new(23, 59)), Order::Finished);
}

#[test]
fn end_boundary_is_inclusive_for_check_order() {
    let b = block(7, 30, 8, 36);
    assert_eq!(b.check_order(&Time::new(8, 36)), Order::InProgress);
    assert_eq!(b.check_order(&Time::new(7, 30)), Order::InProgress);
}

#[test]
fn contains_is_open_at_both_boundaries() {
    let b = block(7, 30, 8, 36);
    assert!(!b.contains(&Time::new(8, 36)));
    assert!(!b.contains(&Time::new(7, 30)));
    assert!(b.contains(&Time::new(7, 31)));
    assert!(b.contains(&Time::new(8, 35)));
    assert!(!b.contains(&Time::new(6, 0)));
    assert!(!b.contains(&Time::new(9, 0)));
}

#[test]
fn ordered_list_partitions_into_prefix_current_suffix() {
    let blocks = vec![
        block(7, 30, 8, 36),
        block(8, 44, 9, 44),
        block(9, 52, 10, 52),
        block(11, 0, 12, 0),
    ];
    let now = Time::new(9, 0);
    let orders: Vec<Order> = blocks.iter().map(|b| b.check_order(&now)).collect();
    assert_eq!(
        orders,
        vec![
            Order::Finished,
            Order::InProgress,
            Order::NotStarted,
            Order::NotStarted,
        ]
    );
    let in_progress = orders
        .iter()
        .filter(|o| matches!(o, Order::InProgress))
        .count();
    assert!(in_progress <= 1);
}

#[test]
fn time_range_string_is_zero_padded() {
    let b = block(7, 30, 8, 36);
    assert_eq!(b.time_range_string(), "07:30 - 08:36");
    let lunch = block(12, 0, 13, 0);
    assert_eq!(lunch.time_range_string(), "12:00 - 13:00");
}

#[test]
fn hhmm_form() {
    assert_eq!(Time::new(7, 5).hhmm(), "07:05");
    assert_eq!(Time::new(23, 59).hhmm(), "23:59");
    assert_eq!(Time::new(0, 0).hhmm(), "00:00");
}

#[test]
fn total_minutes_counts_from_midnight() {
    assert_eq!(Time::new(0, 0).total_minutes(), 0);
    assert_eq!(Time::new(9, 0).total_minutes(), 540);
    assert_eq!(Time::new(23, 59).total_minutes(), 1439);
}
