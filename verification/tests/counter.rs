use component_state::counter::{counter_row, Counter, DEFAULT_PROGRESS_MAX};

#[test]
fn progress_scale_defaults_to_one_hundred() {
    assert_eq!(DEFAULT_PROGRESS_MAX, 100u16);
}

#[test]
fn new_counter_holds_its_start() {
    assert_eq!(Counter::new(0).count(), 0);
    assert_eq!(Counter::new(-7).count(), -7);
    assert_eq!(Counter::new(i32::MAX).count(), i32::MAX);
}

#[test]
fn click_adds_one() {
    let mut counter = Counter::new(0);
    counter.increment();
    assert_eq!(counter.count(), 1);
    counter.increment();
    counter.increment();
    assert_eq!(counter.count(), 3);
}

#[test]
fn click_from_below_zero() {
    let mut counter = Counter::new(-1);
    counter.increment();
    assert_eq!(counter.count(), 0);
}

#[test]
fn click_fits_up_to_the_last_value() {
    assert!(Counter::new(0).can_increment());
    assert!(Counter::new(i32::MIN).can_increment());
    assert!(Counter::new(i32::MAX - 1).can_increment());
    assert!(!Counter::new(i32::MAX).can_increment());
}

#[test]
fn click_reaches_the_last_value() {
    let mut counter = Counter::new(i32::MAX - 1);
    counter.increment();
    assert_eq!(counter.count(), i32::MAX);
    assert!(!counter.can_increment());
}

#[test]
fn doubled_is_twice_the_count() {
    assert_eq!(Counter::new(0).doubled(), 0);
    assert_eq!(Counter::new(21).doubled(), 42);
    assert_eq!(Counter::new(-4).doubled(), -8);
}

#[test]
fn doubled_follows_the_clicks() {
    let mut counter = Counter::new(0);
    assert_eq!(counter.doubled(), 0);
    counter.increment();
    assert_eq!(counter.doubled(), 2);
    counter.increment();
    assert_eq!(counter.doubled(), 4);
    assert_eq!(counter.count(), 2);
}

#[test]
fn doubling_fits_in_half_the_range() {
    assert!(Counter::new(1_073_741_823).can_double());
    assert!(!Counter::new(1_073_741_824).can_double());
    assert!(Counter::new(-1_073_741_824).can_double());
    assert!(!Counter::new(-1_073_741_825).can_double());
    assert!(!Counter::new(i32::MAX).can_double());
    assert!(!Counter::new(i32::MIN).can_double());
}

#[test]
fn doubled_at_the_ends_of_the_range() {
    assert_eq!(Counter::new(1_073_741_823).doubled(), 2_147_483_646);
    assert_eq!(Counter::new(-1_073_741_824).doubled(), i32::MIN);
}

#[test]
fn counters_compare_by_count() {
    assert_eq!(Counter::new(3), Counter::new(3));
    assert_ne!(Counter::new(3), Counter::new(4));
}

#[test]
fn row_of_five_starts_at_one_to_five() {
    let row = counter_row(5);
    let counts: Vec<i32> = row.iter().map(|counter| counter.count()).collect();
    assert_eq!(counts, vec![1, 2, 3, 4, 5]);
}

#[test]
fn row_of_one() {
    let row = counter_row(1);
    assert_eq!(row, vec![Counter::new(1)]);
}

#[test]
fn row_without_counters() {
    assert!(counter_row(0).is_empty());
    assert!(counter_row(-3).is_empty());
}

#[test]
fn counters_of_a_row_count_apart() {
    let mut row = counter_row(3);
    row[1].increment();
    row[1].increment();
    let counts: Vec<i32> = row.iter().map(|counter| counter.count()).collect();
    assert_eq!(counts, vec![1, 4, 3]);
}
