use daytally::Level;

#[test]
fn percentage_is_count_over_middle() {
    // middle = 2/1, count = 3: 150 percent of the baseline
    let level = Level::new(3, 2, 1, 4);
    assert_eq!(level.percentage(), 150);
    // middle = 3/2 (mean of 1 and 2), count = 3: exactly twice the baseline
    let level = Level::new(3, 3, 2, 4);
    assert_eq!(level.percentage(), 200);
}

#[test]
fn percentage_without_any_data_is_zero() {
    let level = Level::new(0, 0, 1, 4);
    assert_eq!(level.percentage(), 0);
}

#[test]
fn percentage_with_zero_recent_counts_is_well_defined() {
    // all recent days zero, today non-zero: the baseline falls back to
    // today's own count and the percentage is exactly 100
    let recent = vec![0, 0, 0, 0, 0, 0, 0];
    let level = Level::for_counts(5, &recent, 2);
    assert_eq!(level.percentage(), 100);
}

#[test]
fn for_counts_takes_mean_of_nonzero_days() {
    // non-zero recent counts 1 and 2: middle = 3/2
    let recent = vec![1, 0, 2, 0];
    let level = Level::for_counts(3, &recent, 2);
    assert_eq!(level.middle_num, 3);
    assert_eq!(level.middle_den, 2);
    assert_eq!(level.count(), 3);
}

#[test]
fn target_blends_towards_middle() {
    // middle = 3/2, target = 2: (1.5 + 2) / 2 = 1.75, above 0.8 * 1.5,
    // rounded to 2
    let level = Level::new(3, 3, 2, 2);
    assert_eq!(level.target(), 2);
    // middle = 2/1, target = 4: (2 + 4) / 2 = 3
    let level = Level::new(2, 2, 1, 4);
    assert_eq!(level.target(), 3);
    // middle = 10/1, target = 0: the blend 5 is floored at 0.8 * 10 = 8
    let level = Level::new(0, 10, 1, 0);
    assert_eq!(level.target(), 8);
}

#[test]
fn target_rounds_to_nearest() {
    // middle = 1/1, target = 2: the blend is 1.5, rounded up to 2
    assert_eq!(Level::new(0, 1, 1, 2).target(), 2);
    // middle = 1/1, target = 0: the floor 0.8 wins and rounds up to 1
    assert_eq!(Level::new(0, 1, 1, 0).target(), 1);
}

#[test]
fn is_positive_compares_target_to_middle() {
    assert!(Level::new(0, 3, 2, 2).is_positive());
    assert!(!Level::new(0, 3, 1, 2).is_positive());
    assert!(!Level::new(0, 4, 2, 2).is_positive());
}

#[test]
fn for_count_keeps_baseline_and_target() {
    let level = Level::new(3, 3, 2, 4);
    let other = level.for_count(6);
    assert_eq!(other.count(), 6);
    assert_eq!(other.middle_num, 3);
    assert_eq!(other.middle_den, 2);
    assert_eq!(other.percentage(), 400);
}
