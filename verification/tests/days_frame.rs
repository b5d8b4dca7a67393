use chrono::Datelike;
use daytally::days_frame::DaysFrame;

#[test]
fn should_not_next_after_today() {
    let today = chrono::Local::now().date_naive().num_days_from_ce();
    let mut df = DaysFrame::new(today, 5);
    assert_eq!(today, df.cur);
    df.next(today);
    assert_eq!(today, df.cur);
}

#[test]
fn new_frame_spans_range_ending_today() {
    let df = DaysFrame::new(100, 10);
    assert_eq!(df.cur, 100);
    assert_eq!(df.start, 91);
    assert_eq!(df.end, 100);
}

#[test]
fn prev_is_unbounded_and_recenters_window() {
    let today = 100;
    let mut df = DaysFrame::new(today, 10);
    for _ in 0..20 {
        df.prev();
        assert!(df.start <= df.cur && df.cur <= df.end && df.end <= today);
    }
    assert_eq!(df.cur, 80);
    // the window slid back to keep the cursor near its midpoint
    assert_eq!(df.end - df.start, 9);
    assert!(df.start <= 80);
}

#[test]
fn cursor_stays_in_window_under_mixed_moves() {
    let today = 200;
    let mut df = DaysFrame::new(today, 10);
    for step in 0..60 {
        if step % 3 == 0 {
            df.next(today);
        } else {
            df.prev();
        }
        assert!(df.start <= df.cur);
        assert!(df.cur <= df.end);
        assert!(df.end <= today);
        assert!(df.cur <= today);
    }
}

#[test]
fn next_at_boundary_does_not_shift_window() {
    let today = 50;
    let mut df = DaysFrame::new(today, 10);
    let (start, end) = (df.start, df.end);
    df.next(today);
    assert_eq!(df.cur, today);
    assert_eq!(df.start, start);
    assert_eq!(df.end, end);
}
