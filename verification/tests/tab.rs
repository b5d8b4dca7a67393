use chrono::Datelike;
use daytally::date::Record;
use daytally::tab::{Action, DayCount, Tab};

fn day_of(y: i32, m: u32, d: u32) -> i32 {
    chrono::NaiveDate::from_ymd_opt(y, m, d)
        .unwrap()
        .num_days_from_ce()
}

/// Plays the store's part of a date-window resolution: hands the tab the
/// records of its viewed day.
fn resolve_day(tab: &mut Tab, journal: &Vec<Record>) {
    tab.resolve_date();
    tab.resolve_list(journal.clone());
    tab.resolve_hours(journal);
}

#[test]
fn add_undo_redo_scenario() {
    let today = day_of(2024, 3, 10);
    let mut tab = Tab::new("Smokes".to_string(), 1, today);
    let mut journal: Vec<Record> = Vec::new();

    resolve_day(&mut tab, &journal);
    assert_eq!(tab.state.list.len(), 0);

    // add one record at 2024-03-10T14:05:00
    let rec = Record {
        day: today,
        sec: 14 * 3600 + 5 * 60,
        nano: 0,
    };
    journal.push(rec);
    tab.add_record(rec);
    resolve_day(&mut tab, &journal);
    assert_eq!(tab.state.recs_by_hour[14], 1);
    assert_eq!(tab.state.recs_by_month[2], 1); // March
    assert_eq!(tab.state.list.len(), 1);

    // undo empties the store and the aggregates, and arms one redo
    let action = tab.next_undo().unwrap();
    assert_eq!(action, Action::Delete(rec));
    journal.retain(|r| *r != rec);
    tab.commit_undo();
    resolve_day(&mut tab, &journal);
    assert!(tab.state.recs_by_hour.iter().all(|c| *c == 0));
    assert_eq!(tab.state.recs_by_month[2], 0);
    assert_eq!(tab.state.list.len(), 0);
    assert_eq!(tab.redoes.len(), 1);

    // redo restores both counts
    let action = tab.next_redo().unwrap();
    assert_eq!(action, Action::Add(rec));
    journal.push(rec);
    tab.commit_redo();
    resolve_day(&mut tab, &journal);
    assert_eq!(tab.state.recs_by_hour[14], 1);
    assert_eq!(tab.state.recs_by_month[2], 1);
    assert_eq!(tab.state.list.len(), 1);
    assert_eq!(tab.redoes.len(), 0);
}

#[test]
fn new_add_clears_redo() {
    let today = day_of(2024, 3, 10);
    let mut tab = Tab::new("T".to_string(), 1, today);
    let r1 = Record { day: today, sec: 100, nano: 0 };
    let r2 = Record { day: today, sec: 200, nano: 0 };
    tab.add_record(r1);
    tab.commit_undo();
    assert_eq!(tab.redoes.len(), 1);
    tab.add_record(r2);
    assert_eq!(tab.redoes.len(), 0);
    assert_eq!(tab.next_redo(), None);
}

#[test]
fn delete_then_undo_restores_exact_record() {
    let today = day_of(2024, 3, 10);
    let mut tab = Tab::new("T".to_string(), 1, today);
    let mut journal = vec![
        Record { day: today, sec: 9 * 3600, nano: 0 },
        Record { day: today, sec: 10 * 3600, nano: 500 },
    ];
    for r in &journal {
        tab.add_record(*r);
    }
    resolve_day(&mut tab, &journal);

    // the reversed cursor starts on the most recent record
    let selected = tab.selected_record().unwrap();
    assert_eq!(selected, journal[1]);
    journal.retain(|r| *r != selected);
    let deleted = tab.delete_selected_record().unwrap();
    assert_eq!(deleted, selected);
    resolve_day(&mut tab, &journal);
    assert_eq!(tab.state.list.len(), 1);

    // the undo action carries the literal deleted record
    assert_eq!(tab.next_undo().unwrap(), Action::Add(selected));
    journal.push(selected);
    tab.commit_undo();
    resolve_day(&mut tab, &journal);
    assert_eq!(tab.state.list.len(), 2);
    assert!(tab.state.list.items.contains(&selected));
}

#[test]
fn delete_with_nothing_selected_is_a_no_op() {
    let today = day_of(2024, 3, 10);
    let mut tab = Tab::new("T".to_string(), 1, today);
    resolve_day(&mut tab, &Vec::new());
    assert_eq!(tab.delete_selected_record(), None);
    assert_eq!(tab.undoes.len(), 0);
}

#[test]
fn undo_with_empty_stack_offers_nothing() {
    let tab = Tab::new("T".to_string(), 1, day_of(2024, 3, 10));
    assert_eq!(tab.next_undo(), None);
    assert_eq!(tab.next_redo(), None);
}

#[test]
fn months_aggregate_groups_by_calendar_month() {
    let today = day_of(2024, 3, 10);
    let mut tab = Tab::new("T".to_string(), 1, today);
    let counts = vec![
        DayCount { day: day_of(2024, 3, 10), count: 2 },
        DayCount { day: day_of(2024, 2, 29), count: 1 },
        DayCount { day: day_of(2023, 12, 31), count: 4 },
        DayCount { day: day_of(2024, 3, 1), count: 1 },
    ];
    tab.resolve_months(&counts);
    assert_eq!(
        tab.state.recs_by_month,
        vec![0, 1, 3, 0, 0, 0, 0, 0, 0, 0, 0, 4]
    );
}

#[test]
fn dates_aggregate_is_chronological() {
    let today = day_of(2024, 3, 10);
    let mut tab = Tab::new("T".to_string(), 1, today);
    let (start, end) = tab.days_window();
    assert_eq!(end, today);
    assert_eq!(end - start, 9);
    let counts: Vec<usize> = (0..10).collect();
    tab.resolve_dates(&counts);
    assert_eq!(tab.state.recs_by_date.len(), 10);
    assert_eq!(tab.state.recs_by_date[0], DayCount { day: start, count: 0 });
    assert_eq!(tab.state.recs_by_date[9], DayCount { day: end, count: 9 });
}

#[test]
fn resolve_level_uses_baseline_window() {
    let today = day_of(2024, 3, 10);
    let mut tab = Tab::new("T".to_string(), 4, today);
    tab.resolve_date();
    let (from, to) = tab.level_window();
    assert_eq!(from, today - 7);
    assert_eq!(to, today - 1);
    let recent = vec![2, 0, 4, 0, 0, 0, 0];
    tab.resolve_level(3, &recent);
    assert_eq!(tab.state.level.middle_num, 6);
    assert_eq!(tab.state.level.middle_den, 2);
    assert_eq!(tab.state.level.percentage(), 100);
}

#[test]
fn hours_aggregate_buckets_by_hour() {
    let today = day_of(2024, 3, 10);
    let mut tab = Tab::new("T".to_string(), 1, today);
    let recs = vec![
        Record { day: today, sec: 14 * 3600 + 50 * 60, nano: 0 },
        Record { day: today, sec: 14 * 3600, nano: 0 },
        Record { day: today, sec: 23 * 3600 + 3599, nano: 999 },
    ];
    tab.resolve_hours(&recs);
    assert_eq!(tab.state.recs_by_hour[14], 2);
    assert_eq!(tab.state.recs_by_hour[23], 1);
    assert_eq!(tab.state.recs_by_hour.iter().sum::<usize>(), 3);
}

#[test]
fn selection_moves_report_changes() {
    let today = day_of(2024, 3, 10);
    let mut tab = Tab::new("T".to_string(), 1, today);
    let journal = vec![
        Record { day: today, sec: 100, nano: 0 },
        Record { day: today, sec: 200, nano: 0 },
    ];
    resolve_day(&mut tab, &journal);
    assert!(tab.prev_selection());
    assert!(!tab.prev_selection());
    assert!(tab.next_selection());
    assert!(!tab.next_selection());
}

#[test]
fn date_moves_keep_cursor_in_window() {
    let today = day_of(2024, 3, 10);
    let mut tab = Tab::new("T".to_string(), 1, today);
    tab.next_date(today);
    assert_eq!(tab.days_frame.cur, today);
    tab.prev_date();
    assert_eq!(tab.days_frame.cur, today - 1);
    assert!(tab.days_frame.start <= tab.days_frame.cur);
    assert!(tab.days_frame.cur <= tab.days_frame.end);
}

#[test]
fn demount_resets_state_but_keeps_stacks() {
    let today = day_of(2024, 3, 10);
    let mut tab = Tab::new("T".to_string(), 1, today);
    let rec = Record { day: today, sec: 60, nano: 0 };
    tab.add_record(rec);
    resolve_day(&mut tab, &vec![rec]);
    tab.demount();
    assert_eq!(tab.state.list.len(), 0);
    assert!(tab.state.recs_by_month.iter().all(|c| *c == 0));
    assert_eq!(tab.state.date, today);
    assert_eq!(tab.undoes.len(), 1);
}
