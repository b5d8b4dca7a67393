use chrono::Datelike;
use daytally::app::{App, Command, Effect, State, TabTask};
use daytally::tab::Tab;

#[test]
fn mutations_are_not_cancellable() {
    let mut app = App::new(vec!["A".to_string()]);
    for cmd in [
        Command::AddRecord,
        Command::DeleteSelectedRecord,
        Command::Undo,
        Command::Redo,
    ] {
        match app.handle_cmd(cmd) {
            Effect::Run { cancellable, .. } => assert!(!cancellable),
            other => panic!("expected a task, got {:?}", other),
        }
    }
}

#[test]
fn navigation_is_cancellable() {
    let mut app = App::new(vec!["A".to_string()]);
    for cmd in [
        Command::PrevDate,
        Command::NextDate,
        Command::PrevSelection,
        Command::NextSelection,
    ] {
        match app.handle_cmd(cmd) {
            Effect::Run { cancellable, .. } => assert!(cancellable),
            other => panic!("expected a task, got {:?}", other),
        }
    }
}

#[test]
fn commands_map_to_their_tasks() {
    let mut app = App::new(vec!["A".to_string()]);
    assert_eq!(
        app.handle_cmd(Command::AddRecord),
        Effect::Run { task: TabTask::AddRecord, cancellable: false }
    );
    assert_eq!(
        app.handle_cmd(Command::PrevDate),
        Effect::Run { task: TabTask::PrevDate, cancellable: true }
    );
    assert_eq!(
        app.handle_cmd(Command::Undo),
        Effect::Run { task: TabTask::Undo, cancellable: false }
    );
}

#[test]
fn next_tab_wraps_and_switches() {
    let mut app = App::new(vec!["A".to_string(), "B".to_string()]);
    assert_eq!(app.selected_tab(), 0);
    assert_eq!(app.handle_cmd(Command::NextTab), Effect::SwitchTab { index: 1 });
    assert_eq!(app.selected_tab(), 1);
    assert_eq!(app.handle_cmd(Command::NextTab), Effect::SwitchTab { index: 0 });
    assert_eq!(app.selected_tab(), 0);
}

#[test]
fn quit_sets_the_flag() {
    let mut app = App::new(vec!["A".to_string()]);
    assert!(!app.should_quit());
    assert_eq!(app.handle_cmd(Command::Quit), Effect::Quit);
    assert!(app.should_quit());
}

#[test]
fn switching_publishes_the_new_tabs_state() {
    // two tabs "A" (target 1) and "B" (target 4): the switch effect tells
    // the runtime to abort A's in-flight resolution, and B's resolved
    // state becomes the published one without waiting for A
    let today = chrono::NaiveDate::from_ymd_opt(2024, 3, 10)
        .unwrap()
        .num_days_from_ce();
    let titles = vec!["A".to_string(), "B".to_string()];
    let mut app = App::new(titles.clone());
    let mut tab_b = Tab::new("B".to_string(), 4, today);

    let effect = app.handle_cmd(Command::NextTab);
    assert_eq!(effect, Effect::SwitchTab { index: 1 });

    let mut published = State::new(titles);
    published.select_tab(1);
    tab_b.resolve_date();
    tab_b.resolve_list(Vec::new());
    published.set_inner(tab_b.state.clone());

    assert_eq!(published.tabs.selected(), 1);
    assert_eq!(published.inner.date, today);
    assert_eq!(published.inner.list.len(), 0);
}
