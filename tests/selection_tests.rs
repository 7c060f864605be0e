use procmaster::selection::{Command, FooterHint};
use procmaster::{App, AppState, ControlError, ProcessRecord, SelectedTab};

fn record(pid: i32, user: &str, command: &str) -> ProcessRecord {
    ProcessRecord {
        pid,
        ppid: 1,
        user: user.to_string(),
        command: command.to_string(),
        virtual_memory_bytes: 0,
        resident_memory_bytes: 0,
        shared_memory_bytes: 0,
        memory_hundredths: 0,
        cpu_hundredths: 0,
        time: String::new(),
        priority: 20,
        nice: 0,
        state: "S".to_string(),
        threads: 1,
    }
}

fn table(n: i32) -> Vec<ProcessRecord> {
    let mut v = vec![record(1, "root", "init")];
    for i in 0..n {
        v.push(record(100 + i, "alice", "work"));
    }
    v
}

#[test]
fn scroll_stays_within_offered_rows() {
    let procs = table(3);
    let mut app = App::default();
    app.scroll_up(&procs);
    assert_eq!(app.vertical_scroll, 0);
    for _ in 0..10 {
        app.scroll_down(&procs);
    }
    assert_eq!(app.vertical_scroll, 2);
    app.scroll_up(&procs);
    assert_eq!(app.vertical_scroll, 1);
}

#[test]
fn shrinking_to_empty_resets_positions() {
    let mut app = App::default();
    let big = table(5);
    app.curse(&big);
    for _ in 0..4 {
        app.move_cursor_down(&big);
    }
    assert_eq!(app.selected_row, 4);
    let empty = table(0);
    app.move_cursor_down(&empty);
    assert_eq!(app.selected_row, 0);
    assert_eq!(app.vertical_scroll, 0);
    app.move_cursor_up(&empty);
    app.scroll_down(&empty);
    assert_eq!(app.selected_row, 0);
    assert_eq!(app.vertical_scroll, 0);
    assert!(app.resolve_selected(&empty).is_none());
}

#[test]
fn shrinking_clamps_cursor_to_last_row() {
    let mut app = App::default();
    let big = table(6);
    app.curse(&big);
    for _ in 0..5 {
        app.move_cursor_down(&big);
    }
    let small = table(2);
    app.move_cursor_down(&small);
    assert_eq!(app.selected_row, 1);
    app.move_cursor_up(&small);
    assert_eq!(app.selected_row, 0);
}

#[test]
fn entering_cursor_mode_starts_at_first_visible_row() {
    let procs = table(4);
    let mut app = App::default();
    app.scroll_down(&procs);
    app.scroll_down(&procs);
    app.curse(&procs);
    assert!(app.is_cursed);
    assert_eq!(app.selected_row, 2);
    assert_eq!(app.current_selection(), (2, Some(2)));
    app.curse(&procs);
    assert!(!app.is_cursed);
    assert_eq!(app.current_selection(), (2, None));
}

#[test]
fn cursor_moves_only_in_cursor_mode() {
    let procs = table(4);
    let mut app = App::default();
    app.move_cursor_down(&procs);
    assert_eq!(app.selected_row, 0);
    app.curse(&procs);
    app.move_cursor_down(&procs);
    assert_eq!(app.selected_row, 1);
}

#[test]
fn resolve_selected_skips_protected_owner() {
    let procs = table(3);
    let mut app = App::default();
    app.curse(&procs);
    let first = app.resolve_selected(&procs).unwrap();
    assert_eq!(first.pid, 100);
    app.move_cursor_down(&procs);
    app.move_cursor_down(&procs);
    assert_eq!(app.resolve_selected(&procs).unwrap().pid, 102);
    let shrunk = table(1);
    assert!(app.resolve_selected(&shrunk).is_none());
    assert_eq!(app.visible_processes(&procs).len(), 3);
}

#[test]
fn resolve_selected_with_other_protected_owner() {
    let procs = table(2);
    let app = App::new("alice".to_string());
    let only = app.resolve_selected(&procs).unwrap();
    assert_eq!(only.pid, 1);
    assert_eq!(only.user, "root");
}

#[test]
fn actions_without_target_report_nothing_selected() {
    let empty = table(0);
    let mut app = App::default();
    app.curse(&empty);
    assert_eq!(app.kill(&empty), Err(ControlError::NothingSelected));
    assert_eq!(app.terminate(&empty), Err(ControlError::NothingSelected));
    assert_eq!(app.suspend(&empty), Err(ControlError::NothingSelected));
    assert_eq!(app.resume(&empty), Err(ControlError::NothingSelected));
}

#[test]
fn out_of_range_priority_refused_before_resolution() {
    let empty = table(0);
    let mut app = App::default();
    app.priority();
    assert!(app.is_priority);
    assert_eq!(app.apply_priority(&empty, 20), Err(ControlError::InvalidPriority(20)));
    assert!(!app.is_priority);
    assert_eq!(app.apply_priority(&empty, -21), Err(ControlError::InvalidPriority(-21)));
    assert_eq!(app.apply_priority(&empty, 19), Err(ControlError::NothingSelected));
}

#[test]
fn tabs_and_quit() {
    let procs = table(1);
    let mut app = App::default();
    assert_eq!(app.handle_command(Command::PreviousTab, &procs), Ok(()));
    assert_eq!(app.selected_tab, SelectedTab::Tab1);
    app.next_tab();
    assert_eq!(app.selected_tab, SelectedTab::Tab2);
    app.handle_command(Command::NextTab, &procs).unwrap();
    app.handle_command(Command::NextTab, &procs).unwrap();
    assert_eq!(app.selected_tab, SelectedTab::Tab3);
    app.previous_tab();
    assert_eq!(app.selected_tab, SelectedTab::Tab2);
    assert_eq!(app.state, AppState::Running);
    app.handle_command(Command::Quit, &procs).unwrap();
    assert_eq!(app.state, AppState::Quitting);
    let mut other = App::default();
    other.quit();
    assert_eq!(other.state, AppState::Quitting);
}

#[test]
fn commands_dispatch_by_mode() {
    let procs = table(3);
    let mut app = App::default();
    app.handle_command(Command::Down, &procs).unwrap();
    assert_eq!(app.vertical_scroll, 1);
    app.handle_command(Command::ToggleCursor, &procs).unwrap();
    assert!(app.is_cursed);
    app.handle_command(Command::Down, &procs).unwrap();
    assert_eq!(app.selected_row, 2);
    assert_eq!(app.vertical_scroll, 1);
    app.handle_command(Command::Up, &procs).unwrap();
    assert_eq!(app.selected_row, 1);
    app.handle_command(Command::TogglePriorityEntry, &procs).unwrap();
    assert!(app.is_priority);
    assert_eq!(
        app.handle_command(Command::SetPriority(25), &procs),
        Err(ControlError::InvalidPriority(25))
    );
    assert!(!app.is_priority);
}

#[test]
fn actions_ignored_off_the_process_tab() {
    let procs = table(3);
    let mut app = App::default();
    app.handle_command(Command::ToggleCursor, &procs).unwrap();
    app.handle_command(Command::NextTab, &procs).unwrap();
    assert_eq!(app.handle_command(Command::Kill, &procs), Ok(()));
    assert_eq!(app.handle_command(Command::SetPriority(99), &procs), Ok(()));
    app.handle_command(Command::ToggleCursor, &procs).unwrap();
    assert!(app.is_cursed);
}

#[test]
fn visible_range_and_footer() {
    let mut app = App::default();
    assert_eq!(app.visible_range(10, 4), (0, 4));
    assert_eq!(app.visible_range(3, 4), (0, 3));
    assert_eq!(app.visible_range(0, 4), (0, 0));
    app.vertical_scroll = 8;
    assert_eq!(app.visible_range(10, 4), (8, 10));
    assert_eq!(app.visible_range(5, 4), (4, 5));
    assert_eq!(app.footer_hint(), FooterHint::ProcessTab);
    app.is_cursed = true;
    assert_eq!(app.footer_hint(), FooterHint::CursorActions);
    app.is_priority = true;
    assert_eq!(app.footer_hint(), FooterHint::PriorityEntry);
    app.selected_tab = SelectedTab::Tab3;
    assert_eq!(app.footer_hint(), FooterHint::Navigation);
}

#[test]
fn tab_titles_and_steps() {
    assert_eq!(SelectedTab::Tab1.title(), "Processes");
    assert_eq!(SelectedTab::Tab2.title(), "CPU");
    assert_eq!(SelectedTab::Tab3.title(), "Memory/IO");
    assert_eq!(SelectedTab::Tab3.next(), SelectedTab::Tab3);
    assert_eq!(SelectedTab::Tab1.previous(), SelectedTab::Tab1);
    assert_eq!(SelectedTab::Tab2.previous(), SelectedTab::Tab1);
    assert_eq!(SelectedTab::Tab2.index(), 1);
    assert_eq!(SelectedTab::default(), SelectedTab::Tab1);
}
