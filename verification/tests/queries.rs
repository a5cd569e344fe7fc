use tabiew::bridge::SqlEngine;
use tabiew::command::CommandRegistry;
use tabiew::controller::{App, Mode, STATUS_TTL};
use tabiew::dataset::{DatasetHandle, Frame};
use tabiew::event::{Event, KeyCode, KeyEvent};
use tabiew::status::Severity;

fn sample_app() -> (App, SqlEngine) {
    let names = vec!["a".to_string(), "b".to_string()];
    let cols = vec![vec![1i64, 2, 3], vec![4i64, 5, 6]];
    let frame = Frame::from_int_columns(&names, &cols);
    let mut engine = SqlEngine::new();
    engine.register("df", &frame);
    let handle = DatasetHandle::new(frame, 0);
    let app = App::new(handle, CommandRegistry::standard());
    (app, engine)
}

fn key(code: KeyCode) -> Event {
    Event::Key(KeyEvent { code, ctrl: false })
}

#[test]
fn move_down_twice_then_clamped() {
    let (mut app, mut engine) = sample_app();
    assert_eq!((app.tabular.cursor_row, app.tabular.cursor_col), (0, 0));
    app.handle_event(key(KeyCode::Down), &mut engine);
    app.handle_event(key(KeyCode::Down), &mut engine);
    assert_eq!((app.tabular.cursor_row, app.tabular.cursor_col), (2, 0));
    app.handle_event(key(KeyCode::Down), &mut engine);
    assert_eq!((app.tabular.cursor_row, app.tabular.cursor_col), (2, 0));
}

#[test]
fn empty_result_replaces_dataset_and_resets_view() {
    let (mut app, mut engine) = sample_app();
    app.handle_event(key(KeyCode::Down), &mut engine);
    assert_eq!(app.tabular.cursor_row, 1);
    app.run_query(b"SELECT * FROM df WHERE 1=0".to_vec(), &mut engine);
    assert_eq!(app.tabular.dataset.row_count, 0);
    assert_eq!(app.tabular.dataset.col_count, 2);
    assert_eq!(app.tabular.dataset.id, 1);
    assert_eq!((app.tabular.cursor_row, app.tabular.cursor_col), (0, 0));
    assert_eq!((app.tabular.offset_row, app.tabular.offset_col), (0, 0));
    assert!(app.status_bar.msg.is_none());
}

#[test]
fn filter_query_returns_matching_rows() {
    let (mut app, mut engine) = sample_app();
    app.run_query(b"SELECT * FROM df WHERE a >= 2".to_vec(), &mut engine);
    assert_eq!(app.tabular.dataset.row_count, 2);
    assert_eq!(app.tabular.dataset.frame.cell_text(0, 0), "2");
    assert_eq!(app.tabular.dataset.frame.cell_text(1, 1), "6");
}

#[test]
fn invalid_query_keeps_dataset_and_reports_error() {
    let (mut app, mut engine) = sample_app();
    let before_id = app.tabular.dataset.id;
    let before_rows = app.tabular.dataset.row_count;
    app.run_query(b"THIS IS NOT SQL AT ALL".to_vec(), &mut engine);
    assert_eq!(app.tabular.dataset.id, before_id);
    assert_eq!(app.tabular.dataset.row_count, before_rows);
    let m = app.status_bar.msg.as_ref().expect("an error message is shown");
    assert_eq!(m.severity, Severity::Error);
    assert_eq!(m.remaining_ticks, STATUS_TTL);
    assert!(!m.text.is_empty());
}

#[test]
fn failing_execution_keeps_dataset() {
    let (mut app, mut engine) = sample_app();
    app.run_query(b"SELECT nosuchcolumn FROM df".to_vec(), &mut engine);
    assert_eq!(app.tabular.dataset.id, 0);
    let m = app.status_bar.msg.as_ref().expect("an error message is shown");
    assert_eq!(m.severity, Severity::Error);
}

#[test]
fn typed_query_through_events_replaces_dataset() {
    let (mut app, mut engine) = sample_app();
    app.handle_event(key(KeyCode::Char(b':')), &mut engine);
    assert_eq!(app.mode, Mode::Command);
    for b in b"query SELECT * FROM df WHERE 1=0" {
        app.handle_event(key(KeyCode::Char(*b)), &mut engine);
    }
    app.handle_event(key(KeyCode::Enter), &mut engine);
    assert_eq!(app.mode, Mode::Browse);
    assert!(app.input.is_empty());
    assert_eq!(app.tabular.dataset.row_count, 0);
    assert_eq!((app.tabular.cursor_row, app.tabular.cursor_col), (0, 0));
}

#[test]
fn unknown_command_reports_error_and_resumes_browsing() {
    let (mut app, mut engine) = sample_app();
    app.handle_event(key(KeyCode::Char(b':')), &mut engine);
    for b in b"nonsense" {
        app.handle_event(key(KeyCode::Char(*b)), &mut engine);
    }
    app.handle_event(key(KeyCode::Enter), &mut engine);
    assert_eq!(app.mode, Mode::Browse);
    let m = app.status_bar.msg.as_ref().expect("an error message is shown");
    assert_eq!(m.severity, Severity::Error);
    assert_eq!(m.text, "unknown command");
}

#[test]
fn quit_command_stops_the_loop() {
    let (mut app, mut engine) = sample_app();
    assert!(app.running);
    app.handle_event(key(KeyCode::Char(b':')), &mut engine);
    for b in b"QUIT" {
        app.handle_event(key(KeyCode::Char(*b)), &mut engine);
    }
    app.handle_event(key(KeyCode::Enter), &mut engine);
    assert!(!app.running);
}

#[test]
fn browse_q_key_quits() {
    let (mut app, mut engine) = sample_app();
    app.handle_event(key(KeyCode::Char(b'q')), &mut engine);
    assert!(!app.running);
}

#[test]
fn ticks_drive_status_decay_and_view_counter() {
    let (mut app, mut engine) = sample_app();
    for _ in 0..5 {
        app.handle_event(Event::Tick, &mut engine);
        assert!(app.status_bar.msg.is_none());
    }
    assert_eq!(app.tabular.tick_count, 5);
    app.run_query(b"bad query".to_vec(), &mut engine);
    assert!(app.status_bar.msg.is_some());
    for _ in 0..STATUS_TTL {
        app.handle_event(Event::Tick, &mut engine);
    }
    assert!(app.status_bar.msg.is_none());
}

#[test]
fn command_line_editing_keys() {
    let (mut app, mut engine) = sample_app();
    app.handle_event(key(KeyCode::Char(b':')), &mut engine);
    for b in b"qx" {
        app.handle_event(key(KeyCode::Char(*b)), &mut engine);
    }
    app.handle_event(key(KeyCode::Backspace), &mut engine);
    assert_eq!(app.input, b"q".to_vec());
    app.handle_event(key(KeyCode::Esc), &mut engine);
    assert_eq!(app.mode, Mode::Browse);
    assert!(app.input.is_empty());
    assert!(app.running);
}

#[test]
fn mouse_and_resize_are_ignored() {
    let (mut app, mut engine) = sample_app();
    app.handle_event(Event::Mouse, &mut engine);
    app.handle_event(Event::Resize(80, 24), &mut engine);
    assert_eq!((app.tabular.cursor_row, app.tabular.cursor_col), (0, 0));
    assert!(app.running);
    assert!(app.status_bar.msg.is_none());
}
