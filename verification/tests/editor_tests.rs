//! Editor controller: the quit latch, navigation, the loop, and the banner.

use rim::editor::{banner_x, Editor, InputEvent, KeyCode};
use rim::terminal::{Command, Position, Size};

fn press(code: KeyCode) -> InputEvent {
    InputEvent::Key { code, ctrl: false, press: true }
}

fn ctrl_press(code: KeyCode) -> InputEvent {
    InputEvent::Key { code, ctrl: true, press: true }
}

fn farewell_prints(trace: &[Command]) -> usize {
    trace
        .iter()
        .filter(|c| matches!(c, Command::Print(s) if s == "Goodbye.\r\n"))
        .count()
}

#[test]
fn banner_centering_width_80_message_20() {
    assert_eq!(banner_x(80, 20), 30);
}

#[test]
fn banner_wider_than_viewport_starts_at_zero() {
    assert_eq!(banner_x(10, 20), 0);
}

#[test]
fn navigation_scenario_right_right_down_home() {
    let mut editor = Editor::with_size(Size { width: 10, height: 10 });
    assert_eq!(editor.cursor, Position { col: 0, row: 0 });
    for e in [
        press(KeyCode::Right),
        press(KeyCode::Right),
        press(KeyCode::Down),
        press(KeyCode::Home),
    ] {
        editor.evaluate_event(&e);
    }
    assert_eq!(editor.cursor, Position { col: 0, row: 1 });
    assert!(!editor.should_quit);
}

#[test]
fn ctrl_q_quits() {
    let mut editor = Editor::with_size(Size { width: 10, height: 10 });
    editor.evaluate_event(&ctrl_press(KeyCode::Char('q')));
    assert!(editor.should_quit);
}

#[test]
fn plain_q_neither_quits_nor_moves() {
    let mut editor = Editor::with_size(Size { width: 10, height: 10 });
    editor.evaluate_event(&press(KeyCode::Char('q')));
    assert!(!editor.should_quit);
    assert_eq!(editor.cursor, Position { col: 0, row: 0 });
}

#[test]
fn quit_latch_never_resets() {
    let mut editor = Editor::with_size(Size { width: 10, height: 10 });
    editor.evaluate_event(&ctrl_press(KeyCode::Char('q')));
    editor.evaluate_event(&press(KeyCode::Right));
    editor.evaluate_event(&InputEvent::Other);
    assert!(editor.should_quit);
}

#[test]
fn key_release_and_repeat_are_ignored() {
    let mut editor = Editor::with_size(Size { width: 10, height: 10 });
    editor.evaluate_event(&InputEvent::Key {
        code: KeyCode::Char('q'),
        ctrl: true,
        press: false,
    });
    assert!(!editor.should_quit);
    editor.evaluate_event(&InputEvent::Key { code: KeyCode::Right, ctrl: false, press: false });
    assert_eq!(editor.cursor, Position { col: 0, row: 0 });
}

#[test]
fn non_key_events_are_ignored() {
    let mut editor = Editor::with_size(Size { width: 10, height: 10 });
    editor.evaluate_event(&InputEvent::Other);
    assert!(!editor.should_quit);
    assert_eq!(editor.cursor, Position { col: 0, row: 0 });
}

#[test]
fn run_stops_at_quit_and_farewells_once() {
    let mut editor = Editor::with_size(Size { width: 10, height: 10 });
    let events = vec![
        press(KeyCode::Right),
        ctrl_press(KeyCode::Char('q')),
        press(KeyCode::Right),
        press(KeyCode::Right),
    ];
    let (consumed, trace) = editor.run(&events);
    // The two events after the quit combination are never read.
    assert_eq!(consumed, 2);
    assert!(editor.should_quit);
    // Exactly one farewell refresh, and the cursor kept the single move.
    assert_eq!(farewell_prints(&trace), 1);
    assert_eq!(editor.cursor, Position { col: 1, row: 0 });
    // The session always ends back in cooked mode.
    assert!(!editor.terminal.is_raw_mode());
}

#[test]
fn run_without_quit_consumes_everything_and_never_farewells() {
    let mut editor = Editor::with_size(Size { width: 10, height: 10 });
    let events = vec![press(KeyCode::Down), press(KeyCode::End), press(KeyCode::Char('x'))];
    let (consumed, trace) = editor.run(&events);
    assert_eq!(consumed, 3);
    assert!(!editor.should_quit);
    assert_eq!(farewell_prints(&trace), 0);
    assert_eq!(editor.cursor, Position { col: 9, row: 1 });
    assert!(!editor.terminal.is_raw_mode());
}

#[test]
fn run_enables_raw_mode_first_and_disables_it_last() {
    let mut editor = Editor::with_size(Size { width: 4, height: 3 });
    let (_, trace) = editor.run(&vec![ctrl_press(KeyCode::Char('q'))]);
    assert_eq!(trace.first(), Some(&Command::EnableRawMode));
    assert_eq!(trace.last(), Some(&Command::DisableRawMode));
    assert_eq!(trace.get(1), Some(&Command::ClearScreen));
}

#[test]
fn refresh_draws_rows_banner_and_parks_caret() {
    let mut editor = Editor::with_size(Size { width: 80, height: 3 });
    let batch = editor.refresh_screen();
    assert_eq!(batch[0], Command::HideCaret);
    assert_eq!(batch[1], Command::MoveCaretTo(Position { col: 0, row: 0 }));
    // Three placeholder rows: a caret move and a styled tilde each.
    for row in 0..3 {
        let base = 2 + row * 4;
        assert_eq!(batch[base], Command::MoveCaretTo(Position { col: 0, row }));
        assert!(matches!(&batch[base + 1], Command::SetColors(_, _)));
        assert_eq!(batch[base + 2], Command::Print("~".to_string()));
        assert_eq!(batch[base + 3], Command::ResetColor);
    }
    // The banner: centered on row height / 3 = 1, message of length 17.
    assert_eq!(batch[14], Command::MoveCaretTo(Position { col: 40 - 8, row: 1 }));
    assert_eq!(batch[16], Command::Print("rim - version 0.1".to_string()));
    // Caret back to the origin, then onto the cursor, then shown.
    assert_eq!(batch[18], Command::MoveCaretTo(Position { col: 0, row: 0 }));
    assert_eq!(batch[19], Command::MoveCaretTo(Position { col: 0, row: 0 }));
    assert_eq!(batch[20], Command::ShowCaret);
    assert_eq!(batch.len(), 21);
    assert_eq!(farewell_prints(&batch), 0);
}

#[test]
fn quitting_refresh_is_clear_plus_farewell() {
    let mut editor = Editor::with_size(Size { width: 80, height: 24 });
    editor.evaluate_event(&ctrl_press(KeyCode::Char('q')));
    let batch = editor.refresh_screen();
    assert_eq!(
        batch,
        vec![
            Command::HideCaret,
            Command::MoveCaretTo(Position { col: 0, row: 0 }),
            Command::ClearScreen,
            Command::Print("Goodbye.\r\n".to_string()),
            Command::ShowCaret,
        ]
    );
}

#[test]
fn banner_at_narrow_viewport_starts_at_column_zero() {
    // Width 10 is narrower than the 17-character message.
    let mut editor = Editor::with_size(Size { width: 10, height: 3 });
    let batch = editor.refresh_screen();
    assert_eq!(batch[14], Command::MoveCaretTo(Position { col: 0, row: 1 }));
    assert_eq!(batch[16], Command::Print("rim - version 0.1".to_string()));
}

#[test]
fn default_editor_starts_running_at_origin() {
    let editor = Editor::default();
    assert!(!editor.should_quit);
    assert_eq!(editor.cursor, Position { col: 0, row: 0 });
    assert!(!editor.terminal.is_raw_mode());
    let size = editor.terminal.size();
    assert_eq!((size.width, size.height), (80, 24));
}
