//! Cursor model: clamping, idempotence, boundaries.

use rim::cursor::{move_cursor, NavigationCommand};
use rim::terminal::{Position, Size};

fn all_commands() -> Vec<NavigationCommand> {
    vec![
        NavigationCommand::Up,
        NavigationCommand::Down,
        NavigationCommand::Left,
        NavigationCommand::Right,
        NavigationCommand::Home,
        NavigationCommand::End,
        NavigationCommand::PageUp,
        NavigationCommand::PageDown,
    ]
}

#[test]
fn moves_stay_in_bounds() {
    let bounds = Size { width: 5, height: 4 };
    for col in 0..5 {
        for row in 0..4 {
            for cmd in all_commands() {
                let p = Position { col, row };
                let r = move_cursor(p, cmd, bounds);
                assert!(r.col < bounds.width, "{:?} left columns at {:?}", cmd, r);
                assert!(r.row < bounds.height, "{:?} left rows at {:?}", cmd, r);
            }
        }
    }
}

#[test]
fn moves_stay_in_bounds_one_cell() {
    let bounds = Size { width: 1, height: 1 };
    for cmd in all_commands() {
        let r = move_cursor(Position { col: 0, row: 0 }, cmd, bounds);
        assert_eq!(r, Position { col: 0, row: 0 });
    }
}

#[test]
fn jump_commands_idempotent() {
    let bounds = Size { width: 12, height: 7 };
    let start = Position { col: 5, row: 3 };
    for cmd in [
        NavigationCommand::Home,
        NavigationCommand::End,
        NavigationCommand::PageUp,
        NavigationCommand::PageDown,
    ] {
        let once = move_cursor(start, cmd, bounds);
        let twice = move_cursor(once, cmd, bounds);
        assert_eq!(once, twice, "{:?} not idempotent", cmd);
    }
}

#[test]
fn left_at_first_column_is_no_op() {
    let bounds = Size { width: 10, height: 10 };
    let p = Position { col: 0, row: 4 };
    assert_eq!(move_cursor(p, NavigationCommand::Left, bounds), p);
}

#[test]
fn right_at_last_column_is_no_op() {
    let bounds = Size { width: 10, height: 10 };
    let p = Position { col: 9, row: 4 };
    assert_eq!(move_cursor(p, NavigationCommand::Right, bounds), p);
}

#[test]
fn up_at_first_row_is_no_op() {
    let bounds = Size { width: 10, height: 10 };
    let p = Position { col: 4, row: 0 };
    assert_eq!(move_cursor(p, NavigationCommand::Up, bounds), p);
}

#[test]
fn down_at_last_row_is_no_op() {
    let bounds = Size { width: 10, height: 10 };
    let p = Position { col: 4, row: 9 };
    assert_eq!(move_cursor(p, NavigationCommand::Down, bounds), p);
}

#[test]
fn page_jumps_at_their_edges_are_no_ops() {
    let bounds = Size { width: 10, height: 10 };
    let top = Position { col: 4, row: 0 };
    let bottom = Position { col: 4, row: 9 };
    assert_eq!(move_cursor(top, NavigationCommand::PageUp, bounds), top);
    assert_eq!(move_cursor(bottom, NavigationCommand::PageDown, bounds), bottom);
}

#[test]
fn single_steps_move_one_cell() {
    let bounds = Size { width: 10, height: 10 };
    let p = Position { col: 4, row: 5 };
    assert_eq!(move_cursor(p, NavigationCommand::Up, bounds), Position { col: 4, row: 4 });
    assert_eq!(move_cursor(p, NavigationCommand::Down, bounds), Position { col: 4, row: 6 });
    assert_eq!(move_cursor(p, NavigationCommand::Left, bounds), Position { col: 3, row: 5 });
    assert_eq!(move_cursor(p, NavigationCommand::Right, bounds), Position { col: 5, row: 5 });
}

#[test]
fn jumps_reach_their_edges() {
    let bounds = Size { width: 10, height: 8 };
    let p = Position { col: 4, row: 5 };
    assert_eq!(move_cursor(p, NavigationCommand::Home, bounds), Position { col: 0, row: 5 });
    assert_eq!(move_cursor(p, NavigationCommand::End, bounds), Position { col: 9, row: 5 });
    assert_eq!(move_cursor(p, NavigationCommand::PageUp, bounds), Position { col: 4, row: 0 });
    assert_eq!(move_cursor(p, NavigationCommand::PageDown, bounds), Position { col: 4, row: 7 });
}
