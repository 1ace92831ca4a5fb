//! The cursor model: a 2D position moved by navigation commands, clamped to
//! the viewport bounds by saturating arithmetic — never wrapped, never
//! negative.

use vstd::prelude::*;

use crate::terminal::{Position, Size};

verus! {

/// The closed set of cursor-movement directives.
#[derive(Clone, Copy, PartialEq, Eq, Debug, Structural)]
pub enum NavigationCommand {
    Up,
    Down,
    Left,
    Right,
    Home,
    End,
    PageUp,
    PageDown,
}

/// One step toward zero, stopping at zero.
pub open spec fn dec_sat(x: usize) -> usize {
    if x == 0 {
        0
    } else {
        (x - 1) as usize
    }
}

/// The largest valid index of an axis of length `n` (zero when the axis is
/// empty, so that every result stays unsigned).
pub open spec fn last_index(n: usize) -> usize {
    if n == 0 {
        0
    } else {
        (n - 1) as usize
    }
}

/// One step away from zero, stopping at `limit`.
pub open spec fn inc_clamped(x: usize, limit: usize) -> usize {
    if x < limit {
        (x + 1) as usize
    } else {
        limit
    }
}

/// Where a navigation command sends a position inside the given bounds:
/// Up/Down and Left/Right move one cell, clamped to the viewport; Home/End
/// jump to the first and last column; PageUp/PageDown to the first and last
/// row.
pub open spec fn move_spec(p: Position, cmd: NavigationCommand, bounds: Size) -> Position {
    match cmd {
        NavigationCommand::Up => Position { col: p.col, row: dec_sat(p.row) },
        NavigationCommand::Down => Position {
            col: p.col,
            row: inc_clamped(p.row, last_index(bounds.height)),
        },
        NavigationCommand::Left => Position { col: dec_sat(p.col), row: p.row },
        NavigationCommand::Right => Position {
            col: inc_clamped(p.col, last_index(bounds.width)),
            row: p.row,
        },
        NavigationCommand::Home => Position { col: 0, row: p.row },
        NavigationCommand::End => Position { col: last_index(bounds.width), row: p.row },
        NavigationCommand::PageUp => Position { col: p.col, row: 0 },
        NavigationCommand::PageDown => Position { col: p.col, row: last_index(bounds.height) },
    }
}

/// Compute the position a navigation command moves to. Total: saturating at
/// the viewport edges, with no failure mode and no wrap-around.
pub fn move_cursor(p: Position, cmd: NavigationCommand, bounds: Size) -> (r: Position)
    ensures
        r == move_spec(p, cmd, bounds),
{
    let last_col: usize = if bounds.width == 0 { 0 } else { bounds.width - 1 };
    let last_row: usize = if bounds.height == 0 { 0 } else { bounds.height - 1 };
    match cmd {
        NavigationCommand::Up => Position {
            col: p.col,
            row: if p.row == 0 { 0 } else { p.row - 1 },
        },
        NavigationCommand::Down => Position {
            col: p.col,
            row: if p.row < last_row { p.row + 1 } else { last_row },
        },
        NavigationCommand::Left => Position {
            col: if p.col == 0 { 0 } else { p.col - 1 },
            row: p.row,
        },
        NavigationCommand::Right => Position {
            col: if p.col < last_col { p.col + 1 } else { last_col },
            row: p.row,
        },
        NavigationCommand::Home => Position { col: 0, row: p.row },
        NavigationCommand::End => Position { col: last_col, row: p.row },
        NavigationCommand::PageUp => Position { col: p.col, row: 0 },
        NavigationCommand::PageDown => Position { col: p.col, row: last_row },
    }
}

/// A position is inside the viewport.
pub open spec fn in_bounds(p: Position, bounds: Size) -> bool {
    p.col < bounds.width && p.row < bounds.height
}

/// Bounds law: from any in-bounds position, every navigation command lands
/// in bounds, for any viewport of at least one column and one row.
pub proof fn lemma_move_stays_in_bounds(p: Position, cmd: NavigationCommand, bounds: Size)
    requires
        bounds.width >= 1,
        bounds.height >= 1,
        in_bounds(p, bounds),
    ensures
        in_bounds(move_spec(p, cmd, bounds), bounds),
{
}

/// Idempotence law: Home, End, PageUp and PageDown each reach a fixed point
/// in one step — applying one of them twice yields the same position as
/// applying it once.
pub proof fn lemma_jump_idempotent(p: Position, cmd: NavigationCommand, bounds: Size)
    requires
        cmd == NavigationCommand::Home || cmd == NavigationCommand::End
            || cmd == NavigationCommand::PageUp || cmd == NavigationCommand::PageDown,
    ensures
        move_spec(move_spec(p, cmd, bounds), cmd, bounds) == move_spec(p, cmd, bounds),
{
}

/// Boundary law: a single step against an edge of the viewport leaves the
/// position unchanged, and the jump commands fix positions already at their
/// target edge.
pub proof fn lemma_boundary_no_move(p: Position, bounds: Size)
    requires
        bounds.width >= 1,
        bounds.height >= 1,
    ensures
        p.col == 0 ==> move_spec(p, NavigationCommand::Left, bounds) == p,
        p.col == bounds.width - 1 ==> move_spec(p, NavigationCommand::Right, bounds) == p,
        p.col == 0 ==> move_spec(p, NavigationCommand::Home, bounds) == p,
        p.col == bounds.width - 1 ==> move_spec(p, NavigationCommand::End, bounds) == p,
        p.row == 0 ==> move_spec(p, NavigationCommand::Up, bounds) == p,
        p.row == bounds.height - 1 ==> move_spec(p, NavigationCommand::Down, bounds) == p,
        p.row == 0 ==> move_spec(p, NavigationCommand::PageUp, bounds) == p,
        p.row == bounds.height - 1 ==> move_spec(p, NavigationCommand::PageDown, bounds) == p,
{
}

} // verus!
