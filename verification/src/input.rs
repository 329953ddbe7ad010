//! The input handler's decision logic: a decoded key press moves the
//! cursor one clamped step, signals quit, or is ignored.

use vstd::prelude::*;
use crate::board::Board;

verus! {

/// A decoded keyboard event. `Other` stands for every key or event that the
/// game ignores.
#[derive(Clone, Copy, PartialEq, Eq, Structural, Debug)]
pub enum Key {
    Up,
    Down,
    Left,
    Right,
    Quit,
    Other,
}

/// What one key press does to the cursor. Each directional key moves one
/// unit, clamped so the cursor stays on the board: left and top clamp at 0;
/// right clamps at column `c - 1`; bottom clamps at row `r` — one past the
/// last row, a deliberate asymmetry between the axes. `Quit` and `Other`
/// leave the board unchanged.
pub open spec fn spec_move_cursor(board: Board, key: Key) -> Board {
    match key {
        Key::Up => if board.cursor_r > 0 {
            Board { cursor_r: (board.cursor_r - 1) as u16, ..board }
        } else {
            board
        },
        Key::Down => if board.cursor_r < board.r {
            Board { cursor_r: (board.cursor_r + 1) as u16, ..board }
        } else {
            board
        },
        Key::Left => if board.cursor_c > 0 {
            Board { cursor_c: (board.cursor_c - 1) as u16, ..board }
        } else {
            board
        },
        Key::Right => if board.cursor_c < board.c - 1 {
            Board { cursor_c: (board.cursor_c + 1) as u16, ..board }
        } else {
            board
        },
        Key::Quit => board,
        Key::Other => board,
    }
}

/// Move the cursor for one key press, clamped to the board. Bounds and
/// killers are untouched, and the state stays well-formed — in particular
/// no sequence of presses can drive a cursor coordinate below zero.
pub fn apply_key(board: &mut Board, key: Key)
    requires
        old(board).wf(),
    ensures
        *final(board) == spec_move_cursor(*old(board), key),
        final(board).wf(),
{
    match key {
        Key::Up => {
            if board.cursor_r > 0 {
                board.cursor_r = board.cursor_r - 1;
            }
        },
        Key::Down => {
            if board.cursor_r < board.r {
                board.cursor_r = board.cursor_r + 1;
            }
        },
        Key::Left => {
            if board.cursor_c > 0 {
                board.cursor_c = board.cursor_c - 1;
            }
        },
        Key::Right => {
            if board.cursor_c < board.c - 1 {
                board.cursor_c = board.cursor_c + 1;
            }
        },
        Key::Quit => {},
        Key::Other => {},
    }
}

/// The board after a whole sequence of key presses, first press first.
pub open spec fn apply_keys(board: Board, keys: Seq<Key>) -> Board
    decreases keys.len(),
{
    if keys.len() == 0 {
        board
    } else {
        apply_keys(spec_move_cursor(board, keys[0]), keys.drop_first())
    }
}

/// Law of cursor movement: any sequence of key presses from a well-formed
/// state leaves bounds and killers unchanged and keeps the cursor inside
/// its clamped region — column in `[0, c)`, row in `[0, r]` — so neither
/// cursor coordinate ever drops below zero.
pub proof fn lemma_keys_keep_cursor_in_bounds(board: Board, keys: Seq<Key>)
    requires
        board.wf(),
    ensures
        apply_keys(board, keys).wf(),
        apply_keys(board, keys).c == board.c,
        apply_keys(board, keys).r == board.r,
        apply_keys(board, keys).killers == board.killers,
    decreases keys.len(),
{
    if keys.len() > 0 {
        lemma_keys_keep_cursor_in_bounds(spec_move_cursor(board, keys[0]), keys.drop_first());
    }
}

} // verus!
