//! The renderer's pure half: it computes each frame as a list of drawing
//! commands. A thin front end interprets the commands on the real terminal
//! and flushes; everything decided here — what is drawn where — is verified.

use vstd::prelude::*;
use crate::board::Board;
use crate::pursuit::{move_killers, spec_move_killers};

verus! {

/// One drawing command of a frame, in the order the terminal executes them.
#[derive(Clone, Copy, PartialEq, Eq, Structural, Debug)]
pub enum Cmd {
    /// Clear the whole screen.
    ClearAll,
    /// Move the terminal's output position to `(column, row)`.
    MoveTo(u16, u16),
    /// Print the player marker (`0`) at the current position.
    PrintPlayer,
    /// Print a killer marker (`X`) at the current position.
    PrintKiller,
    /// Hide the terminal's native cursor glyph.
    HideCursor,
    /// Print the game-over banner (`GAME OVER!`) at the current position.
    PrintGameOver,
}

/// The full frame drawn for a board: clear the screen, draw the player
/// marker at the cursor, hide the native cursor, then draw one killer
/// marker at each of the three killer positions.
pub open spec fn spec_frame(board: Board) -> Seq<Cmd> {
    seq![
        Cmd::ClearAll,
        Cmd::MoveTo(board.cursor_c, board.cursor_r),
        Cmd::PrintPlayer,
        Cmd::HideCursor,
        Cmd::MoveTo(board.killers.k1_c as u16, board.killers.k1_r as u16),
        Cmd::PrintKiller,
        Cmd::MoveTo(board.killers.k2_c as u16, board.killers.k2_r as u16),
        Cmd::PrintKiller,
        Cmd::MoveTo(board.killers.k3_c as u16, board.killers.k3_r as u16),
        Cmd::PrintKiller,
    ]
}

/// What one render does: with the advance flag the killers first take one
/// pursuit step, without it the state is left exactly as it was; the frame
/// then shows the state after that choice. Returns the new state and the
/// frame.
pub open spec fn spec_render(board: Board, killers_update: bool) -> (Board, Seq<Cmd>) {
    let after = if killers_update {
        Board { killers: spec_move_killers(board), ..board }
    } else {
        board
    };
    (after, spec_frame(after))
}

/// Produce the frame for the current state, first advancing the killers one
/// pursuit step when `killers_update` is set. Without the flag the board is
/// left untouched and the frame is a pure function of it.
pub fn render(board: &mut Board, killers_update: bool) -> (frame: Vec<Cmd>)
    requires
        old(board).wf(),
    ensures
        final(board).wf(),
        *final(board) == spec_render(*old(board), killers_update).0,
        frame@ == spec_render(*old(board), killers_update).1,
{
    if killers_update {
        board.killers = move_killers(board);
    }

    let mut frame: Vec<Cmd> = Vec::new();
    frame.push(Cmd::ClearAll);
    frame.push(Cmd::MoveTo(board.cursor_c, board.cursor_r));
    frame.push(Cmd::PrintPlayer);
    frame.push(Cmd::HideCursor);

    frame.push(Cmd::MoveTo(board.killers.k1_c as u16, board.killers.k1_r as u16));
    frame.push(Cmd::PrintKiller);

    frame.push(Cmd::MoveTo(board.killers.k2_c as u16, board.killers.k2_r as u16));
    frame.push(Cmd::PrintKiller);

    frame.push(Cmd::MoveTo(board.killers.k3_c as u16, board.killers.k3_r as u16));
    frame.push(Cmd::PrintKiller);

    proof {
        assert(frame@ =~= spec_render(*old(board), killers_update).1);
    }

    frame
}

/// Law of the renderer: rendering is free of hidden state. Two renders in
/// succession without the advance flag leave the board exactly as it was
/// and produce two identical frames.
pub proof fn lemma_render_twice_identical(board: Board)
    ensures
        spec_render(board, false).0 == board,
        spec_render(spec_render(board, false).0, false).1 == spec_render(board, false).1,
{
}

} // verus!
