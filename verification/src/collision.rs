//! The collision checker: has a killer reached the player's cell?

use vstd::prelude::*;
use crate::board::Board;

verus! {

/// A killer occupies the cursor's cell: some killer's `(column, row)` is
/// exactly the cursor's `(column, row)`. Exact integer equality on both
/// coordinates; no near-miss logic.
pub open spec fn spec_collision(board: Board) -> bool {
    ||| board.killers.k1_c == board.cursor_c && board.killers.k1_r == board.cursor_r
    ||| board.killers.k2_c == board.cursor_c && board.killers.k2_r == board.cursor_r
    ||| board.killers.k3_c == board.cursor_c && board.killers.k3_r == board.cursor_r
}

/// Pure predicate: true iff at least one of the three killers stands
/// exactly on the cursor's cell.
pub fn game_over(board: &Board) -> (over: bool)
    requires
        board.cursor_c <= 32767,
        board.cursor_r <= 32767,
    ensures
        over == spec_collision(*board),
{
    if (board.killers.k1_c == board.cursor_c as i16 && board.killers.k1_r == board.cursor_r as i16)
        || (board.killers.k2_c == board.cursor_c as i16
            && board.killers.k2_r == board.cursor_r as i16)
        || (board.killers.k3_c == board.cursor_c as i16
            && board.killers.k3_r == board.cursor_r as i16) {
        true
    } else {
        false
    }
}

} // verus!
