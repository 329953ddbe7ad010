//! The pursuit engine: each tick, every killer takes one unit step toward
//! the cursor on each axis independently.

use vstd::prelude::*;
use crate::board::{Board, Killers, killers_in_range};

verus! {

/// The coordinate difference that one call of [`killer_move`] inspects.
/// The routine is shared between the two axes and dispatches on its column
/// argument: a positive column argument selects the column axis, anything
/// else selects the row axis. (A killer standing at column 0 is therefore
/// compared on the row axis with a row argument of 0 — the fixed sign rule
/// then yields `+1`, which still moves column 0 toward any cursor column.)
pub open spec fn axis_diff(board: Board, c: int, r: int) -> int {
    if c > 0 {
        board.cursor_c - c
    } else {
        board.cursor_r - r
    }
}

/// The unit step a killer takes on the axis selected by `(c, r)`:
/// `-1` when the killer is ahead of the cursor on that axis, `+1` otherwise
/// (also when the distance is zero — the fixed sign rule).
pub open spec fn spec_step(board: Board, c: int, r: int) -> int {
    if axis_diff(board, c, r) < 0 {
        -1
    } else {
        1
    }
}

/// Decide the unit step for one axis of one killer. Pass the killer's
/// column as `c` with `r == 0` to step the column axis, and `c == 0` with
/// the killer's row as `r` to step the row axis.
pub fn killer_move(board: &Board, c: i16, r: i16) -> (step: i16)
    requires
        board.cursor_c <= 32767,
        board.cursor_r <= 32767,
        c > 0 ==> i16::MIN <= board.cursor_c - c <= i16::MAX,
        c <= 0 ==> i16::MIN <= board.cursor_r - r <= i16::MAX,
    ensures
        step == spec_step(*board, c as int, r as int),
{
    let mut interval: i16 = 0;
    if c > 0 {
        interval += board.cursor_c as i16 - c;
    } else {
        interval += board.cursor_r as i16 - r;
    }

    if interval < 0 {
        -1
    } else {
        1
    }
}

/// What one pursuit tick does to the killers: each coordinate moves by the
/// unit step of its own axis.
pub open spec fn spec_move_killers(board: Board) -> Killers {
    let k = board.killers;
    Killers {
        k1_c: (k.k1_c + spec_step(board, k.k1_c as int, 0)) as i16,
        k1_r: (k.k1_r + spec_step(board, 0, k.k1_r as int)) as i16,
        k2_c: (k.k2_c + spec_step(board, k.k2_c as int, 0)) as i16,
        k2_r: (k.k2_r + spec_step(board, 0, k.k2_r as int)) as i16,
        k3_c: (k.k3_c + spec_step(board, k.k3_c as int, 0)) as i16,
        k3_r: (k.k3_r + spec_step(board, 0, k.k3_r as int)) as i16,
    }
}

/// Advance every killer one pursuit step toward the cursor. Pure: reads the
/// board and returns the new killer set. The killers stay in range: a step
/// never takes a coordinate below 0 and never more than one cell past the
/// region the cursor can occupy.
pub fn move_killers(board: &Board) -> (killers: Killers)
    requires
        board.wf(),
    ensures
        killers == spec_move_killers(*board),
        killers_in_range(killers, board.c, board.r),
{
    let killers = Killers {
        k1_c: board.killers.k1_c + killer_move(board, board.killers.k1_c, 0),
        k1_r: board.killers.k1_r + killer_move(board, 0, board.killers.k1_r),

        k2_c: board.killers.k2_c + killer_move(board, board.killers.k2_c, 0),
        k2_r: board.killers.k2_r + killer_move(board, 0, board.killers.k2_r),

        k3_c: board.killers.k3_c + killer_move(board, board.killers.k3_c, 0),
        k3_r: board.killers.k3_r + killer_move(board, 0, board.killers.k3_r),
    };

    killers
}

/// The absolute distance between two coordinates on one axis.
pub open spec fn abs_diff(a: int, b: int) -> int {
    if a >= b {
        a - b
    } else {
        b - a
    }
}

/// Law of the pursuit step on the column axis, for any killer column `kc`:
/// when the column distance to the cursor is nonzero, one step decreases it
/// by exactly one; when it is zero, the fixed sign rule moves the killer
/// one column ahead, and the step after that moves it straight back — the
/// killer oscillates about the cursor. (At `kc <= 0` the shared routine
/// falls to the row branch, whose sign is `+1` because the cursor row is
/// unsigned; `+1` is toward the cursor there too, the cursor column being
/// unsigned as well.)
pub proof fn lemma_pursuit_column(board: Board, kc: int)
    ensures
        abs_diff(board.cursor_c as int, kc) != 0 ==> abs_diff(
            board.cursor_c as int,
            kc + spec_step(board, kc, 0),
        ) == abs_diff(board.cursor_c as int, kc) - 1,
        abs_diff(board.cursor_c as int, kc) == 0 ==> {
            let once = kc + spec_step(board, kc, 0);
            &&& abs_diff(board.cursor_c as int, once) == 1
            &&& once + spec_step(board, once, 0) == kc
        },
{
}

/// Law of the pursuit step on the row axis, for any killer row `kr`: when
/// the row distance to the cursor is nonzero, one step decreases it by
/// exactly one; when it is zero, the fixed sign rule moves the killer one
/// row ahead, and the step after that moves it straight back.
pub proof fn lemma_pursuit_row(board: Board, kr: int)
    ensures
        abs_diff(board.cursor_r as int, kr) != 0 ==> abs_diff(
            board.cursor_r as int,
            kr + spec_step(board, 0, kr),
        ) == abs_diff(board.cursor_r as int, kr) - 1,
        abs_diff(board.cursor_r as int, kr) == 0 ==> {
            let once = kr + spec_step(board, 0, kr);
            &&& abs_diff(board.cursor_r as int, once) == 1
            &&& once + spec_step(board, 0, once) == kr
        },
{
}

} // verus!
