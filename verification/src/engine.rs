//! The main loop's state machine. The front end owns the clock and the
//! terminal: whenever a tick is due it calls [`tick`], every reseed period
//! it calls [`reseed`], and it feeds every decoded key press to
//! [`handle_key`]. Every decision — collision, cadence, movement, phase —
//! is made and verified here.

use vstd::prelude::*;
use crate::board::Board;
use crate::collision::{game_over, spec_collision};
use crate::input::{apply_key, spec_move_cursor, Key};
use crate::render::{render, spec_render, Cmd};
use crate::seed::gen_rand_killers;

verus! {

/// How many ticks pass between two killer advances: the killers move one
/// pursuit step every `KILLER_CADENCE`-th redraw, which makes the chase
/// visibly slower than the redraw rate.
pub const KILLER_CADENCE: u16 = 70;

/// The loop's phase. It starts `Running`; a collision ends it in
/// `GameOver`, the quit key in `Quit`. Both are terminal: the loop stops
/// issuing ticks once the phase has left `Running`.
#[derive(Clone, Copy, PartialEq, Eq, Structural, Debug)]
pub enum Phase {
    Running,
    GameOver,
    Quit,
}

/// The whole game: board state, the countdown that paces the killers, and
/// the loop phase.
#[derive(Clone, Copy, PartialEq, Eq, Structural, Debug)]
pub struct Game {
    pub board: Board,
    /// Ticks left until the killers advance again.
    pub killers_speed: u16,
    pub phase: Phase,
}

impl Game {
    pub open spec fn wf(self) -> bool {
        self.board.wf()
    }
}

/// The frame drawn when the game ends: clear the screen and print the
/// game-over banner centred on the board.
pub open spec fn spec_game_over_frame(board: Board) -> Seq<Cmd> {
    seq![
        Cmd::ClearAll,
        Cmd::MoveTo((board.c / 2 - 5) as u16, (board.r / 2) as u16),
        Cmd::PrintGameOver,
    ]
}

/// What one due tick does. A collision ends the game: the phase becomes
/// `GameOver`, the board is left as it stands, and the game-over frame is
/// drawn — no further simulation happens. Otherwise the countdown decides:
/// at zero it is wound back up and the killers advance one pursuit step
/// before the redraw; above zero the countdown only drops by one and the
/// frame redraws the unchanged state.
pub open spec fn spec_tick(game: Game) -> (Game, Seq<Cmd>) {
    if spec_collision(game.board) {
        (Game { phase: Phase::GameOver, ..game }, spec_game_over_frame(game.board))
    } else if game.killers_speed < 1 {
        (
            Game {
                board: spec_render(game.board, true).0,
                killers_speed: (KILLER_CADENCE - 1) as u16,
                ..game
            },
            spec_render(game.board, true).1,
        )
    } else {
        (
            Game { killers_speed: (game.killers_speed - 1) as u16, ..game },
            spec_render(game.board, false).1,
        )
    }
}

/// Start a game on a `c` x `r` board: cursor centred, killers seeded at
/// random strictly inside the board, countdown at zero (the first tick
/// advances the killers), phase `Running`. The board must be at least two
/// rows tall for the centred cursor row `r / 2 - 1` to exist.
pub fn new_game(c: u16, r: u16) -> (game: Game)
    requires
        1 <= c <= 32767,
        2 <= r <= 32766,
    ensures
        game.wf(),
        game.board.c == c,
        game.board.r == r,
        game.board.cursor_c == c / 2,
        game.board.cursor_r == r / 2 - 1,
        0 <= game.board.killers.k1_c < c,
        0 <= game.board.killers.k1_r < r,
        0 <= game.board.killers.k2_c < c,
        0 <= game.board.killers.k2_r < r,
        0 <= game.board.killers.k3_c < c,
        0 <= game.board.killers.k3_r < r,
        game.killers_speed == 0,
        game.phase == Phase::Running,
{
    let killers = gen_rand_killers(r, c);
    Game {
        board: Board { r, c, cursor_r: r / 2 - 1, cursor_c: c / 2, killers },
        killers_speed: 0,
        phase: Phase::Running,
    }
}

/// Run one due tick: check for a collision, and either end the game or
/// redraw, advancing the killers when the countdown has run out. The board
/// must be at least ten columns wide for the game-over banner's position
/// `c / 2 - 5` to exist. Once a collision has put the game in `GameOver`,
/// the precondition rules out any further tick.
pub fn tick(game: &mut Game) -> (frame: Vec<Cmd>)
    requires
        old(game).wf(),
        old(game).phase == Phase::Running,
        old(game).board.c >= 10,
    ensures
        final(game).wf(),
        *final(game) == spec_tick(*old(game)).0,
        frame@ == spec_tick(*old(game)).1,
        spec_collision(old(game).board) ==> final(game).phase == Phase::GameOver
            && final(game).board == old(game).board,
        !spec_collision(old(game).board) ==> final(game).phase == Phase::Running,
{
    if game_over(&game.board) {
        game.phase = Phase::GameOver;
        let mut frame: Vec<Cmd> = Vec::new();
        frame.push(Cmd::ClearAll);
        frame.push(Cmd::MoveTo(game.board.c / 2 - 5, game.board.r / 2));
        frame.push(Cmd::PrintGameOver);
        proof {
            assert(frame@ =~= spec_game_over_frame(game.board));
        }
        frame
    } else if game.killers_speed < 1 {
        game.killers_speed = KILLER_CADENCE;
        let frame = render(&mut game.board, true);
        game.killers_speed = game.killers_speed - 1;
        frame
    } else {
        let frame = render(&mut game.board, false);
        game.killers_speed = game.killers_speed - 1;
        frame
    }
}

/// Replace all three killers wholesale with fresh random positions,
/// each strictly inside the board — independent of where they stood, so a
/// killer may reappear anywhere, including next to the cursor. Bounds,
/// cursor, countdown and phase are untouched.
pub fn reseed(game: &mut Game)
    requires
        old(game).wf(),
    ensures
        final(game).wf(),
        0 <= final(game).board.killers.k1_c < old(game).board.c,
        0 <= final(game).board.killers.k1_r < old(game).board.r,
        0 <= final(game).board.killers.k2_c < old(game).board.c,
        0 <= final(game).board.killers.k2_r < old(game).board.r,
        0 <= final(game).board.killers.k3_c < old(game).board.c,
        0 <= final(game).board.killers.k3_r < old(game).board.r,
        final(game).board == (Board {
            killers: final(game).board.killers,
            ..old(game).board
        }),
        final(game).killers_speed == old(game).killers_speed,
        final(game).phase == old(game).phase,
{
    game.board.killers = gen_rand_killers(game.board.r, game.board.c);
}

/// Feed one decoded key press to the game: the quit key ends the loop in
/// phase `Quit` and leaves the board alone; every other key moves the
/// cursor by its clamped step (or does nothing) and leaves the phase alone.
pub fn handle_key(game: &mut Game, key: Key)
    requires
        old(game).wf(),
    ensures
        final(game).wf(),
        key == Key::Quit ==> *final(game) == (Game { phase: Phase::Quit, ..*old(game) }),
        key != Key::Quit ==> *final(game) == (Game {
            board: spec_move_cursor(old(game).board, key),
            ..*old(game)
        }),
{
    match key {
        Key::Quit => {
            game.phase = Phase::Quit;
        },
        _ => {
            apply_key(&mut game.board, key);
        },
    }
}

} // verus!
