use killer_chase::board::{Board, Killers};
use killer_chase::collision::game_over;
use killer_chase::engine::{handle_key, new_game, reseed, tick, Phase, KILLER_CADENCE};
use killer_chase::input::{apply_key, Key};
use killer_chase::pursuit::move_killers;
use killer_chase::render::{render, Cmd};
use killer_chase::seed::gen_rand_killers;

fn board_10x10(cursor_c: u16, cursor_r: u16, killers: Killers) -> Board {
    Board {
        r: 10,
        c: 10,
        cursor_r,
        cursor_c,
        killers,
    }
}

fn killers_at(c: i16, r: i16) -> Killers {
    Killers {
        k1_c: c,
        k1_r: r,
        k2_c: c,
        k2_r: r,
        k3_c: c,
        k3_r: r,
    }
}

#[test]
fn pursuit_step_toward_cursor() {
    // Board 10x10, cursor at (5,5), killer 1 at (5,2): the row moves toward
    // the cursor, distance 3 -> 2. The column distance is 0, and the fixed
    // sign rule steps it to 6 (the step is always +-1, never 0).
    let mut k = killers_at(0, 0);
    k.k1_c = 5;
    k.k1_r = 2;
    let board = board_10x10(5, 5, k);
    let moved = move_killers(&board);
    assert_eq!(moved.k1_r, 3);
    assert_eq!(moved.k1_c, 6);
}

#[test]
fn pursuit_step_decreases_each_axis() {
    // Killer at (2,8), cursor at (5,5): both axes move one unit closer.
    let board = board_10x10(5, 5, killers_at(2, 8));
    let moved = move_killers(&board);
    assert_eq!((moved.k1_c, moved.k1_r), (3, 7));
    assert_eq!((moved.k2_c, moved.k2_r), (3, 7));
    assert_eq!((moved.k3_c, moved.k3_r), (3, 7));
}

#[test]
fn pursuit_oscillates_at_zero_distance() {
    // Killer exactly on the cursor: one step moves it one cell ahead on
    // each axis, the next step brings it straight back.
    let board = board_10x10(4, 4, killers_at(4, 4));
    let once = move_killers(&board);
    assert_eq!((once.k1_c, once.k1_r), (5, 5));
    let board2 = board_10x10(4, 4, once);
    let twice = move_killers(&board2);
    assert_eq!((twice.k1_c, twice.k1_r), (4, 4));
}

#[test]
fn collision_true_on_exact_overlap() {
    // A killer exactly at the cursor position: collision.
    let mut k = killers_at(1, 1);
    k.k3_c = 7;
    k.k3_r = 3;
    let board = board_10x10(7, 3, k);
    assert!(game_over(&board));
}

#[test]
fn collision_false_when_all_differ() {
    let board = board_10x10(5, 5, killers_at(1, 1));
    assert!(!game_over(&board));
}

#[test]
fn collision_needs_both_coordinates_equal() {
    // Matching column but not row (and the reverse) is no collision.
    let mut k = killers_at(0, 0);
    k.k1_c = 5;
    k.k1_r = 9;
    k.k2_c = 9;
    k.k2_r = 5;
    let board = board_10x10(5, 5, k);
    assert!(!game_over(&board));
}

#[test]
fn cursor_clamped_at_origin() {
    // Cursor at (0,0): Up and Left are clamped, the cursor stays put.
    let mut board = board_10x10(0, 0, killers_at(3, 3));
    apply_key(&mut board, Key::Up);
    assert_eq!((board.cursor_c, board.cursor_r), (0, 0));
    apply_key(&mut board, Key::Left);
    assert_eq!((board.cursor_c, board.cursor_r), (0, 0));
}

#[test]
fn cursor_moves_one_step_inside() {
    let mut board = board_10x10(5, 5, killers_at(0, 0));
    apply_key(&mut board, Key::Right);
    assert_eq!((board.cursor_c, board.cursor_r), (6, 5));
    apply_key(&mut board, Key::Down);
    assert_eq!((board.cursor_c, board.cursor_r), (6, 6));
    apply_key(&mut board, Key::Left);
    assert_eq!((board.cursor_c, board.cursor_r), (5, 6));
    apply_key(&mut board, Key::Up);
    assert_eq!((board.cursor_c, board.cursor_r), (5, 5));
}

#[test]
fn cursor_clamps_right_and_bottom() {
    // The right clamp stops the column at c - 1; the bottom clamp lets the
    // row reach r itself (one past the last row) and stops there — a
    // deliberate asymmetry between the two axes.
    let mut board = board_10x10(9, 9, killers_at(0, 0));
    apply_key(&mut board, Key::Right);
    assert_eq!(board.cursor_c, 9);
    apply_key(&mut board, Key::Down);
    assert_eq!(board.cursor_r, 10);
    apply_key(&mut board, Key::Down);
    assert_eq!(board.cursor_r, 10);
}

#[test]
fn seeded_killers_are_inside_the_board() {
    // Three fresh killers, each within [0, c) x [0, r).
    let k = gen_rand_killers(5, 7);
    for (c, r) in [(k.k1_c, k.k1_r), (k.k2_c, k.k2_r), (k.k3_c, k.k3_r)] {
        assert!((0..7).contains(&c));
        assert!((0..5).contains(&r));
    }
}

#[test]
fn seeding_a_single_cell_board_is_exact() {
    // On a 1x1 board the only in-bounds position is (0,0), so seeding has
    // exactly one possible outcome.
    let k = gen_rand_killers(1, 1);
    assert_eq!((k.k1_c, k.k1_r), (0, 0));
    assert_eq!((k.k2_c, k.k2_r), (0, 0));
    assert_eq!((k.k3_c, k.k3_r), (0, 0));
}

#[test]
fn tick_on_collision_ends_the_game() {
    // Killer exactly at the cursor at collision-check time: the tick moves
    // the game to GameOver, leaves the board as it stands, and draws the
    // centred banner. The tick's precondition then forbids further ticks.
    let board = board_10x10(5, 5, killers_at(5, 5));
    let mut game = killer_chase::engine::Game {
        board,
        killers_speed: 3,
        phase: Phase::Running,
    };
    let frame = tick(&mut game);
    assert_eq!(game.phase, Phase::GameOver);
    assert_eq!(game.board, board);
    assert_eq!(
        frame,
        vec![Cmd::ClearAll, Cmd::MoveTo(0, 5), Cmd::PrintGameOver]
    );
}

#[test]
fn tick_advances_killers_when_countdown_runs_out() {
    let board = board_10x10(5, 5, killers_at(2, 8));
    let mut game = killer_chase::engine::Game {
        board,
        killers_speed: 0,
        phase: Phase::Running,
    };
    let frame = tick(&mut game);
    assert_eq!(game.phase, Phase::Running);
    assert_eq!(game.killers_speed, KILLER_CADENCE - 1);
    assert_eq!((game.board.killers.k1_c, game.board.killers.k1_r), (3, 7));
    // The frame shows the killers after the step.
    assert_eq!(frame[4], Cmd::MoveTo(3, 7));
}

#[test]
fn tick_redraws_without_advancing_otherwise() {
    let board = board_10x10(5, 5, killers_at(2, 8));
    let mut game = killer_chase::engine::Game {
        board,
        killers_speed: 5,
        phase: Phase::Running,
    };
    let frame = tick(&mut game);
    assert_eq!(game.phase, Phase::Running);
    assert_eq!(game.killers_speed, 4);
    assert_eq!(game.board, board);
    let mut board_copy = board;
    let plain = render(&mut board_copy, false);
    assert_eq!(frame, plain);
}

#[test]
fn render_without_advance_is_idempotent() {
    // Two renders in succession with the advance flag unset: identical
    // frames, and the board is exactly as it was.
    let board = board_10x10(5, 5, killers_at(2, 8));
    let mut b = board;
    let first = render(&mut b, false);
    let second = render(&mut b, false);
    assert_eq!(first, second);
    assert_eq!(b, board);
}

#[test]
fn render_draws_the_expected_frame() {
    let mut k = killers_at(1, 2);
    k.k2_c = 3;
    k.k2_r = 4;
    k.k3_c = 5;
    k.k3_r = 6;
    let mut board = board_10x10(7, 8, k);
    let frame = render(&mut board, false);
    assert_eq!(
        frame,
        vec![
            Cmd::ClearAll,
            Cmd::MoveTo(7, 8),
            Cmd::PrintPlayer,
            Cmd::HideCursor,
            Cmd::MoveTo(1, 2),
            Cmd::PrintKiller,
            Cmd::MoveTo(3, 4),
            Cmd::PrintKiller,
            Cmd::MoveTo(5, 6),
            Cmd::PrintKiller,
        ]
    );
}

#[test]
fn render_with_advance_moves_killers_first() {
    let board = board_10x10(5, 5, killers_at(2, 8));
    let mut b = board;
    let frame = render(&mut b, true);
    assert_eq!((b.killers.k1_c, b.killers.k1_r), (3, 7));
    assert_eq!(frame[4], Cmd::MoveTo(3, 7));
}

#[test]
fn quit_key_ends_the_loop() {
    let board = board_10x10(5, 5, killers_at(1, 1));
    let mut game = killer_chase::engine::Game {
        board,
        killers_speed: 7,
        phase: Phase::Running,
    };
    handle_key(&mut game, Key::Quit);
    assert_eq!(game.phase, Phase::Quit);
    assert_eq!(game.board, board);
    assert_eq!(game.killers_speed, 7);
}

#[test]
fn unrecognised_keys_are_ignored() {
    let board = board_10x10(5, 5, killers_at(1, 1));
    let mut game = killer_chase::engine::Game {
        board,
        killers_speed: 7,
        phase: Phase::Running,
    };
    handle_key(&mut game, Key::Other);
    assert_eq!(game.phase, Phase::Running);
    assert_eq!(game.board, board);
}

#[test]
fn directional_key_moves_the_game_cursor() {
    let board = board_10x10(5, 5, killers_at(1, 1));
    let mut game = killer_chase::engine::Game {
        board,
        killers_speed: 7,
        phase: Phase::Running,
    };
    handle_key(&mut game, Key::Down);
    assert_eq!(game.phase, Phase::Running);
    assert_eq!((game.board.cursor_c, game.board.cursor_r), (5, 6));
}

#[test]
fn new_game_starts_centred_and_running() {
    let game = new_game(10, 10);
    assert_eq!(game.board.c, 10);
    assert_eq!(game.board.r, 10);
    assert_eq!((game.board.cursor_c, game.board.cursor_r), (5, 4));
    assert_eq!(game.killers_speed, 0);
    assert_eq!(game.phase, Phase::Running);
    let k = game.board.killers;
    for (c, r) in [(k.k1_c, k.k1_r), (k.k2_c, k.k2_r), (k.k3_c, k.k3_r)] {
        assert!((0..10).contains(&c));
        assert!((0..10).contains(&r));
    }
}

#[test]
fn reseed_replaces_all_killers_in_bounds() {
    let board = Board {
        r: 1,
        c: 1,
        cursor_r: 0,
        cursor_c: 0,
        killers: killers_at(0, 0),
    };
    let mut game = killer_chase::engine::Game {
        board,
        killers_speed: 2,
        phase: Phase::Running,
    };
    reseed(&mut game);
    // On a 1x1 board the reseeded positions are forced to (0,0).
    assert_eq!(game.board.killers, killers_at(0, 0));
    assert_eq!(game.killers_speed, 2);
    assert_eq!(game.phase, Phase::Running);
}
