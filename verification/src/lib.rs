//! A small terminal chase game, verified.
//!
//! A player cursor moves on a character grid while three killer entities
//! chase it one grid step per simulation tick. The game ends when a killer
//! reaches the cursor, or when the player quits. This crate holds the whole
//! game logic — board state, pursuit movement, collision detection, random
//! seeding of the killers, frame computation and the loop state machine —
//! with contracts; the terminal front end interprets the frames it produces.

pub mod board;
pub mod collision;
pub mod engine;
pub mod input;
pub mod pursuit;
pub mod render;
pub mod seed;
