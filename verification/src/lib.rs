//! The rules of a falling-block puzzle game, verified with Verus.
//!
//! The game on the grid lives in `board`, `tetrimino`, `score` and `game`:
//! a board of 21 rows by 12 columns with a boundary of walls and floor, a
//! piece of four cells that moves and turns where the board lets it, the
//! score, and the state machine that lets the piece fall, locks it, clears
//! complete rows and spawns the next piece. `grid` and `geometry` hold the
//! mathematical model of the board and of quarter turns, with their laws.
//!
//! The game of entities lives in `ecs`, `collisions` and `collision_box`:
//! the kinds of entities and their cells, and the decisions of the movement,
//! collision and control systems. The collision world itself belongs to
//! the shell around this library.
//!
//! `inputs` holds the keys of the game and what is held or pressed of them.
//! `matrix`, `vector_buffer` and `random` hold what is taken on trust from
//! the crates nalgebra, arrayvec and rand.

pub mod board;
pub mod collision_box;
pub mod collisions;
pub mod constants;
pub mod ecs;
pub mod game;
pub mod geometry;
pub mod grid;
pub mod inputs;
pub mod kinds;
pub mod matrix;
pub mod random;
pub mod score;
pub mod tetrimino;
pub mod types;
pub mod vector_buffer;
