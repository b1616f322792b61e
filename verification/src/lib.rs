//! Core of a grid-based Snake game: a toroidal board, the four headings with
//! their reversal relation, and the snake state machine itself — movement with
//! wrap-around, the two-slot direction queue that forbids reversals, growth on
//! feeding, reset on self-collision, food placement on free cells, touch
//! gesture resolution, and the render command list.
//!
//! The machine is deterministic: wherever the game needs a random cell (the
//! spawn positions of a fresh snake, candidate positions for relocated food)
//! the caller draws it and passes it in, and the contracts state what holds of
//! every such draw.

pub mod direction;
pub mod grid;
pub mod snake;
