//! The simulation core of a snake game on a toroidal grid.
//!
//! The crate holds the rules of the game and nothing else: how the head steps
//! and wraps at the edges, how the body follows, when the snake bites itself,
//! how food is placed and eaten, and when the session is won or lost. Every
//! operation is a plain function on one owning [`game::Game`] value, and each
//! states in its contract the state it leaves behind.

pub mod game;
pub mod grid;
pub mod input;
pub mod laws;
pub mod snake;
pub mod spawn;
pub mod status;
