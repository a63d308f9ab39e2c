//! Verified simulation core for a two-paddle ball game.
//!
//! Two paddles move vertically inside a fixed play field, a ball bounces
//! between them and off the top and bottom edges, and a side scores when the
//! ball passes the opposing paddle.  Every state transition here is a pure
//! function from the previous snapshot to the next one; rendering and the
//! event loop live outside the library and only call in once per tick.

pub mod ball;
pub mod input;
pub mod paddle;
pub mod score;
pub mod simulation;
pub mod window;
