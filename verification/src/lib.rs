//! Game rules of a two-paddle pong: who controls each paddle, how the ball
//! turns on walls and paddles, how the computer steers, and which screen
//! follows which input.

pub mod scoreboard;
pub mod paddle;
pub mod systems;
pub mod event;
pub mod screens;
