//! A tick-driven two-paddle ball game drawn onto a fixed character grid:
//! menus, paddles, ball physics, scoring and a CPU opponent.

pub mod game;
pub mod paddle_ball;
pub mod render;
pub mod screen;
