//! Core logic of a snake game played on a toroidal cell grid.
//!
//! The crate models the game state: the snake's body and movement rule,
//! the food table with its spawn policy and colour animation, and the
//! two-rate update cycle (fast input polling, slow simulation ticks).
//! Rendering is expressed as a list of draw commands over cells; a host
//! front end executes them against a real display and feeds joystick
//! samples into the fast update.

pub mod draw;
pub mod food;
pub mod food_map;
pub mod game;
pub mod geometry;
pub mod snake;
