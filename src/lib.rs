//! A two-paddle Pong simulation: ball motion, paddle and wall collisions,
//! scoring, serving, and paddle movement from key presses.

pub mod consts;
pub mod game;
pub mod laws;
mod random;
