//! A deterministic simulation core for a tile-based action game.
//!
//! Every quantity is an integer. Lengths are counted in sub-units, of which
//! [`units::UNIT`] make one world unit; times are counted in milliseconds;
//! a speed is a number of sub-units per millisecond. The frame pipeline takes
//! the input flags and the length of the frame, runs the systems in their fixed
//! order over the entity records, and hands back the buffer uploads and draw
//! commands that a GPU backend has to carry out.

pub mod units;
pub mod components;
pub mod resources;
pub mod renderer;
pub mod world;
pub mod system;
pub mod spawner;
pub mod game_state;
