//! Core of a tick-driven grid simulation: a snake head moves on a toroidal
//! integer grid at a fixed cadence, driven by directional input, while a
//! second timed process places food markers at random cells. A coordinate
//! mapper turns grid positions and logical sizes into exact pixel fractions
//! for a rendering surface.

pub mod grid;
pub mod heading;
pub mod input;
pub mod mapper;
pub mod snake;
pub mod spawner;
pub mod timer;
