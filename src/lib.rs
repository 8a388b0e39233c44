//! A grid cellular automaton with several transition rules: seeded
//! initialisation, one generation at a time, and an RGBA rendering of the grid.

pub mod data;
pub mod grid;
pub mod render;
pub mod rules;
pub mod sketch;
