//! The simulation behind an animated terminal background: rain, snow or
//! meteors falling over a grid of cells, wind that makes the picture drift,
//! tails behind falling heads, and a clock laid over it all.
//!
//! Every frame the weather runs its passes over the shared grid and the
//! clock moves on by itself. Drawing is left to whoever reads the grid.

pub mod app;
pub mod buffer;
pub mod cell;
pub mod config;
pub mod dropping;
pub mod geometry;
pub mod pass;
pub mod signal;
pub mod state;
pub mod tail;
pub mod text;
pub mod timer;
pub mod util;
pub mod weather;
pub mod widget;
pub mod wind;
