//! A terminal "pipes" animation, verified: a colored line segment wanders
//! over a wraparound grid, turning at right angles after random run lengths,
//! while its color cycles through hues.
//!
//! The library holds the whole animation state machine: wraparound coordinate
//! arithmetic, hue rotation on RGB bytes, the direction/turn/glyph tables,
//! and the per-frame driver step. Drawing to the terminal, the frame delay
//! and argument handling live outside the library.

pub mod color;
pub mod coord;
pub mod direction;
pub mod driver;
mod rng;
