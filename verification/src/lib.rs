//! Stone perturbation model for a grid of rectangles: every cell of a grid
//! gets a displacement, a rotation and a colour that grow from the top row
//! to the bottom row, either in one seeded pass or animated tick by tick.
//!
//! All quantities are fixed-point integers: one whole is `UNIT` parts.

pub mod chance;
pub mod engine;
pub mod grid;
pub mod laws;
pub mod params;
pub mod still;
pub mod stone;
pub mod units;
