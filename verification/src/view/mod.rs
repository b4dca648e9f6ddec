//! What the screen shows: geometry and text, decided here and drawn by the
//! terminal program.

pub mod areas;
pub mod geometry;
pub mod laws;
pub mod lines;
pub mod lists;
