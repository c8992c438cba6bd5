//! Verified core of a pixel-art painting tool: a raster canvas, the mapping
//! from screen to bitmap coordinates, a soft circular brush stamped along
//! discrete lines, and the pointer-interaction state machine that drives it.

pub mod color;
pub mod canvas;
pub mod line;
pub mod geometry;
pub mod brush;
pub mod interaction;
pub mod ui;
