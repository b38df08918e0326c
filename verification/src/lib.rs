//! Grid-snapped wall building for a ship's hull, and the layered modes that
//! decide when the wall tool may run.

pub mod controller;
pub mod grid;
pub mod hud;
pub mod input;
pub mod mode;
pub mod outline;
pub mod ship;
pub mod tool;
