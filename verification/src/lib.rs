//! Builds in-memory descriptions of Line Rider tracks and serializes them to
//! the JSON document the game imports.
//!
//! Coordinates are held in fixed-point micro-units: one unit of the game's
//! coordinate system is `MICRO` (1 000 000) micro-units, so geometry is exact
//! integer arithmetic throughout.

pub mod coords;
pub mod entities;
pub mod extension;
pub mod game;
pub mod json;
pub mod trig;

pub use crate::coords::Coordinates;
pub use crate::game::Game;
pub use crate::entities::Layer;
pub use crate::entities::Line;
pub use crate::entities::Rider;
pub use crate::entities::Version;
