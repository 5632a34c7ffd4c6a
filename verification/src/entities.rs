//! The passive records a track is made of: riders, layers and lines.

use vstd::prelude::*;
use crate::coords::Coordinates;

verus! {

/// Riders (characters with snowboards) with some starting position/velocity.
#[derive(Debug, Copy, Clone, PartialEq, Eq, Structural)]
pub struct Rider {
    pub start_position: Coordinates,
    pub start_velocity: Coordinates,
    pub remountable: usize,
}

impl Default for Rider {
    /// A rider at rest at the origin, not remountable.
    fn default() -> (r: Rider)
        ensures
            r.start_position.x == 0 && r.start_position.y == 0,
            r.start_velocity.x == 0 && r.start_velocity.y == 0,
            r.remountable == 0,
    {
        Rider {
            start_position: Coordinates { x: 0, y: 0 },
            start_velocity: Coordinates { x: 0, y: 0 },
            remountable: 0,
        }
    }
}

/// Layers on the game.
#[derive(Debug, Clone)]
pub struct Layer {
    pub id: usize,
    pub name: String,
    pub visible: bool,
    pub editable: bool,
}

impl Layer {
    /// The one layer a fresh track starts with.
    pub open spec fn is_base_layer(self) -> bool {
        self.id == 0 && self.name@ == "Base Layer"@ && self.visible && self.editable
    }

    /// Default layer for the game.
    pub fn new() -> (r: Layer)
        ensures
            r.is_base_layer(),
    {
        Layer { id: 0, name: "Base Layer".to_string(), visible: true, editable: true }
    }
}

/// Single line representation that stretches from (`x1`, `y1`) to (`x2`, `y2`)
/// on the 2D coordinate system of the game (in micro-units); and of type
/// `kind`.
#[derive(Debug, Copy, Clone, PartialEq, Eq, Structural)]
pub struct Line {
    /// The game requires a unique id for every line; it stays `None` until the
    /// line is committed to a track, which assigns the insertion rank.
    pub id: Option<usize>,
    pub kind: usize,
    pub x1: i64,
    pub y1: i64,
    pub x2: i64,
    pub y2: i64,
    /// Whether the line is flipped.
    pub flipped: bool,
    pub left_extended: bool,
    pub right_extended: bool,
}

impl Default for Line {
    /// An uncommitted zero-length line at the origin with every flag off.
    fn default() -> (r: Line)
        ensures
            r == (Line {
                id: None,
                kind: 0,
                x1: 0,
                y1: 0,
                x2: 0,
                y2: 0,
                flipped: false,
                left_extended: false,
                right_extended: false,
            }),
    {
        Line {
            id: None,
            kind: 0,
            x1: 0,
            y1: 0,
            x2: 0,
            y2: 0,
            flipped: false,
            left_extended: false,
            right_extended: false,
        }
    }
}

/// Version tag of the game's file format.
#[derive(Debug, Clone)]
pub struct Version(pub String);

impl Default for Version {
    /// The only tag this crate is tested against; callers may override it.
    fn default() -> (r: Version)
        ensures
            r.0@ == "6.2"@,
    {
        Version("6.2".to_string())
    }
}

} // verus!
