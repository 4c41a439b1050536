//! Places on the map.

use vstd::prelude::*;

verus! {

/// A coordinate pair on the map. A unit that is off the map has no location
/// at all, never a location with special coordinates.
#[derive(Debug, Clone, Copy, PartialEq, Eq, Structural, Hash)]
pub struct MapLocation {
    /// The x-coordinate.
    pub x: i32,
    /// The y-coordinate.
    pub y: i32,
}

} // verus!
