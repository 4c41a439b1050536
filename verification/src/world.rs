//! The sides of a match.

use vstd::prelude::*;

verus! {

/// The team a unit fights for.
#[derive(Debug, Clone, Copy, PartialEq, Eq, Structural, Hash)]
pub enum Team {
    /// The first team.
    Red,
    /// The second team.
    Blue,
}

} // verus!
