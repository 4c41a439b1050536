//! The errors an operation on a unit can end in.

use vstd::prelude::*;

verus! {

/// What went wrong in an operation on a unit or on a kind's stat record.
#[derive(Debug, Clone, Copy, PartialEq, Eq, Structural, Hash)]
pub enum GameError {
    /// Research was requested for a kind that is already at its last tier.
    ResearchLimitExceeded,
}

} // verus!
