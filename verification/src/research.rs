//! Research tiers.

use vstd::prelude::*;

verus! {

/// A research tier of one unit kind. Every kind starts at tier 0.
pub type Level = usize;

} // verus!
