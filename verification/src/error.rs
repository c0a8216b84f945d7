//! Failures of sample resolution. Either the sampling specification itself
//! is rejected, or a plan-building step referenced a column that the node
//! below it does not output; any such failure aborts the whole resolution.

use crate::doubles::DoubleBits;
use crate::plan::ColName;
use vstd::prelude::*;

verus! {

/// An error surfaced by sample resolution.
#[derive(Debug, Clone, PartialEq, Eq)]
pub enum PlanError {
    /// The sampling bounds were rejected: `lower >= upper`. Carries both
    /// offending bounds.
    InvalidBounds { lower: DoubleBits, upper: DoubleBits },
    /// A projection, filter or unnest referenced a column the node below
    /// does not output.
    UnknownColumn { name: ColName },
}

} // verus!
