//! The ways in which a join can fail.

use vstd::prelude::*;

verus! {

/// Why the datasets could not be joined. Each of these ends the run: there is
/// no partial result.
#[derive(Debug, Clone, Copy, PartialEq, Eq, Structural)]
pub enum JoinError {
    /// A field does not have the type that the join reads it as.
    MalformedRecord,
    /// A boundary feature has no area name.
    MissingAreaName,
    /// The census table does not hold exactly one row of populations.
    MissingCategoryRow,
    /// A boundary feature's name has no case count or no population.
    UnjoinedNeighbourhood,
}

} // verus!
