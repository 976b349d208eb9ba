//! Why a trip could not be resolved to a pattern.
use vstd::prelude::*;

use crate::external::gtfs::extended::course::IdentifyStrategy;

verus! {

/// Why identifying a trip failed; each aborts the whole pass.
#[derive(Debug, Clone, PartialEq, Eq)]
pub enum IdentifyError {
    /// The trip has no visits.
    EmptyTripGroup,
    /// The strategy needs a route field that the trip's first visit lacks.
    MissingRequiredField { strategy: IdentifyStrategy, trip_id: String },
}

} // verus!
