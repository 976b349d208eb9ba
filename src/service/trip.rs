//! Reading trips from the feed.
use vstd::prelude::*;

use crate::external::gtfs::trips::Trip;
use crate::external::gtfs::{GtfsCsvTrait, StoreError};

verus! {

/// Something that can list the feed's trips.
pub trait TripService {
    fn fetch(&mut self) -> Result<Vec<Trip>, StoreError>;
}

/// Trips read from the feed's CSV files.
pub struct TripServiceCsv<G: GtfsCsvTrait> {
    gtfs: G,
}

impl<G: GtfsCsvTrait> TripServiceCsv<G> {
    /// The store read from.
    pub closed spec fn store(&self) -> G {
        self.gtfs
    }

    /// A service over the given CSV files.
    pub fn new(gtfs: G) -> (r: Self)
        ensures
            r.store() == gtfs,
    {
        Self { gtfs }
    }
}

impl<G: GtfsCsvTrait> TripService for TripServiceCsv<G> {
    fn fetch(&mut self) -> Result<Vec<Trip>, StoreError> {
        self.gtfs.load_trips()
    }
}

} // verus!
