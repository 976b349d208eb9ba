//! Reading routes from either store.
use vstd::prelude::*;

use crate::external::gtfs::routes::Route;
use crate::external::gtfs::{GtfsCsvTrait, GtfsDbTrait, StoreError};

verus! {

/// Something that can list the feed's routes.
pub trait RouteService {
    fn fetch(&mut self) -> Result<Vec<Route>, StoreError>;
}

/// Routes read from the feed's CSV files.
pub struct RouteServiceCsv<G: GtfsCsvTrait> {
    gtfs: G,
}

impl<G: GtfsCsvTrait> RouteServiceCsv<G> {
    /// The store read from.
    pub closed spec fn store(&self) -> G {
        self.gtfs
    }

    /// A service over the given CSV files.
    pub fn new(gtfs: G) -> (r: Self)
        ensures
            r.store() == gtfs,
    {
        Self { gtfs }
    }
}

impl<G: GtfsCsvTrait> RouteService for RouteServiceCsv<G> {
    fn fetch(&mut self) -> Result<Vec<Route>, StoreError> {
        self.gtfs.load_routes()
    }
}

/// Routes read from the database.
pub struct RouteServiceDb<D: GtfsDbTrait> {
    gtfs: D,
}

impl<D: GtfsDbTrait> RouteServiceDb<D> {
    /// The store read from.
    pub closed spec fn store(&self) -> D {
        self.gtfs
    }

    /// A service over the given database.
    pub fn new(gtfs: D) -> (r: Self)
        ensures
            r.store() == gtfs,
    {
        Self { gtfs }
    }
}

impl<D: GtfsDbTrait> RouteService for RouteServiceDb<D> {
    fn fetch(&mut self) -> Result<Vec<Route>, StoreError> {
        self.gtfs.select_routes()
    }
}

} // verus!
