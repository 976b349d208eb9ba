//! The identity snapshot: what a previous run learned about each service
//! route, kept so that ids stay stable across runs.
use vstd::prelude::*;

use crate::external::gtfs::extended::service_routes::ServiceRouteId;
use crate::external::gtfs::DirectionId;

verus! {

/// One service route of a previous run, with the trips that resolved to it.
#[derive(Debug, Clone, PartialEq, Eq, Hash)]
pub struct ServiceRouteIdentity {
    /// Service route id.
    pub service_route_id: ServiceRouteId,
    /// Service route name.
    pub service_route_name: String,
    /// Direction of the service route.
    pub service_route_direction_id: DirectionId,
    /// Trip ids, comma-separated (ex: 1001_WD_001,1001_WD_002).
    pub trip_ids: String,
    /// Stop ids of those trips, comma-separated (ex: 100_10,200_20).
    pub stop_ids: String,
    /// Stop names of those trips, comma-separated (ex: 市役所前,区役所前).
    pub stop_names: String,
}

} // verus!
