//! Which service route each trip resolved to.
use vstd::prelude::*;

use crate::external::gtfs::extended::service_routes::ServiceRouteId;
use crate::external::gtfs::DirectionId;

use crate::external::gtfsdb::Table;

verus! {

/// A trip and the service route it resolved to.
#[derive(Debug, Clone, PartialEq, Eq, Hash)]
pub struct Trip2ServiceRoute {
    /// Trip id.
    pub trip_id: String,
    /// Service route id.
    pub service_route_id: ServiceRouteId,
    /// Direction of the service route.
    pub service_route_direction_id: DirectionId,
}

impl Table for Trip2ServiceRoute {
    fn table_name() -> &'static str {
        "trips2service_routes"
    }

    fn column_names() -> &'static [&'static str] {
        &["trip_id", "service_route_id", "service_route_direction_id"]
    }

    fn create_sql() -> &'static str {
        "
        trip_id text,
        service_route_id int,
        service_route_direction_id int,
        PRIMARY KEY(trip_id, service_route_id, service_route_direction_id)
        "
    }
}

} // verus!
