//! How the visits of a pass are asked of the database: which filter applies,
//! and the query that joins stop times with their trip, stop and route.
use vstd::prelude::*;
use vstd::string::StringExecFns;

use crate::external::gtfs::trips::TripId;

verus! {

/// Which trips' visits to read.
#[derive(Debug, Clone, PartialEq, Eq)]
pub enum VisitFilter {
    /// The visits of these trips.
    TripIds(Vec<TripId>),
    /// The visits at stops whose name starts with this prefix.
    StopNamePrefix(String),
    /// Every visit.
    All,
}

/// The filter for the given arguments: trip ids win over a stop-name prefix,
/// and with neither every visit is read.
pub fn visit_filter(trip_ids: Option<Vec<TripId>>, stop_name_prefix: Option<String>) -> (r: VisitFilter)
    ensures
        match (trip_ids, stop_name_prefix) {
            (Some(ids), _) => r == VisitFilter::TripIds(ids),
            (None, Some(p)) => r == VisitFilter::StopNamePrefix(p),
            (None, None) => r == VisitFilter::All,
        },
{
    match (trip_ids, stop_name_prefix) {
        (Some(ids), _) => VisitFilter::TripIds(ids),
        (None, Some(p)) => VisitFilter::StopNamePrefix(p),
        (None, None) => VisitFilter::All,
    }
}

/// The part of the query before any filter: stop times joined (inner joins)
/// with their trip, their stop and their trip's route.
pub open spec fn visits_select() -> Seq<char> {
    "SELECT stt.trip_id, stt.stop_sequence, st.stop_id, st.stop_name, st.stop_lat, st.stop_lon, stt.arrival_time, stt.departure_time, r.route_id, r.route_short_name, r.route_long_name, t.direction_id FROM stop_times stt INNER JOIN trips t ON stt.trip_id == t.trip_id INNER JOIN stops st ON stt.stop_id == st.stop_id INNER JOIN routes r ON t.route_id == r.route_id"@
}

/// The condition of a filter, with its named parameter.
pub open spec fn visits_where(f: VisitFilter) -> Seq<char> {
    match f {
        VisitFilter::TripIds(_) => " WHERE stt.trip_id in rarray(:trip_ids)"@,
        VisitFilter::StopNamePrefix(_) => " WHERE st.stop_name like :stop_name_prefix"@,
        VisitFilter::All => ""@,
    }
}

/// The order of the result: by trip id, then by stop sequence.
pub open spec fn visits_order() -> Seq<char> {
    " ORDER BY stt.trip_id, stt.stop_sequence"@
}

/// The query that reads the visits a filter selects.
pub fn visits_query(filter: &VisitFilter) -> (r: String)
    ensures
        r@ == visits_select() + visits_where(*filter) + visits_order(),
{
    let select = "SELECT stt.trip_id, stt.stop_sequence, st.stop_id, st.stop_name, st.stop_lat, st.stop_lon, stt.arrival_time, stt.departure_time, r.route_id, r.route_short_name, r.route_long_name, t.direction_id FROM stop_times stt INNER JOIN trips t ON stt.trip_id == t.trip_id INNER JOIN stops st ON stt.stop_id == st.stop_id INNER JOIN routes r ON t.route_id == r.route_id";
    let condition = match filter {
        VisitFilter::TripIds(_) => " WHERE stt.trip_id in rarray(:trip_ids)",
        VisitFilter::StopNamePrefix(_) => " WHERE st.stop_name like :stop_name_prefix",
        VisitFilter::All => "",
    };
    let order = " ORDER BY stt.trip_id, stt.stop_sequence";
    proof {
        reveal_strlit("SELECT stt.trip_id, stt.stop_sequence, st.stop_id, st.stop_name, st.stop_lat, st.stop_lon, stt.arrival_time, stt.departure_time, r.route_id, r.route_short_name, r.route_long_name, t.direction_id FROM stop_times stt INNER JOIN trips t ON stt.trip_id == t.trip_id INNER JOIN stops st ON stt.stop_id == st.stop_id INNER JOIN routes r ON t.route_id == r.route_id");
        reveal_strlit(" WHERE stt.trip_id in rarray(:trip_ids)");
        reveal_strlit(" WHERE st.stop_name like :stop_name_prefix");
        reveal_strlit("");
        reveal_strlit(" ORDER BY stt.trip_id, stt.stop_sequence");
    }
    select.to_owned().concat(condition).concat(order)
}

/// The `LIKE` pattern that matches names starting with `prefix`.
pub fn stop_name_pattern(prefix: &str) -> (r: String)
    ensures
        r@ == prefix@ + "%"@,
{
    prefix.to_owned().concat("%")
}

} // verus!
