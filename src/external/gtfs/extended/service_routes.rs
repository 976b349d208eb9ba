//! Service routes: trips collapsed by their stop sequence, with ids that can
//! be carried over from an identity snapshot of a previous run.
use vstd::prelude::*;
use vstd::slice::slice_subrange;
use vstd::string::StringExecFns;

use crate::external::gtfs::extended::errors::IdentifyError;
use crate::external::gtfs::extended::service_route_identity::ServiceRouteIdentity;
use crate::external::gtfs::extended::service_route_laws::lemma_steps_consistent;
use crate::external::gtfs::extended::stop_time_details::{
    collect_stop_ids, collect_stop_names, direction_of, direction_or_outbound,
    lemma_trip_groups_len, lemma_trip_groups_step, pattern_name, pattern_name_of, stop_ids_of,
    stop_names_of, trip_groups, StopTimeDetail,
};
use crate::external::gtfs::extended::trips2service_routes::Trip2ServiceRoute;
use crate::external::gtfs::DirectionId;
use crate::external::gtfsdb::Table;
use crate::joined::{
    one_per_key, comma_joined, join_with_commas, lemma_join_push, lemma_views_push, position_of, same_text,
    views_of,
};

verus! {

/// Service route id (ex: 1).
pub type ServiceRouteId = i32;

/// A service route: one recurring stop sequence.
#[derive(Debug, Clone, PartialEq, Eq, Hash)]
pub struct ServiceRoute {
    /// Service route id.
    pub service_route_id: ServiceRouteId,
    /// Service route name, for reference only.
    pub service_route_name: String,
    /// Direction.
    pub direction_id: DirectionId,
}

/// A service route as a mathematical value.
pub ghost struct ServiceRouteView {
    pub id: int,
    pub name: Seq<char>,
    pub direction: DirectionId,
}

impl View for ServiceRoute {
    type V = ServiceRouteView;

    open spec fn view(&self) -> ServiceRouteView {
        ServiceRouteView {
            id: self.service_route_id as int,
            name: self.service_route_name@,
            direction: self.direction_id,
        }
    }
}

pub(crate) fn copy_route(r: &ServiceRoute) -> (c: ServiceRoute)
    ensures
        c == *r,
{
    ServiceRoute {
        service_route_id: r.service_route_id,
        service_route_name: r.service_route_name.clone(),
        direction_id: r.direction_id,
    }
}

/// How the identity of a trip is computed for service routes.
#[derive(Debug, Clone, Copy, PartialEq, Eq, Structural, Hash)]
pub enum IdentifyStrategy {
    /// The trip's stop ids, in order.
    StopIds,
    /// The trip's stop names, in order.
    StopNames,
}

/// The name of a strategy on the command line: its variant in snake case.
pub open spec fn strategy_name(s: IdentifyStrategy) -> Seq<char> {
    match s {
        IdentifyStrategy::StopIds => "stop_ids"@,
        IdentifyStrategy::StopNames => "stop_names"@,
    }
}

impl IdentifyStrategy {
    /// The names of all strategies.
    pub const VARIANTS: [&'static str; 2] = ["stop_ids", "stop_names"];

    /// The strategy's name.
    pub fn name(&self) -> (r: &'static str)
        ensures
            r@ == strategy_name(*self),
    {
        proof {
            reveal_strlit("stop_ids");
            reveal_strlit("stop_names");
        }
        match self {
            IdentifyStrategy::StopIds => "stop_ids",
            IdentifyStrategy::StopNames => "stop_names",
        }
    }

    /// The strategy with the name `s`, if any.
    pub fn from_name(s: &str) -> (r: Option<IdentifyStrategy>)
        ensures
            match r {
                Some(x) => strategy_name(x) == s@,
                None => forall|x: IdentifyStrategy| strategy_name(x) != s@,
            },
    {
        proof {
            reveal_strlit("stop_ids");
            reveal_strlit("stop_names");
        }
        if same_text(s, "stop_ids") {
            Some(IdentifyStrategy::StopIds)
        } else if same_text(s, "stop_names") {
            Some(IdentifyStrategy::StopNames)
        } else {
            None
        }
    }
}

/// What a generator knows: the last id it handed out and the service route of
/// each identity.
pub ghost struct GeneratorState {
    pub last_id: int,
    pub routes: Map<Seq<char>, ServiceRouteView>,
}

/// The identity of a trip: its stop ids or stop names, comma-joined.
pub open spec fn identifier_of(strategy: IdentifyStrategy, details: Seq<StopTimeDetail>) -> Seq<
    char,
> {
    match strategy {
        IdentifyStrategy::StopIds => comma_joined(stop_ids_of(details)),
        IdentifyStrategy::StopNames => comma_joined(stop_names_of(details)),
    }
}

/// The identity recorded in a snapshot row.
pub open spec fn snapshot_identifier(strategy: IdentifyStrategy, identity: ServiceRouteIdentity) -> Seq<
    char,
> {
    match strategy {
        IdentifyStrategy::StopIds => identity.stop_ids@,
        IdentifyStrategy::StopNames => identity.stop_names@,
    }
}

/// The service route made for a trip seen for the first time.
pub open spec fn new_route_view(id: int, details: Seq<StopTimeDetail>) -> ServiceRouteView {
    ServiceRouteView { id, name: pattern_name_of(details), direction: direction_of(details[0]) }
}

/// What `generate` does: the next state, and the service route returned
/// (`None` where the trip has no visits).
pub open spec fn generate_step(
    strategy: IdentifyStrategy,
    st: GeneratorState,
    details: Seq<StopTimeDetail>,
) -> (GeneratorState, Option<ServiceRouteView>) {
    if details.len() == 0 {
        (st, None)
    } else {
        let k = identifier_of(strategy, details);
        if st.routes.contains_key(k) {
            (st, Some(st.routes[k]))
        } else {
            let p = new_route_view(st.last_id + 1, details);
            (GeneratorState { last_id: st.last_id + 1, routes: st.routes.insert(k, p) }, Some(p))
        }
    }
}

/// The state of a generator made without a snapshot.
pub open spec fn initial_state() -> GeneratorState {
    GeneratorState { last_id: 0, routes: Map::empty() }
}

/// The largest id in a snapshot, or 0 for an empty one.
pub open spec fn snapshot_max_id(rows: Seq<ServiceRouteIdentity>) -> int
    decreases rows.len(),
{
    if rows.len() == 0 {
        0
    } else if rows.len() == 1 {
        rows[0].service_route_id as int
    } else {
        let m = snapshot_max_id(rows.drop_last());
        let x = rows.last().service_route_id as int;
        if x > m {
            x
        } else {
            m
        }
    }
}

/// Every id of the snapshot is positive.
pub open spec fn valid_snapshot(rows: Seq<ServiceRouteIdentity>) -> bool {
    forall|r: int| 0 <= r < rows.len() ==> (#[trigger] rows[r]).service_route_id >= 1
}

/// The service route that a snapshot row stands for.
pub open spec fn identity_view(identity: ServiceRouteIdentity) -> ServiceRouteView {
    ServiceRouteView {
        id: identity.service_route_id as int,
        name: identity.service_route_name@,
        direction: identity.service_route_direction_id,
    }
}

/// The service routes seeded from a snapshot; a later row wins over an earlier
/// one with the same identity.
pub open spec fn seeded_routes(strategy: IdentifyStrategy, rows: Seq<ServiceRouteIdentity>) -> Map<
    Seq<char>,
    ServiceRouteView,
>
    decreases rows.len(),
{
    if rows.len() == 0 {
        Map::empty()
    } else {
        seeded_routes(strategy, rows.drop_last()).insert(
            snapshot_identifier(strategy, rows.last()),
            identity_view(rows.last()),
        )
    }
}

/// The state of a generator bootstrapped from a snapshot.
pub open spec fn bootstrap_state(strategy: IdentifyStrategy, rows: Seq<ServiceRouteIdentity>) -> GeneratorState {
    GeneratorState { last_id: snapshot_max_id(rows), routes: seeded_routes(strategy, rows) }
}

/// Resolving trips one after another: the final state, and the service route
/// of each trip (`None` where some trip had no visits, which stops the pass).
pub open spec fn generate_steps(
    strategy: IdentifyStrategy,
    st: GeneratorState,
    groups: Seq<Seq<StopTimeDetail>>,
) -> (GeneratorState, Option<Seq<ServiceRouteView>>)
    decreases groups.len(),
{
    if groups.len() == 0 {
        (st, Some(seq![]))
    } else {
        let (s1, r1) = generate_steps(strategy, st, groups.drop_last());
        match r1 {
            None => (s1, None),
            Some(ps) => {
                let (s2, r2) = generate_step(strategy, s1, groups.last());
                match r2 {
                    None => (s2, None),
                    Some(p) => (s2, Some(ps.push(p))),
                }
            },
        }
    }
}

/// A snapshot row records a trip of a run: the service route it resolved to,
/// with its stop ids and stop names comma-joined.
pub open spec fn row_records(
    row: ServiceRouteIdentity,
    details: Seq<StopTimeDetail>,
    route: ServiceRouteView,
) -> bool {
    &&& identity_view(row) == route
    &&& row.stop_ids@ == comma_joined(stop_ids_of(details))
    &&& row.stop_names@ == comma_joined(stop_names_of(details))
}

/// `row` records one of the trips of `groups`, resolved to `routes`.
pub open spec fn records_some_trip(
    row: ServiceRouteIdentity,
    groups: Seq<Seq<StopTimeDetail>>,
    routes: Seq<ServiceRouteView>,
) -> bool {
    exists|i: int| 0 <= i < groups.len() && #[trigger] row_records(row, groups[i], routes[i])
}

/// Some row of `rows` records the trip `details`, resolved to `route`.
pub open spec fn has_row(
    rows: Seq<ServiceRouteIdentity>,
    details: Seq<StopTimeDetail>,
    route: ServiceRouteView,
) -> bool {
    exists|r: int| 0 <= r < rows.len() && #[trigger] row_records(rows[r], details, route)
}

/// `rows` is a snapshot of a run that resolved trip `i` of `groups` to
/// `routes[i]`: every row records some trip, and every trip has a row.
pub open spec fn exported_from(
    rows: Seq<ServiceRouteIdentity>,
    groups: Seq<Seq<StopTimeDetail>>,
    routes: Seq<ServiceRouteView>,
) -> bool {
    &&& groups.len() == routes.len()
    &&& forall|r: int| 0 <= r < rows.len() ==> #[trigger] records_some_trip(rows[r], groups, routes)
    &&& forall|i: int| 0 <= i < groups.len() ==> #[trigger] has_row(rows, groups[i], routes[i])
}

/// `a` assigns the trip `details` to the service route `route`.
pub open spec fn assigns(a: Trip2ServiceRoute, details: Seq<StopTimeDetail>, route: ServiceRouteView) -> bool {
    &&& a.trip_id@ == details[0].trip_id@
    &&& a.service_route_id as int == route.id
    &&& a.service_route_direction_id == route.direction
}

/// Two snapshot rows agree on everything but their trip ids.
pub open spec fn same_record(a: ServiceRouteIdentity, b: ServiceRouteIdentity) -> bool {
    &&& identity_view(a) == identity_view(b)
    &&& a.stop_ids@ == b.stop_ids@
    &&& a.stop_names@ == b.stop_names@
}

/// `row` holds `route` with the given stop ids and names (trip ids aside).
pub open spec fn row_holds(
    row: ServiceRouteIdentity,
    route: ServiceRouteView,
    stop_ids: Seq<char>,
    stop_names: Seq<char>,
) -> bool {
    &&& identity_view(row) == route
    &&& row.stop_ids@ == stop_ids
    &&& row.stop_names@ == stop_names
}

/// No two rows agree on everything but their trip ids.
pub open spec fn distinct_rows(rows: Seq<ServiceRouteIdentity>) -> bool {
    forall|a: int, b: int|
        0 <= a < rows.len() && 0 <= b < rows.len() && a != b ==> !same_record(
            #[trigger] rows[a],
            #[trigger] rows[b],
        )
}

/// The ids, in order, of the trips of `groups` that `row` records.
pub open spec fn trips_recorded(
    row: ServiceRouteIdentity,
    groups: Seq<Seq<StopTimeDetail>>,
    routes: Seq<ServiceRouteView>,
) -> Seq<Seq<char>>
    decreases groups.len(),
{
    if groups.len() == 0 {
        seq![]
    } else {
        let prev = trips_recorded(row, groups.drop_last(), routes.drop_last());
        if row_records(row, groups.last(), routes.last()) {
            prev.push(groups.last()[0].trip_id@)
        } else {
            prev
        }
    }
}

/// Rows that agree on everything but their trip ids record the same trips.
proof fn lemma_trips_recorded_same(
    a: ServiceRouteIdentity,
    b: ServiceRouteIdentity,
    groups: Seq<Seq<StopTimeDetail>>,
    routes: Seq<ServiceRouteView>,
)
    requires
        same_record(a, b),
    ensures
        trips_recorded(a, groups, routes) == trips_recorded(b, groups, routes),
    decreases groups.len(),
{
    if groups.len() > 0 {
        lemma_trips_recorded_same(a, b, groups.drop_last(), routes.drop_last());
    }
}

/// A row records some trip exactly when its list of recorded trips is not empty.
proof fn lemma_trips_recorded_nonempty(
    row: ServiceRouteIdentity,
    groups: Seq<Seq<StopTimeDetail>>,
    routes: Seq<ServiceRouteView>,
)
    requires
        groups.len() == routes.len(),
    ensures
        trips_recorded(row, groups, routes).len() > 0 <==> records_some_trip(row, groups, routes),
    decreases groups.len(),
{
    if groups.len() > 0 {
        let gp = groups.drop_last();
        let rp = routes.drop_last();
        lemma_trips_recorded_nonempty(row, gp, rp);
        if records_some_trip(row, gp, rp) {
            let l = choose|l: int| 0 <= l < gp.len() && #[trigger] row_records(row, gp[l], rp[l]);
            assert(gp[l] == groups[l] && rp[l] == routes[l]);
            assert(row_records(row, groups[l], routes[l]));
        }
        if records_some_trip(row, groups, routes) {
            let l = choose|l: int| 0 <= l < groups.len() && #[trigger] row_records(row, groups[l], routes[l]);
            if l < gp.len() {
                assert(gp[l] == groups[l] && rp[l] == routes[l]);
                assert(row_records(row, gp[l], rp[l]));
            } else {
                assert(groups[l] == groups.last() && routes[l] == routes.last());
            }
        }
        if row_records(row, groups.last(), routes.last()) {
            assert(row_records(row, groups[groups.len() - 1], routes[groups.len() - 1]));
        }
    }
}

/// Adds a trip to a snapshot: to the row with the same service route and stops
/// where there is one (its trip ids get `,` and the trip id), else as a new row.
fn add_to_snapshot(
    rows: &mut Vec<ServiceRouteIdentity>,
    trip_id: &String,
    route: &ServiceRoute,
    stop_ids: String,
    stop_names: String,
)
    ensures
        final(rows)@.len() == old(rows)@.len() ==> exists|i: int|
            0 <= i < old(rows)@.len() && #[trigger] row_holds(old(rows)@[i], route@, stop_ids@, stop_names@)
                && same_record(final(rows)@[i], old(rows)@[i]) && final(rows)@[i].trip_ids@
                == old(rows)@[i].trip_ids@ + seq![','] + trip_id@ && final(rows)@ == old(rows)@.update(
                i,
                final(rows)@[i],
            ),
        final(rows)@.len() != old(rows)@.len() ==> {
            &&& final(rows)@.len() == old(rows)@.len() + 1
            &&& final(rows)@.drop_last() == old(rows)@
            &&& row_holds(final(rows)@.last(), route@, stop_ids@, stop_names@)
            &&& final(rows)@.last().trip_ids@ == trip_id@
            &&& forall|r: int|
                0 <= r < old(rows)@.len() ==> !row_holds(
                    #[trigger] old(rows)@[r],
                    route@,
                    stop_ids@,
                    stop_names@,
                )
        },
{
    let mut i: usize = 0;
    while i < rows.len()
        invariant
            i <= rows@.len(),
            rows@ == old(rows)@,
            forall|r: int| 0 <= r < i ==> !row_holds(#[trigger] rows@[r], route@, stop_ids@, stop_names@),
        decreases rows@.len() - i,
    {
        let row = &rows[i];
        if row.service_route_id == route.service_route_id && row.service_route_direction_id
            == route.direction_id && row.service_route_name == route.service_route_name
            && row.stop_ids == stop_ids && row.stop_names == stop_names {
            let merged = ServiceRouteIdentity {
                service_route_id: row.service_route_id,
                service_route_name: row.service_route_name.clone(),
                service_route_direction_id: row.service_route_direction_id,
                trip_ids: row.trip_ids.clone().concat(",").concat(trip_id.as_str()),
                stop_ids: row.stop_ids.clone(),
                stop_names: row.stop_names.clone(),
            };
            proof {
                reveal_strlit(",");
            }
            rows.set(i, merged);
            assert(row_holds(old(rows)@[i as int], route@, stop_ids@, stop_names@));
            return ;
        }
        i = i + 1;
    }
    rows.push(
        ServiceRouteIdentity {
            service_route_id: route.service_route_id,
            service_route_name: route.service_route_name.clone(),
            service_route_direction_id: route.direction_id,
            trip_ids: trip_id.clone(),
            stop_ids,
            stop_names,
        },
    );
    assert(rows@.drop_last() =~= old(rows)@);
}

/// What a snapshot holds after the trips `groups` were resolved to `routes`:
/// each trip has a row, each row records a trip, no two rows agree but on
/// their trip ids, and each row's trip ids are those of the trips it records,
/// in order, comma-joined.
pub open spec fn snapshot_of(
    rows: Seq<ServiceRouteIdentity>,
    groups: Seq<Seq<StopTimeDetail>>,
    routes: Seq<ServiceRouteView>,
) -> bool {
    &&& exported_from(rows, groups, routes)
    &&& distinct_rows(rows)
    &&& forall|r: int|
        0 <= r < rows.len() ==> (#[trigger] rows[r]).trip_ids@ == comma_joined(
            trips_recorded(rows[r], groups, routes),
        )
}

/// Resolving one more trip extends a pass: its assignments and its snapshot
/// follow the longer list of trips.
proof fn lemma_record_keeps_export(
    strategy: IdentifyStrategy,
    st0: GeneratorState,
    closed: Seq<Seq<StopTimeDetail>>,
    g: Seq<StopTimeDetail>,
    a0: Seq<Trip2ServiceRoute>,
    a1: Seq<Trip2ServiceRoute>,
    r0: Seq<ServiceRouteIdentity>,
    r1: Seq<ServiceRouteIdentity>,
)
    requires
        generate_steps(strategy, st0, closed).1 is Some,
        ({
            let (st, res) = generate_steps(strategy, st0, closed);
            let ps = res->Some_0;
            let (s2, r2) = generate_step(strategy, st, g);
            let p = r2->Some_0;
            let sids = comma_joined(stop_ids_of(g));
            let snames = comma_joined(stop_names_of(g));
            let t = g[0].trip_id@;
            &&& r2 is Some
            &&& g.len() > 0
            &&& a0.len() == closed.len()
            &&& forall|l: int| 0 <= l < closed.len() ==> assigns(#[trigger] a0[l], closed[l], ps[l])
            &&& snapshot_of(r0, closed, ps)
            &&& a1.len() == a0.len() + 1
            &&& a1.drop_last() == a0
            &&& assigns(a1.last(), g, p)
            &&& r1.len() == r0.len() ==> exists|i: int|
                0 <= i < r0.len() && #[trigger] row_holds(r0[i], p, sids, snames) && same_record(
                    r1[i],
                    r0[i],
                ) && r1[i].trip_ids@ == r0[i].trip_ids@ + seq![','] + t && r1 == r0.update(i, r1[i])
            &&& r1.len() != r0.len() ==> {
                &&& r1.len() == r0.len() + 1
                &&& r1.drop_last() == r0
                &&& row_holds(r1.last(), p, sids, snames)
                &&& r1.last().trip_ids@ == t
                &&& forall|r: int| 0 <= r < r0.len() ==> !row_holds(#[trigger] r0[r], p, sids, snames)
            }
        }),
    ensures
        ({
            let closed2 = closed.push(g);
            let (st, res) = generate_steps(strategy, st0, closed2);
            let s1 = generate_steps(strategy, st0, closed).0;
            &&& res is Some
            &&& st == generate_step(strategy, s1, g).0
            &&& st.last_id <= s1.last_id + 1
            &&& forall|l: int|
                0 <= l < closed2.len() ==> assigns(#[trigger] a1[l], closed2[l], res->Some_0[l])
            &&& snapshot_of(r1, closed2, res->Some_0)
        }),
{
    let closed2 = closed.push(g);
    assert(closed2.drop_last() =~= closed);
    let (st, res) = generate_steps(strategy, st0, closed);
    let ps = res->Some_0;
    let (s2, r2) = generate_step(strategy, st, g);
    let p = r2->Some_0;
    let ps2 = ps.push(p);
    assert(ps2.drop_last() =~= ps);
    let sids = comma_joined(stop_ids_of(g));
    let snames = comma_joined(stop_names_of(g));
    let t = g[0].trip_id@;
    lemma_steps_consistent(strategy, st0, closed);
    assert(generate_steps(strategy, st0, closed2).1 == Some(ps2));
    assert forall|l: int| 0 <= l < closed2.len() implies assigns(#[trigger] a1[l], closed2[l], ps2[l]) by {
        if l < closed.len() {
            assert(a1[l] == a1.drop_last()[l]);
            assert(closed2[l] == closed[l]);
            assert(assigns(a0[l], closed[l], ps[l]));
        }
    }
    // Each row of the new snapshot agrees, but for trip ids, with an old row
    // or holds the new trip's fields.
    assert forall|r: int| 0 <= r < r1.len() implies (r < r0.len() && same_record(#[trigger] r1[r], r0[r]))
        || row_holds(r1[r], p, sids, snames) by {
        if r1.len() == r0.len() {
            let i = choose|i: int|
                0 <= i < r0.len() && #[trigger] row_holds(r0[i], p, sids, snames) && same_record(r1[i], r0[i])
                    && r1[i].trip_ids@ == r0[i].trip_ids@ + seq![','] + t && r1 == r0.update(i, r1[i]);
            if r != i {
                assert(r1[r] == r0[r]);
            }
        } else if r < r0.len() {
            assert(r1[r] == r1.drop_last()[r]);
        }
    }
    assert forall|r: int| 0 <= r < r1.len() implies #[trigger] records_some_trip(r1[r], closed2, ps2) by {
        if r < r0.len() && same_record(r1[r], r0[r]) {
            assert(records_some_trip(r0[r], closed, ps));
            let l = choose|l: int| 0 <= l < closed.len() && #[trigger] row_records(r0[r], closed[l], ps[l]);
            assert(closed2[l] == closed[l]);
            assert(row_records(r1[r], closed2[l], ps2[l]));
        } else {
            assert(closed2[closed.len() as int] == g);
            assert(row_records(r1[r], closed2[closed.len() as int], ps2[closed.len() as int]));
        }
    }
    assert forall|l: int| 0 <= l < closed2.len() implies #[trigger] has_row(r1, closed2[l], ps2[l]) by {
        if l < closed.len() {
            assert(has_row(r0, closed[l], ps[l]));
            let r = choose|r: int| 0 <= r < r0.len() && #[trigger] row_records(r0[r], closed[l], ps[l]);
            assert(closed2[l] == closed[l]);
            if r1.len() == r0.len() {
                let i = choose|i: int|
                    0 <= i < r0.len() && #[trigger] row_holds(r0[i], p, sids, snames) && same_record(r1[i], r0[i])
                        && r1[i].trip_ids@ == r0[i].trip_ids@ + seq![','] + t && r1 == r0.update(i, r1[i]);
                if r != i {
                    assert(r1[r] == r0[r]);
                }
                assert(row_records(r1[r], closed2[l], ps2[l]));
            } else {
                assert(r1[r] == r1.drop_last()[r]);
                assert(row_records(r1[r], closed2[l], ps2[l]));
            }
        } else {
            assert(closed2[l] == g);
            if r1.len() == r0.len() {
                let i = choose|i: int|
                    0 <= i < r0.len() && #[trigger] row_holds(r0[i], p, sids, snames) && same_record(r1[i], r0[i])
                        && r1[i].trip_ids@ == r0[i].trip_ids@ + seq![','] + t && r1 == r0.update(i, r1[i]);
                assert(row_records(r1[i], closed2[l], ps2[l]));
            } else {
                assert(row_records(r1[r0.len() as int], closed2[l], ps2[l]));
            }
        }
    }
    assert(distinct_rows(r1)) by {
        assert forall|x: int, y: int|
            0 <= x < r1.len() && 0 <= y < r1.len() && x != y implies !same_record(
            #[trigger] r1[x],
            #[trigger] r1[y],
        ) by {
            if r1.len() == r0.len() {
                let i = choose|i: int|
                    0 <= i < r0.len() && #[trigger] row_holds(r0[i], p, sids, snames) && same_record(r1[i], r0[i])
                        && r1[i].trip_ids@ == r0[i].trip_ids@ + seq![','] + t && r1 == r0.update(i, r1[i]);
                assert(same_record(r1[x], r0[x])) by {
                    if x != i {
                        assert(r1[x] == r0[x]);
                    }
                }
                assert(same_record(r1[y], r0[y])) by {
                    if y != i {
                        assert(r1[y] == r0[y]);
                    }
                }
                assert(!same_record(r0[x], r0[y]));
            } else {
                if x < r0.len() {
                    assert(r1[x] == r0[x]);
                }
                if y < r0.len() {
                    assert(r1[y] == r0[y]);
                }
                if x < r0.len() && y < r0.len() {
                    assert(!same_record(r0[x], r0[y]));
                } else if x < r0.len() {
                    assert(!row_holds(r0[x], p, sids, snames));
                } else {
                    assert(!row_holds(r0[y], p, sids, snames));
                }
            }
        }
    }
    assert forall|r: int| 0 <= r < r1.len() implies (#[trigger] r1[r]).trip_ids@ == comma_joined(
        trips_recorded(r1[r], closed2, ps2),
    ) by {
        let row = r1[r];
        assert(trips_recorded(row, closed2, ps2) == if row_records(row, g, p) {
            trips_recorded(row, closed, ps).push(t)
        } else {
            trips_recorded(row, closed, ps)
        });
        if r1.len() == r0.len() {
            let i = choose|i: int|
                0 <= i < r0.len() && #[trigger] row_holds(r0[i], p, sids, snames) && same_record(r1[i], r0[i])
                    && r1[i].trip_ids@ == r0[i].trip_ids@ + seq![','] + t && r1 == r0.update(i, r1[i]);
            if r != i {
                assert(r1[r] == r0[r]);
            }
            lemma_trips_recorded_same(r1[r], r0[r], closed, ps);
            if r == i {
                assert(records_some_trip(r0[i], closed, ps));
                lemma_trips_recorded_nonempty(r0[i], closed, ps);
                lemma_join_push(trips_recorded(r0[i], closed, ps), t);
            } else {
                assert(r1[r] == r0[r]);
                assert(!row_records(r0[r], g, p)) by {
                    if row_records(r0[r], g, p) {
                        assert(same_record(r0[r], r0[i]));
                    }
                }
            }
        } else if r < r0.len() {
            assert(r1[r] == r0[r]);
            assert(!row_holds(r0[r], p, sids, snames));
        } else {
            assert(r == r0.len());
            assert(row == r1.last());
            lemma_trips_recorded_nonempty(row, closed, ps);
            if records_some_trip(row, closed, ps) {
                let l = choose|l: int| 0 <= l < closed.len() && #[trigger] row_records(row, closed[l], ps[l]);
                assert(has_row(r0, closed[l], ps[l]));
                let q = choose|q: int| 0 <= q < r0.len() && #[trigger] row_records(r0[q], closed[l], ps[l]);
                assert(row_holds(r0[q], p, sids, snames));
            }
            lemma_join_push(trips_recorded(row, closed, ps), t);
        }
    }
}

/// Resolves trips to service routes, allocating a new id for each new identity.
pub struct ServiceRouteGenerator {
    service_route_id: ServiceRouteId,
    identifiers: Vec<String>,
    service_routes: Vec<ServiceRoute>,
    service_route_by_identify: Ghost<Map<Seq<char>, ServiceRouteView>>,
    identify_strategy: IdentifyStrategy,
}

fn max_service_route_id(rows: &Vec<ServiceRouteIdentity>) -> (r: ServiceRouteId)
    requires
        valid_snapshot(rows@),
    ensures
        r >= 0,
        r as int == snapshot_max_id(rows@),
{
    let mut m: ServiceRouteId = 0;
    let mut i: usize = 0;
    while i < rows.len()
        invariant
            i <= rows@.len(),
            valid_snapshot(rows@),
            m >= 0,
            m as int == snapshot_max_id(rows@.take(i as int)),
        decreases rows@.len() - i,
    {
        let x = rows[i].service_route_id;
        if i == 0 || x > m {
            m = x;
        }
        proof {
            assert(rows@.take(i + 1).drop_last() =~= rows@.take(i as int));
        }
        i = i + 1;
    }
    proof {
        assert(rows@.take(i as int) =~= rows@);
    }
    m
}

impl ServiceRouteGenerator {
    /// The last id handed out, and the service route of each identity.
    pub closed spec fn state(&self) -> GeneratorState {
        GeneratorState {
            last_id: self.service_route_id as int,
            routes: self.service_route_by_identify@,
        }
    }

    /// The strategy chosen at construction.
    pub closed spec fn strategy(&self) -> IdentifyStrategy {
        self.identify_strategy
    }

    /// The last id handed out (0, or the snapshot's largest, before any).
    pub fn last_id(&self) -> (r: ServiceRouteId)
        ensures
            r as int == self.state().last_id,
    {
        self.service_route_id
    }

    /// The identities are distinct, and each is stored with its service route.
    pub closed spec fn wf(&self) -> bool {
        let keys = views_of(self.identifiers@);
        &&& self.service_route_id >= 0
        &&& forall|i: int| 0 <= i < self.service_routes@.len() ==> (#[trigger] self.service_routes@[i]).service_route_id >= 1
        &&& self.identifiers@.len() == self.service_routes@.len()
        &&& keys.no_duplicates()
        &&& self.service_route_by_identify@.dom() == keys.to_set()
        &&& forall|i: int|
            0 <= i < keys.len() ==> self.service_route_by_identify@[keys[i]]
                == #[trigger] self.service_routes@[i]@
    }

    fn empty(last_id: ServiceRouteId, strategy: IdentifyStrategy) -> (r: Self)
        requires
            last_id >= 0,
        ensures
            r.wf(),
            r.strategy() == strategy,
            r.state() == (GeneratorState { last_id: last_id as int, routes: Map::empty() }),
    {
        let r = ServiceRouteGenerator {
            service_route_id: last_id,
            identifiers: Vec::new(),
            service_routes: Vec::new(),
            service_route_by_identify: Ghost(Map::empty()),
            identify_strategy: strategy,
        };
        proof {
            assert(views_of(r.identifiers@).to_set() =~= Set::empty());
        }
        r
    }

    /// Stores `route` under `key`, replacing what was stored there.
    fn put(&mut self, key: String, route: ServiceRoute)
        requires
            old(self).wf(),
            route.service_route_id >= 1,
        ensures
            final(self).wf(),
            final(self).strategy() == old(self).strategy(),
            final(self).state() == (GeneratorState {
                last_id: old(self).state().last_id,
                routes: old(self).state().routes.insert(key@, route@),
            }),
    {
        let ghost old_keys = views_of(self.identifiers@);
        let ghost old_map = self.service_route_by_identify@;
        let ghost rv = route@;
        match position_of(&self.identifiers, &key) {
            Some(i) => {
                self.service_routes.set(i, route);
                self.service_route_by_identify = Ghost(old_map.insert(key@, rv));
                proof {
                    assert(old_keys[i as int] == key@);
                    assert(old_keys.to_set().contains(key@));
                    assert(self.service_route_by_identify@.dom() =~= old_keys.to_set());
                    assert forall|j: int| 0 <= j < old_keys.len() implies self.service_route_by_identify@[old_keys[j]]
                        == #[trigger] self.service_routes@[j]@ by {
                        if j != i {
                            assert(old_keys[j] != old_keys[i as int]);
                        }
                    }
                }
            },
            None => {
                proof {
                    lemma_views_push(self.identifiers@, key);
                }
                let ghost k = key@;
                self.identifiers.push(key);
                self.service_routes.push(route);
                self.service_route_by_identify = Ghost(old_map.insert(k, rv));
                proof {
                    let keys = views_of(self.identifiers@);
                    assert(keys == old_keys.push(k));
                    assert forall|x: Seq<char>| #[trigger] keys.to_set().contains(x)
                        == old_keys.to_set().insert(k).contains(x) by {
                        if keys.contains(x) {
                            let j = choose|j: int| 0 <= j < keys.len() && keys[j] == x;
                            if j < old_keys.len() {
                                assert(old_keys[j] == x);
                            }
                        }
                        if old_keys.contains(x) {
                            let j = choose|j: int| 0 <= j < old_keys.len() && old_keys[j] == x;
                            assert(keys[j] == x);
                        }
                        if x == k {
                            assert(keys[old_keys.len() as int] == k);
                        }
                    }
                    assert(keys.to_set() =~= old_keys.to_set().insert(k));
                    assert(self.service_route_by_identify@.dom() =~= keys.to_set());
                    assert forall|a: int, b: int|
                        0 <= a < keys.len() && 0 <= b < keys.len() && a != b implies keys[a]
                        != keys[b] by {
                        if a < old_keys.len() && b < old_keys.len() {
                        } else if a < old_keys.len() {
                            assert(old_keys.contains(keys[a]));
                        } else {
                            assert(old_keys.contains(keys[b]));
                        }
                    }
                    assert forall|j: int| 0 <= j < keys.len() implies self.service_route_by_identify@[keys[j]]
                        == #[trigger] self.service_routes@[j]@ by {
                        if j < old_keys.len() {
                            assert(old_keys.contains(old_keys[j]));
                            assert(old_keys[j] != k);
                        }
                    }
                }
            },
        }
    }

    /// A generator for `strategy`. Without a snapshot it starts empty at id 0;
    /// with one it starts at the snapshot's largest id and knows each row's
    /// service route under the row's identity.
    pub fn new(strategy: &IdentifyStrategy, identities_or: Option<&Vec<ServiceRouteIdentity>>) -> (r: Self)
        requires
            identities_or matches Some(rows) ==> valid_snapshot(rows@),
        ensures
            r.state().last_id >= 0,
            forall|k: Seq<char>| #[trigger] r.state().routes.contains_key(k) ==> r.state().routes[k].id >= 1,
            r.wf(),
            r.strategy() == *strategy,
            r.state() == match identities_or {
                Some(rows) => bootstrap_state(*strategy, rows@),
                None => initial_state(),
            },
    {
        match identities_or {
            Some(identities) => {
                let max_id = max_service_route_id(identities);
                let mut ins = Self::empty(max_id, *strategy);
                let mut i: usize = 0;
                while i < identities.len()
                    invariant
                        i <= identities@.len(),
                        ins.wf(),
                        ins.strategy() == *strategy,
                        ins.state() == (GeneratorState {
                            last_id: snapshot_max_id(identities@),
                            routes: seeded_routes(*strategy, identities@.take(i as int)),
                        }),
                        valid_snapshot(identities@),
                        forall|k: Seq<char>| #[trigger] ins.state().routes.contains_key(k) ==> ins.state().routes[k].id >= 1,
                    decreases identities@.len() - i,
                {
                    let identity = &identities[i];
                    let service_route = ServiceRoute {
                        service_route_id: identity.service_route_id,
                        service_route_name: identity.service_route_name.clone(),
                        direction_id: identity.service_route_direction_id,
                    };
                    let key = ins.pick_identifier(identity);
                    ins.put(key, service_route);
                    proof {
                        assert(identities@.take(i + 1).drop_last() =~= identities@.take(i as int));
                    }
                    i = i + 1;
                }
                proof {
                    assert(identities@.take(i as int) =~= identities@);
                }
                ins
            },
            None => Self::empty(0, *strategy),
        }
    }

    /// The identity recorded in a snapshot row, under this generator's strategy.
    fn pick_identifier(&self, identity: &ServiceRouteIdentity) -> (r: String)
        ensures
            r@ == snapshot_identifier(self.strategy(), *identity),
    {
        match self.identify_strategy {
            IdentifyStrategy::StopIds => identity.stop_ids.clone(),
            IdentifyStrategy::StopNames => identity.stop_names.clone(),
        }
    }

    /// The identity of a trip, under this generator's strategy.
    fn to_identifier(&self, stop_time_details: &[StopTimeDetail]) -> (r: String)
        ensures
            r@ == identifier_of(self.strategy(), stop_time_details@),
    {
        match self.identify_strategy {
            IdentifyStrategy::StopIds => join_with_commas(&collect_stop_ids(stop_time_details)),
            IdentifyStrategy::StopNames => join_with_commas(&collect_stop_names(stop_time_details)),
        }
    }

    /// Resolves one trip (its visits in sequence order) to its service route.
    /// A known identity gives the stored service route and changes nothing; a
    /// new one gets the next id, a name `{route}({first stop}~{last stop})`
    /// and the first visit's direction (outbound where it has none).
    pub fn generate(&mut self, stop_time_details: &[StopTimeDetail]) -> (r: Result<ServiceRoute, IdentifyError>)
        requires
            old(self).wf(),
            !old(self).state().routes.contains_key(identifier_of(old(self).strategy(), stop_time_details@))
                ==> old(self).state().last_id < i32::MAX,
        ensures
            r matches Ok(p) ==> p.service_route_id >= 1,
            final(self).wf(),
            final(self).strategy() == old(self).strategy(),
            ({
                let (st, res) = generate_step(old(self).strategy(), old(self).state(), stop_time_details@);
                &&& final(self).state() == st
                &&& match r {
                    Ok(p) => res == Some(p@),
                    Err(e) => res == Option::<ServiceRouteView>::None && e == IdentifyError::EmptyTripGroup,
                }
            }),
    {
        if stop_time_details.len() == 0 {
            return Err(IdentifyError::EmptyTripGroup);
        }
        let identify = self.to_identifier(stop_time_details);
        let ghost keys = views_of(self.identifiers@);
        match position_of(&self.identifiers, &identify) {
            Some(i) => {
                proof {
                    assert(keys[i as int] == identify@);
                    assert(keys.to_set().contains(identify@));
                }
                Ok(copy_route(&self.service_routes[i]))
            },
            None => {
                proof {
                    assert(!keys.to_set().contains(identify@));
                }
                let service_route = ServiceRoute {
                    service_route_id: self.service_route_id + 1,
                    service_route_name: pattern_name(stop_time_details),
                    direction_id: direction_or_outbound(&stop_time_details[0]),
                };
                self.service_route_id = self.service_route_id + 1;
                let result = copy_route(&service_route);
                self.put(identify, service_route);
                Ok(result)
            },
        }
    }

    /// Every service route known, one per identity, in no promised order.
    pub fn all(&self) -> (r: Vec<&ServiceRoute>)
        requires
            self.wf(),
        ensures
            r@.len() == self.state().routes.dom().len(),
            one_per_key(r@.map_values(|x: &ServiceRoute| x@), self.state().routes),
            r@.map_values(|x: &ServiceRoute| x@).to_set() == self.state().routes.values(),
    {
        let mut r: Vec<&ServiceRoute> = Vec::new();
        let mut i: usize = 0;
        while i < self.service_routes.len()
            invariant
                i <= self.service_routes@.len(),
                r@.len() == i,
                forall|j: int| 0 <= j < i ==> r@[j] == &self.service_routes@[j],
            decreases self.service_routes@.len() - i,
        {
            r.push(&self.service_routes[i]);
            i = i + 1;
        }
        proof {
            let keys = views_of(self.identifiers@);
            let m = self.state().routes;
            let vs = r@.map_values(|x: &ServiceRoute| x@);
            keys.unique_seq_to_set();
            assert forall|v: ServiceRouteView| vs.to_set().contains(v) == m.values().contains(v) by {
                if vs.to_set().contains(v) {
                    let j = choose|j: int| 0 <= j < vs.len() && vs[j] == v;
                    assert(self.service_routes@[j]@ == m[keys[j]]);
                    assert(keys.to_set().contains(keys[j]));
                    assert(m.contains_key(keys[j]));
                }
                if m.values().contains(v) {
                    let k = choose|k: Seq<char>| m.contains_key(k) && m[k] == v;
                    assert(keys.to_set().contains(k));
                    let j = choose|j: int| 0 <= j < keys.len() && keys[j] == k;
                    assert(self.service_routes@[j]@ == m[k]);
                    assert(vs[j] == v);
                }
            }
            assert(vs.to_set() =~= m.values());
        }
        r
    }

    /// Resolves one trip, records its assignment, and adds it to the snapshot.
    fn record_trip(
        &mut self,
        group: &[StopTimeDetail],
        assignments: &mut Vec<Trip2ServiceRoute>,
        rows: &mut Vec<ServiceRouteIdentity>,
    )
        requires
            old(self).wf(),
            group@.len() > 0,
            old(self).state().last_id < i32::MAX,
        ensures
            final(self).wf(),
            final(self).strategy() == old(self).strategy(),
            ({
                let (st, res) = generate_step(old(self).strategy(), old(self).state(), group@);
                let p = res->Some_0;
                let sids = comma_joined(stop_ids_of(group@));
                let snames = comma_joined(stop_names_of(group@));
                let t = group@[0].trip_id@;
                &&& res is Some
                &&& final(self).state() == st
                &&& final(assignments)@.len() == old(assignments)@.len() + 1
                &&& final(assignments)@.drop_last() == old(assignments)@
                &&& assigns(final(assignments)@.last(), group@, p)
                &&& final(rows)@.len() == old(rows)@.len() ==> exists|i: int|
                    0 <= i < old(rows)@.len() && #[trigger] row_holds(old(rows)@[i], p, sids, snames)
                        && same_record(final(rows)@[i], old(rows)@[i]) && final(rows)@[i].trip_ids@
                        == old(rows)@[i].trip_ids@ + seq![','] + t && final(rows)@ == old(rows)@.update(
                        i,
                        final(rows)@[i],
                    )
                &&& final(rows)@.len() != old(rows)@.len() ==> {
                    &&& final(rows)@.len() == old(rows)@.len() + 1
                    &&& final(rows)@.drop_last() == old(rows)@
                    &&& row_holds(final(rows)@.last(), p, sids, snames)
                    &&& final(rows)@.last().trip_ids@ == t
                    &&& forall|r: int|
                        0 <= r < old(rows)@.len() ==> !row_holds(#[trigger] old(rows)@[r], p, sids, snames)
                }
            }),
    {
        let ghost strategy = self.strategy();
        let ghost st0 = self.state();
        let res = self.generate(group);
        match res {
            Ok(route) => {
                let trip_id = &group[0].trip_id;
                assignments.push(
                    Trip2ServiceRoute {
                        trip_id: trip_id.clone(),
                        service_route_id: route.service_route_id,
                        service_route_direction_id: route.direction_id,
                    },
                );
                proof {
                    assert(assignments@.drop_last() =~= old(assignments)@);
                }
                let stop_ids = join_with_commas(&collect_stop_ids(group));
                let stop_names = join_with_commas(&collect_stop_names(group));
                let ghost before = rows@;
                add_to_snapshot(rows, trip_id, &route, stop_ids, stop_names);
            },
            Err(_) => {},
        }
    }

    /// Resolves every trip of `stop_time_details` (visits sorted by trip id,
    /// then by stop sequence) in order, one trip per run of equal trip ids.
    /// Returns each trip's assignment, in trip order, and a snapshot of the
    /// run: one row per service route and stop sequence, with the trip ids that
    /// took it.
    pub fn identify_trips(&mut self, stop_time_details: &[StopTimeDetail]) -> (r: (
        Vec<Trip2ServiceRoute>,
        Vec<ServiceRouteIdentity>,
    ))
        requires
            old(self).wf(),
            old(self).state().last_id + stop_time_details@.len() <= i32::MAX,
        ensures
            final(self).wf(),
            final(self).strategy() == old(self).strategy(),
            ({
                let groups = trip_groups(stop_time_details@);
                let (st, res) = generate_steps(old(self).strategy(), old(self).state(), groups);
                &&& res is Some
                &&& final(self).state() == st
                &&& r.0@.len() == groups.len()
                &&& forall|i: int|
                    0 <= i < groups.len() ==> assigns(#[trigger] r.0@[i], groups[i], res->Some_0[i])
                &&& snapshot_of(r.1@, groups, res->Some_0)
            }),
    {
        let ghost strategy = self.strategy();
        let ghost st0 = self.state();
        let ghost v = stop_time_details@;
        let n = stop_time_details.len();
        let mut assignments: Vec<Trip2ServiceRoute> = Vec::new();
        let mut rows: Vec<ServiceRouteIdentity> = Vec::new();
        let mut start: usize = 0;
        let mut i: usize = 0;
        proof {
            lemma_trip_groups_len(v.take(0));
            assert(v.take(0) =~= seq![]);
        }
        while i < n
            invariant
                n == v.len(),
                v == stop_time_details@,
                st0.last_id + n <= i32::MAX,
                start <= i <= n,
                i == 0 || start < i,
                forall|j: int| start <= j < i ==> v[j].trip_id@ == v[start as int].trip_id@,
                start < i ==> trip_groups(v.take(i as int)) == trip_groups(v.take(start as int)).push(
                    v.subrange(start as int, i as int),
                ),
                trip_groups(v.take(start as int)).len() <= start,
                self.wf(),
                self.strategy() == strategy,
                ({
                    let closed = trip_groups(v.take(start as int));
                    let (st, res) = generate_steps(strategy, st0, closed);
                    &&& res is Some
                    &&& self.state() == st
                    &&& st.last_id <= st0.last_id + closed.len()
                    &&& assignments@.len() == closed.len()
                    &&& forall|l: int|
                        0 <= l < closed.len() ==> assigns(#[trigger] assignments@[l], closed[l], res->Some_0[l])
                    &&& snapshot_of(rows@, closed, res->Some_0)
                }),
            decreases n - i,
        {
            if i > start && stop_time_details[i].trip_id != stop_time_details[start].trip_id {
                let group = slice_subrange(stop_time_details, start, i);
                proof {
                    let closed = trip_groups(v.take(start as int));
                    assert(generate_steps(strategy, st0, closed).0 == self.state());
                    assert(self.state().last_id <= st0.last_id + closed.len());
                }
                let ghost a0 = assignments@;
                let ghost r0 = rows@;
                self.record_trip(group, &mut assignments, &mut rows);
                proof {
                    lemma_record_keeps_export(strategy, st0, trip_groups(v.take(start as int)), group@, a0, assignments@, r0, rows@);
                    lemma_trip_groups_len(v.take(i as int));
                }
                start = i;
            }
            proof {
                lemma_trip_groups_step(v, start as int, i as int);
            }
            i = i + 1;
        }
        if start < n {
            let group = slice_subrange(stop_time_details, start, n);
            proof {
                let closed = trip_groups(v.take(start as int));
                assert(generate_steps(strategy, st0, closed).0 == self.state());
                assert(self.state().last_id <= st0.last_id + closed.len());
            }
            let ghost a0 = assignments@;
            let ghost r0 = rows@;
            self.record_trip(group, &mut assignments, &mut rows);
            proof {
                lemma_record_keeps_export(strategy, st0, trip_groups(v.take(start as int)), group@, a0, assignments@, r0, rows@);
            }
        }
        proof {
            assert(v.take(n as int) =~= v);
        }
        (assignments, rows)
    }

}

impl Table for ServiceRoute {
    fn table_name() -> &'static str {
        "service_routes"
    }

    fn column_names() -> &'static [&'static str] {
        &["service_route_id", "service_route_name", "direction_id"]
    }

    fn create_sql() -> &'static str {
        "
        service_route_id int,
        service_route_name text,
        direction_id int,
        PRIMARY KEY(service_route_id, direction_id)
        "
    }
}

} // verus!
