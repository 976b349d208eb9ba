//! A visit: one stop of one trip, joined with its stop and route facts.
use vstd::prelude::*;
use vstd::string::StringExecFns;

use crate::external::gtfs::{DirectionId, MicroDegree, Sequence};

verus! {

/// One stop of one trip, with the stop's and the route's facts joined in.
#[derive(Debug, Clone, PartialEq, Eq, Hash)]
pub struct StopTimeDetail {
    /// Trip id (ex: 1001_WD_001).
    pub trip_id: String,
    /// Position within the trip; unique within it.
    pub stop_sequence: Sequence,
    /// Stop or pole id.
    pub stop_id: String,
    /// Stop name.
    pub stop_name: String,
    /// Latitude.
    pub stop_lat: MicroDegree,
    /// Longitude.
    pub stop_lon: MicroDegree,
    /// Arrival time (ex: 7:00:00).
    pub arrival_time: String,
    /// Departure time (ex: 7:00:00).
    pub departure_time: String,
    /// Route id.
    pub route_id: String,
    /// Short route name (ex: 東16).
    pub route_short_name: Option<String>,
    /// Long route name.
    pub route_long_name: Option<String>,
    /// Direction of the trip, where the feed gives one.
    pub direction_id: Option<DirectionId>,
}

/// The name shown for a visit's route: the long name, else the short name,
/// else nothing.
pub open spec fn route_name_of(d: StopTimeDetail) -> Seq<char> {
    match d.route_long_name {
        Some(n) => n@,
        None => match d.route_short_name {
            Some(n) => n@,
            None => seq![],
        },
    }
}

/// The stop ids of the visits, in order.
pub open spec fn stop_ids_of(details: Seq<StopTimeDetail>) -> Seq<Seq<char>> {
    details.map_values(|d: StopTimeDetail| d.stop_id@)
}

/// The stop names of the visits, in order.
pub open spec fn stop_names_of(details: Seq<StopTimeDetail>) -> Seq<Seq<char>> {
    details.map_values(|d: StopTimeDetail| d.stop_name@)
}

/// The direction of a trip whose first visit is `d`: the one it gives, else
/// outbound.
pub open spec fn direction_of(d: StopTimeDetail) -> DirectionId {
    match d.direction_id {
        Some(x) => x,
        None => DirectionId::Outbound,
    }
}

impl StopTimeDetail {
    /// The route's display name: the long name, else the short name, else empty.
    pub fn route_name(&self) -> (r: String)
        ensures
            r@ == route_name_of(*self),
    {
        match &self.route_long_name {
            Some(n) => n.clone(),
            None => match &self.route_short_name {
                Some(n) => n.clone(),
                None => String::new(),
            },
        }
    }
}

/// The direction of a trip whose first visit is `d`, outbound by default.
pub fn direction_or_outbound(d: &StopTimeDetail) -> (r: DirectionId)
    ensures
        r == direction_of(*d),
{
    match d.direction_id {
        Some(x) => x,
        None => DirectionId::Outbound,
    }
}

/// The stop ids of the visits, in order.
pub fn collect_stop_ids(details: &[StopTimeDetail]) -> (r: Vec<String>)
    ensures
        crate::joined::views_of(r@) == stop_ids_of(details@),
{
    let mut r: Vec<String> = Vec::new();
    let mut i: usize = 0;
    while i < details.len()
        invariant
            i <= details@.len(),
            crate::joined::views_of(r@) =~= stop_ids_of(details@).take(i as int),
        decreases details@.len() - i,
    {
        let s = details[i].stop_id.clone();
        proof {
            crate::joined::lemma_views_push(r@, s);
        }
        r.push(s);
        i = i + 1;
        assert(crate::joined::views_of(r@) =~= stop_ids_of(details@).take(i as int));
    }
    assert(stop_ids_of(details@).take(i as int) =~= stop_ids_of(details@));
    r
}

/// The stop names of the visits, in order.
pub fn collect_stop_names(details: &[StopTimeDetail]) -> (r: Vec<String>)
    ensures
        crate::joined::views_of(r@) == stop_names_of(details@),
{
    let mut r: Vec<String> = Vec::new();
    let mut i: usize = 0;
    while i < details.len()
        invariant
            i <= details@.len(),
            crate::joined::views_of(r@) =~= stop_names_of(details@).take(i as int),
        decreases details@.len() - i,
    {
        let s = details[i].stop_name.clone();
        proof {
            crate::joined::lemma_views_push(r@, s);
        }
        r.push(s);
        i = i + 1;
        assert(crate::joined::views_of(r@) =~= stop_names_of(details@).take(i as int));
    }
    assert(stop_names_of(details@).take(i as int) =~= stop_names_of(details@));
    r
}

/// The name shown for a new pattern: `{route name}({first stop}~{last stop})`.
pub open spec fn pattern_name_of(details: Seq<StopTimeDetail>) -> Seq<char>
    recommends
        details.len() > 0,
{
    route_name_of(details[0]) + seq!['('] + details[0].stop_name@ + seq!['~']
        + details.last().stop_name@ + seq![')']
}

/// Builds the name shown for a new pattern from the trip's visits.
pub fn pattern_name(details: &[StopTimeDetail]) -> (r: String)
    requires
        details@.len() > 0,
    ensures
        r@ == pattern_name_of(details@),
{
    let first = &details[0];
    let last = &details[details.len() - 1];
    let r = first.route_name();
    let r = r.concat("(");
    let r = r.concat(first.stop_name.as_str());
    let r = r.concat("~");
    let r = r.concat(last.stop_name.as_str());
    let r = r.concat(")");
    proof {
        reveal_strlit("(");
        reveal_strlit("~");
        reveal_strlit(")");
    }
    r
}

/// Visits sorted by trip, cut into one group per run of equal trip ids.
pub open spec fn trip_groups(v: Seq<StopTimeDetail>) -> Seq<Seq<StopTimeDetail>>
    decreases v.len(),
{
    if v.len() == 0 {
        seq![]
    } else {
        let g = trip_groups(v.drop_last());
        if g.len() > 0 && g.last().last().trip_id@ == v.last().trip_id@ {
            g.update(g.len() - 1, g.last().push(v.last()))
        } else {
            g.push(seq![v.last()])
        }
    }
}

/// There are no more trip groups than visits; a non-empty list of visits has
/// a last group, non-empty, ending in the last visit.
pub proof fn lemma_trip_groups_len(v: Seq<StopTimeDetail>)
    ensures
        trip_groups(v).len() <= v.len(),
        v.len() > 0 ==> trip_groups(v).len() > 0 && trip_groups(v).last().len() > 0
            && trip_groups(v).last().last() == v.last(),
    decreases v.len(),
{
    if v.len() > 0 {
        lemma_trip_groups_len(v.drop_last());
    }
}

/// Adding visit `i` to the trip group open since `start`: the groups of the
/// first `i + 1` visits are the closed ones and the open one, extended.
pub proof fn lemma_trip_groups_step(v: Seq<StopTimeDetail>, start: int, i: int)
    requires
        0 <= start <= i < v.len(),
        forall|j: int| start <= j <= i ==> v[j].trip_id@ == v[start].trip_id@,
        start < i ==> trip_groups(v.take(i)) == trip_groups(v.take(start)).push(v.subrange(start, i)),
        start == i && i > 0 ==> v[i - 1].trip_id@ != v[i].trip_id@,
    ensures
        trip_groups(v.take(i + 1)) == trip_groups(v.take(start)).push(v.subrange(start, i + 1)),
{
    let w = v.take(i + 1);
    assert(w.drop_last() =~= v.take(i));
    assert(w.last() == v[i]);
    lemma_trip_groups_len(v.take(i));
    if start < i {
        let g = trip_groups(v.take(i));
        assert(g.last() == v.subrange(start, i));
        assert(g.last().last() == v[i - 1]);
        assert(g.last().push(v[i]) =~= v.subrange(start, i + 1));
        assert(g.update(g.len() - 1, g.last().push(v[i])) =~= trip_groups(v.take(start)).push(
            v.subrange(start, i + 1),
        ));
    } else if i > 0 {
        assert(v.take(i).last() == v[i - 1]);
        assert(seq![v[i]] =~= v.subrange(start, i + 1));
    } else {
        assert(v.take(0) =~= seq![]);
        assert(seq![v[i]] =~= v.subrange(start, i + 1));
    }
}

/// Reading more visits only extends the trip groups: all groups but the last
/// one of a shorter prefix stay as they are.
pub proof fn lemma_trip_groups_extends(v: Seq<StopTimeDetail>, m: int, n: int)
    requires
        0 <= m <= n <= v.len(),
    ensures
        trip_groups(v.take(m)).len() <= trip_groups(v.take(n)).len(),
        trip_groups(v.take(m)).len() > 0 ==> trip_groups(v.take(n)).take(
            trip_groups(v.take(m)).len() - 1,
        ) == trip_groups(v.take(m)).drop_last(),
    decreases n - m,
{
    let a = trip_groups(v.take(m));
    if n == m {
        if a.len() > 0 {
            assert(a.take(a.len() - 1) =~= a.drop_last());
        }
    } else {
        lemma_trip_groups_extends(v, m, n - 1);
        let b = trip_groups(v.take(n - 1));
        let w = v.take(n);
        assert(w.drop_last() =~= v.take(n - 1));
        let c = trip_groups(w);
        if a.len() > 0 {
            assert(c.take(a.len() - 1) =~= b.take(a.len() - 1));
        }
    }
}

/// Where the trip changes before visit `i`, the groups of the first `i`
/// visits are the first groups of all visits.
pub proof fn lemma_trip_groups_boundary(v: Seq<StopTimeDetail>, i: int)
    requires
        0 < i < v.len(),
        v[i - 1].trip_id@ != v[i].trip_id@,
    ensures
        trip_groups(v.take(i)).len() < trip_groups(v).len(),
        trip_groups(v).take(trip_groups(v.take(i)).len() as int) == trip_groups(v.take(i)),
{
    let w = v.take(i + 1);
    assert(w.drop_last() =~= v.take(i));
    assert(w.last() == v[i]);
    lemma_trip_groups_len(v.take(i));
    assert(v.take(i).last() == v[i - 1]);
    assert(trip_groups(w) == trip_groups(v.take(i)).push(seq![v[i]]));
    lemma_trip_groups_extends(v, i + 1, v.len() as int);
    assert(v.take(v.len() as int) =~= v);
    assert(trip_groups(w).drop_last() =~= trip_groups(v.take(i)));
}

} // verus!
