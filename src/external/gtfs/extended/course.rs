//! Courses: trips collapsed under one of five identity strategies.
use vstd::prelude::*;
use vstd::slice::slice_subrange;

use crate::external::gtfs::extended::errors::IdentifyError;
use crate::external::gtfs::extended::stop_time_details::{
    collect_stop_ids, collect_stop_names, lemma_trip_groups_boundary, lemma_trip_groups_len,
    lemma_trip_groups_step, pattern_name, pattern_name_of, stop_ids_of, stop_names_of, trip_groups,
    StopTimeDetail,
};
use crate::external::gtfs::extended::trips2courses::Trip2Course;
use crate::joined::{
    one_per_key, comma_joined, join_with_commas, lemma_views_push, position_of, same_text, views_of,
};
use crate::external::gtfsdb::Table;

verus! {

/// Course id (ex: 1).
pub type CourseId = i32;

/// A course: one recurring trip identity.
#[derive(Debug, Clone, PartialEq, Eq, Hash)]
pub struct Course {
    /// Course id.
    pub course_id: CourseId,
    /// Course name.
    pub course_name: String,
}

/// A course as a mathematical value.
pub ghost struct CourseView {
    pub id: int,
    pub name: Seq<char>,
}

impl View for Course {
    type V = CourseView;

    open spec fn view(&self) -> CourseView {
        CourseView { id: self.course_id as int, name: self.course_name@ }
    }
}

fn copy_course(c: &Course) -> (r: Course)
    ensures
        r == *c,
{
    Course { course_id: c.course_id, course_name: c.course_name.clone() }
}

/// How the identity of a trip is computed for courses.
#[derive(Debug, Clone, Copy, PartialEq, Eq, Structural, Hash)]
pub enum IdentifyStrategy {
    /// The trip's stop ids, in order.
    StopIds,
    /// The trip's stop names, in order.
    StopNames,
    /// The route id of the first visit.
    RouteId,
    /// The short route name of the first visit.
    RouteShortName,
    /// The long route name of the first visit.
    RouteLongName,
}

/// The name of a strategy on the command line: its variant in snake case.
pub open spec fn strategy_name(s: IdentifyStrategy) -> Seq<char> {
    match s {
        IdentifyStrategy::StopIds => "stop_ids"@,
        IdentifyStrategy::StopNames => "stop_names"@,
        IdentifyStrategy::RouteId => "route_id"@,
        IdentifyStrategy::RouteShortName => "route_short_name"@,
        IdentifyStrategy::RouteLongName => "route_long_name"@,
    }
}

impl IdentifyStrategy {
    /// The names of all strategies.
    pub const VARIANTS: [&'static str; 5] = ["stop_ids", "stop_names", "route_id", "route_short_name", "route_long_name"];

    /// The strategy's name.
    pub fn name(&self) -> (r: &'static str)
        ensures
            r@ == strategy_name(*self),
    {
        proof {
            reveal_strlit("stop_ids");
            reveal_strlit("stop_names");
            reveal_strlit("route_id");
            reveal_strlit("route_short_name");
            reveal_strlit("route_long_name");
        }
        match self {
            IdentifyStrategy::StopIds => "stop_ids",
            IdentifyStrategy::StopNames => "stop_names",
            IdentifyStrategy::RouteId => "route_id",
            IdentifyStrategy::RouteShortName => "route_short_name",
            IdentifyStrategy::RouteLongName => "route_long_name",
        }
    }

    /// The strategy with the name `s`, if any.
    pub fn from_name(s: &str) -> (r: Option<IdentifyStrategy>)
        ensures
            match r {
                Some(x) => strategy_name(x) == s@,
                None => forall|x: IdentifyStrategy| strategy_name(x) != s@,
            },
    {
        proof {
            reveal_strlit("stop_ids");
            reveal_strlit("stop_names");
            reveal_strlit("route_id");
            reveal_strlit("route_short_name");
            reveal_strlit("route_long_name");
        }
        if same_text(s, "stop_ids") {
            Some(IdentifyStrategy::StopIds)
        } else if same_text(s, "stop_names") {
            Some(IdentifyStrategy::StopNames)
        } else if same_text(s, "route_id") {
            Some(IdentifyStrategy::RouteId)
        } else if same_text(s, "route_short_name") {
            Some(IdentifyStrategy::RouteShortName)
        } else if same_text(s, "route_long_name") {
            Some(IdentifyStrategy::RouteLongName)
        } else {
            None
        }
    }
}

/// The identity of a non-empty trip under `strategy`; `None` where the
/// strategy needs a route name that the first visit lacks.
pub open spec fn course_identifier(strategy: IdentifyStrategy, details: Seq<StopTimeDetail>) -> Option<
    Seq<char>,
> {
    match strategy {
        IdentifyStrategy::StopIds => Some(comma_joined(stop_ids_of(details))),
        IdentifyStrategy::StopNames => Some(comma_joined(stop_names_of(details))),
        IdentifyStrategy::RouteId => Some(details[0].route_id@),
        IdentifyStrategy::RouteShortName => match details[0].route_short_name {
            Some(n) => Some(n@),
            None => None,
        },
        IdentifyStrategy::RouteLongName => match details[0].route_long_name {
            Some(n) => Some(n@),
            None => None,
        },
    }
}

/// What a course generator knows: the last id handed out and the course of
/// each identity.
pub ghost struct CourseState {
    pub last_id: int,
    pub courses: Map<Seq<char>, CourseView>,
}

/// What `generate` does: the next state, and the course returned (`None`
/// where the trip has no visits or lacks the field its identity needs).
pub open spec fn course_step(strategy: IdentifyStrategy, st: CourseState, details: Seq<StopTimeDetail>) -> (
    CourseState,
    Option<CourseView>,
) {
    if details.len() == 0 {
        (st, None)
    } else {
        match course_identifier(strategy, details) {
            None => (st, None),
            Some(k) => if st.courses.contains_key(k) {
                (st, Some(st.courses[k]))
            } else {
                let c = CourseView { id: st.last_id + 1, name: pattern_name_of(details) };
                (CourseState { last_id: st.last_id + 1, courses: st.courses.insert(k, c) }, Some(c))
            },
        }
    }
}

/// Resolving the same trip twice gives the same course both times, and the
/// second time leaves the state as it was.
pub proof fn lemma_course_generate_idempotent(
    strategy: IdentifyStrategy,
    st: CourseState,
    details: Seq<StopTimeDetail>,
)
    ensures
        ({
            let (s1, r1) = course_step(strategy, st, details);
            let (s2, r2) = course_step(strategy, s1, details);
            r2 == r1 && s2 == s1
        }),
{
}

/// Resolving trips one after another: the final state, and the course of
/// each trip (`None` where some trip failed, which stops the pass).
pub open spec fn course_steps(strategy: IdentifyStrategy, st: CourseState, groups: Seq<Seq<StopTimeDetail>>) -> (
    CourseState,
    Option<Seq<CourseView>>,
)
    decreases groups.len(),
{
    if groups.len() == 0 {
        (st, Some(seq![]))
    } else {
        let (s1, r1) = course_steps(strategy, st, groups.drop_last());
        match r1 {
            None => (s1, None),
            Some(cs) => {
                let (s2, r2) = course_step(strategy, s1, groups.last());
                match r2 {
                    None => (s2, None),
                    Some(c) => (s2, Some(cs.push(c))),
                }
            },
        }
    }
}

/// A pass whose first trips already fail fails as a whole.
proof fn lemma_course_steps_prefix(
    strategy: IdentifyStrategy,
    st: CourseState,
    groups: Seq<Seq<StopTimeDetail>>,
    n: int,
)
    requires
        0 <= n <= groups.len(),
        course_steps(strategy, st, groups.take(n)).1 is None,
    ensures
        course_steps(strategy, st, groups).1 is None,
    decreases groups.len(),
{
    if n == groups.len() {
        assert(groups.take(n) =~= groups);
    } else {
        assert(groups.drop_last().take(n) =~= groups.take(n));
        lemma_course_steps_prefix(strategy, st, groups.drop_last(), n);
    }
}

/// A pass that resolved every trip gave one course per trip.
proof fn lemma_course_steps_len(strategy: IdentifyStrategy, st: CourseState, groups: Seq<Seq<StopTimeDetail>>)
    ensures
        course_steps(strategy, st, groups).1 is Some ==> course_steps(strategy, st, groups).1->Some_0.len()
            == groups.len(),
    decreases groups.len(),
{
    if groups.len() > 0 {
        lemma_course_steps_len(strategy, st, groups.drop_last());
    }
}

/// `a` assigns the trip `details` to the course `course`.
pub open spec fn assigns_course(a: Trip2Course, details: Seq<StopTimeDetail>, course: CourseView) -> bool {
    &&& a.trip_id@ == details[0].trip_id@
    &&& a.course_id as int == course.id
}

/// The state of a new course generator.
pub open spec fn initial_course_state() -> CourseState {
    CourseState { last_id: 0, courses: Map::empty() }
}

/// Resolves trips to courses, allocating a new id for each new identity.
pub struct CourseGenerator {
    current_id: CourseId,
    identifiers: Vec<String>,
    courses: Vec<Course>,
    course_by_identify: Ghost<Map<Seq<char>, CourseView>>,
    identify_strategy: IdentifyStrategy,
}

impl CourseGenerator {
    /// The last id handed out, and the course of each identity.
    pub closed spec fn state(&self) -> CourseState {
        CourseState { last_id: self.current_id as int, courses: self.course_by_identify@ }
    }

    /// The strategy chosen at construction.
    pub closed spec fn strategy(&self) -> IdentifyStrategy {
        self.identify_strategy
    }

    /// The identities are distinct, and each is stored with its course.
    pub closed spec fn wf(&self) -> bool {
        let keys = views_of(self.identifiers@);
        &&& self.current_id >= 0
        &&& forall|i: int| 0 <= i < self.courses@.len() ==> (#[trigger] self.courses@[i]).course_id >= 1
        &&& self.identifiers@.len() == self.courses@.len()
        &&& keys.no_duplicates()
        &&& self.course_by_identify@.dom() == keys.to_set()
        &&& forall|i: int|
            0 <= i < keys.len() ==> self.course_by_identify@[keys[i]] == #[trigger] self.courses@[i]@
    }

    /// An empty generator for `strategy`, starting at id 0.
    pub fn new(strategy: &IdentifyStrategy) -> (r: Self)
        ensures
            r.wf(),
            r.strategy() == *strategy,
            r.state() == initial_course_state(),
    {
        let r = CourseGenerator {
            current_id: 0,
            identifiers: Vec::new(),
            courses: Vec::new(),
            course_by_identify: Ghost(Map::empty()),
            identify_strategy: *strategy,
        };
        proof {
            assert(views_of(r.identifiers@).to_set() =~= Set::empty());
        }
        r
    }

    /// The identity of a trip under this generator's strategy.
    fn to_identify(&self, stop_time_details: &[StopTimeDetail]) -> (r: Result<String, IdentifyError>)
        ensures
            match r {
                Ok(k) => stop_time_details@.len() > 0 && course_identifier(
                    self.strategy(),
                    stop_time_details@,
                ) == Some(k@),
                Err(IdentifyError::EmptyTripGroup) => stop_time_details@.len() == 0,
                Err(IdentifyError::MissingRequiredField { strategy, trip_id }) => {
                    &&& stop_time_details@.len() > 0
                    &&& course_identifier(self.strategy(), stop_time_details@) is None
                    &&& strategy == self.strategy()
                    &&& trip_id@ == stop_time_details@[0].trip_id@
                },
            },
    {
        if stop_time_details.len() == 0 {
            return Err(IdentifyError::EmptyTripGroup);
        }
        let first_stop = &stop_time_details[0];
        match self.identify_strategy {
            IdentifyStrategy::StopIds => Ok(join_with_commas(&collect_stop_ids(stop_time_details))),
            IdentifyStrategy::StopNames => Ok(join_with_commas(&collect_stop_names(stop_time_details))),
            IdentifyStrategy::RouteId => Ok(first_stop.route_id.clone()),
            IdentifyStrategy::RouteShortName => match &first_stop.route_short_name {
                Some(n) => Ok(n.clone()),
                None => Err(
                    IdentifyError::MissingRequiredField {
                        strategy: self.identify_strategy,
                        trip_id: first_stop.trip_id.clone(),
                    },
                ),
            },
            IdentifyStrategy::RouteLongName => match &first_stop.route_long_name {
                Some(n) => Ok(n.clone()),
                None => Err(
                    IdentifyError::MissingRequiredField {
                        strategy: self.identify_strategy,
                        trip_id: first_stop.trip_id.clone(),
                    },
                ),
            },
        }
    }

    /// Resolves one trip (its visits in sequence order) to its course. A known
    /// identity gives the stored course and changes nothing; a new one gets the
    /// next id and the name `{route}({first stop}~{last stop})`. Fails, with
    /// nothing changed, on a trip without visits and on one whose first visit
    /// lacks the route name that the strategy needs.
    pub fn generate(&mut self, stop_time_details: &[StopTimeDetail]) -> (r: Result<Course, IdentifyError>)
        requires
            old(self).wf(),
            stop_time_details@.len() > 0 && course_identifier(old(self).strategy(), stop_time_details@) is Some
                && !old(self).state().courses.contains_key(
                course_identifier(old(self).strategy(), stop_time_details@)->Some_0,
            ) ==> old(self).state().last_id < i32::MAX,
        ensures
            r matches Ok(c) ==> c.course_id >= 1,
            final(self).wf(),
            final(self).strategy() == old(self).strategy(),
            ({
                let (st, res) = course_step(old(self).strategy(), old(self).state(), stop_time_details@);
                &&& final(self).state() == st
                &&& match r {
                    Ok(c) => res == Some(c@),
                    Err(IdentifyError::EmptyTripGroup) => stop_time_details@.len() == 0,
                    Err(IdentifyError::MissingRequiredField { strategy, trip_id }) => {
                        &&& stop_time_details@.len() > 0
                        &&& course_identifier(old(self).strategy(), stop_time_details@) is None
                        &&& strategy == old(self).strategy()
                        &&& trip_id@ == stop_time_details@[0].trip_id@
                    },
                }
            }),
    {
        let identify = match self.to_identify(stop_time_details) {
            Ok(k) => k,
            Err(e) => {
                return Err(e);
            },
        };
        let ghost keys = views_of(self.identifiers@);
        match position_of(&self.identifiers, &identify) {
            Some(i) => {
                proof {
                    assert(keys[i as int] == identify@);
                    assert(keys.to_set().contains(identify@));
                }
                Ok(copy_course(&self.courses[i]))
            },
            None => {
                proof {
                    assert(!keys.to_set().contains(identify@));
                }
                let course = Course {
                    course_id: self.current_id + 1,
                    course_name: pattern_name(stop_time_details),
                };
                self.current_id = self.current_id + 1;
                let result = copy_course(&course);
                let ghost old_map = self.course_by_identify@;
                let ghost k = identify@;
                let ghost cv = course@;
                proof {
                    lemma_views_push(self.identifiers@, identify);
                }
                self.identifiers.push(identify);
                self.courses.push(course);
                self.course_by_identify = Ghost(old_map.insert(k, cv));
                proof {
                    let nkeys = views_of(self.identifiers@);
                    assert(nkeys == keys.push(k));
                    assert forall|x: Seq<char>| #[trigger] nkeys.to_set().contains(x)
                        == keys.to_set().insert(k).contains(x) by {
                        if nkeys.contains(x) {
                            let j = choose|j: int| 0 <= j < nkeys.len() && nkeys[j] == x;
                            if j < keys.len() {
                                assert(keys[j] == x);
                            }
                        }
                        if keys.contains(x) {
                            let j = choose|j: int| 0 <= j < keys.len() && keys[j] == x;
                            assert(nkeys[j] == x);
                        }
                        if x == k {
                            assert(nkeys[keys.len() as int] == k);
                        }
                    }
                    assert(self.course_by_identify@.dom() =~= nkeys.to_set());
                    assert forall|a: int, b: int|
                        0 <= a < nkeys.len() && 0 <= b < nkeys.len() && a != b implies nkeys[a]
                        != nkeys[b] by {
                        if a < keys.len() && b < keys.len() {
                        } else if a < keys.len() {
                            assert(keys.contains(nkeys[a]));
                        } else {
                            assert(keys.contains(nkeys[b]));
                        }
                    }
                    assert forall|j: int| 0 <= j < nkeys.len() implies self.course_by_identify@[nkeys[j]]
                        == #[trigger] self.courses@[j]@ by {
                        if j < keys.len() {
                            assert(keys.contains(keys[j]));
                            assert(keys[j] != k);
                        }
                    }
                }
                Ok(result)
            },
        }
    }

    /// Resolves one trip and records its assignment.
    fn record_trip(&mut self, group: &[StopTimeDetail], assignments: &mut Vec<Trip2Course>) -> (r: Result<(), IdentifyError>)
        requires
            old(self).wf(),
            group@.len() > 0,
            old(self).state().last_id < i32::MAX,
        ensures
            final(self).wf(),
            final(self).strategy() == old(self).strategy(),
            ({
                let (st, res) = course_step(old(self).strategy(), old(self).state(), group@);
                &&& final(self).state() == st
                &&& r is Ok <==> res is Some
                &&& res is Some ==> {
                    &&& final(assignments)@.len() == old(assignments)@.len() + 1
                    &&& final(assignments)@.drop_last() == old(assignments)@
                    &&& assigns_course(final(assignments)@.last(), group@, res->Some_0)
                }
                &&& r matches Err(e) ==> e matches IdentifyError::MissingRequiredField { .. }
            }),
    {
        match self.generate(group) {
            Ok(course) => {
                assignments.push(
                    Trip2Course { trip_id: group[0].trip_id.clone(), course_id: course.course_id },
                );
                proof {
                    assert(assignments@.drop_last() =~= old(assignments)@);
                }
                Ok(())
            },
            Err(e) => Err(e),
        }
    }

    /// Resolves every trip of `stop_time_details` (visits sorted by trip id,
    /// then by stop sequence) in order, one trip per run of equal trip ids, and
    /// returns each trip's assignment in trip order. Stops at the first trip
    /// that lacks the field its identity needs, and fails then.
    pub fn identify_trips(&mut self, stop_time_details: &[StopTimeDetail]) -> (r: Result<
        Vec<Trip2Course>,
        IdentifyError,
    >)
        requires
            old(self).wf(),
            old(self).state().last_id + stop_time_details@.len() <= i32::MAX,
        ensures
            final(self).wf(),
            final(self).strategy() == old(self).strategy(),
            ({
                let groups = trip_groups(stop_time_details@);
                let (st, res) = course_steps(old(self).strategy(), old(self).state(), groups);
                match r {
                    Ok(a) => {
                        &&& res is Some
                        &&& final(self).state() == st
                        &&& a@.len() == groups.len()
                        &&& forall|i: int|
                            0 <= i < groups.len() ==> assigns_course(#[trigger] a@[i], groups[i], res->Some_0[i])
                    },
                    Err(e) => res is None && e matches IdentifyError::MissingRequiredField { .. },
                }
            }),
    {
        let ghost strategy = self.strategy();
        let ghost st0 = self.state();
        let ghost v = stop_time_details@;
        let n = stop_time_details.len();
        let mut assignments: Vec<Trip2Course> = Vec::new();
        let mut start: usize = 0;
        let mut i: usize = 0;
        proof {
            lemma_trip_groups_len(v.take(0));
            assert(v.take(0) =~= seq![]);
        }
        while i < n
            invariant
                n == v.len(),
                v == stop_time_details@,
                strategy == old(self).strategy(),
                st0 == old(self).state(),
                st0.last_id + n <= i32::MAX,
                start <= i <= n,
                i == 0 || start < i,
                forall|j: int| start <= j < i ==> v[j].trip_id@ == v[start as int].trip_id@,
                start < i ==> trip_groups(v.take(i as int)) == trip_groups(v.take(start as int)).push(
                    v.subrange(start as int, i as int),
                ),
                trip_groups(v.take(start as int)).len() <= start,
                self.wf(),
                self.strategy() == strategy,
                ({
                    let closed = trip_groups(v.take(start as int));
                    let (st, res) = course_steps(strategy, st0, closed);
                    &&& res is Some
                    &&& self.state() == st
                    &&& st.last_id <= st0.last_id + closed.len()
                    &&& assignments@.len() == closed.len()
                    &&& forall|l: int|
                        0 <= l < closed.len() ==> assigns_course(#[trigger] assignments@[l], closed[l], res->Some_0[l])
                }),
            decreases n - i,
        {
            if i > start && stop_time_details[i].trip_id != stop_time_details[start].trip_id {
                let group = slice_subrange(stop_time_details, start, i);
                let ghost closed = trip_groups(v.take(start as int));
                let ghost a0 = assignments@;
                proof {
                    assert(course_steps(strategy, st0, closed).0 == self.state());
                    assert(closed.push(group@).drop_last() =~= closed);
                }
                let step = self.record_trip(group, &mut assignments);
                proof {
                    lemma_trip_groups_len(v.take(i as int));
                    assert(group@ == v.subrange(start as int, i as int));
                }
                match step {
                    Ok(()) => {},
                    Err(e) => {
                        proof {
                            lemma_trip_groups_boundary(v, i as int);
                            assert(trip_groups(v.take(i as int)) == closed.push(group@));
                            assert(v.take(v.len() as int) =~= v);
                            lemma_course_steps_prefix(strategy, st0, trip_groups(v), closed.len() + 1 as int);
                            assert(self.strategy() == strategy);
                        }
                        return Err(e);
                    },
                }
                proof {
                    let cs = course_steps(strategy, st0, closed).1->Some_0;
                    let c = course_step(strategy, course_steps(strategy, st0, closed).0, group@).1->Some_0;
                    lemma_course_steps_len(strategy, st0, closed);
                    assert(course_steps(strategy, st0, closed.push(group@)).1 == Some(cs.push(c)));
                    assert forall|l: int| 0 <= l < closed.len() + 1 implies assigns_course(
                        #[trigger] assignments@[l],
                        closed.push(group@)[l],
                        cs.push(c)[l],
                    ) by {
                        if l < closed.len() {
                            assert(assignments@[l] == a0[l]);
                            assert(closed.push(group@)[l] == closed[l]);
                            assert(cs.push(c)[l] == cs[l]);
                        }
                    }
                }
                start = i;
            }
            proof {
                lemma_trip_groups_step(v, start as int, i as int);
            }
            i = i + 1;
        }
        proof {
            assert(v.take(n as int) =~= v);
        }
        if start < n {
            let group = slice_subrange(stop_time_details, start, n);
            let ghost closed = trip_groups(v.take(start as int));
            let ghost a0 = assignments@;
            proof {
                assert(course_steps(strategy, st0, closed).0 == self.state());
                assert(closed.push(group@).drop_last() =~= closed);
                assert(group@ == v.subrange(start as int, n as int));
            }
            let step = self.record_trip(group, &mut assignments);
            match step {
                Ok(()) => {},
                Err(e) => {
                    return Err(e);
                },
            }
            proof {
                let cs = course_steps(strategy, st0, closed).1->Some_0;
                let c = course_step(strategy, course_steps(strategy, st0, closed).0, group@).1->Some_0;
                lemma_course_steps_len(strategy, st0, closed);
                assert(course_steps(strategy, st0, closed.push(group@)).1 == Some(cs.push(c)));
                assert forall|l: int| 0 <= l < closed.len() + 1 implies assigns_course(
                    #[trigger] assignments@[l],
                    closed.push(group@)[l],
                    cs.push(c)[l],
                ) by {
                    if l < closed.len() {
                        assert(assignments@[l] == a0[l]);
                        assert(closed.push(group@)[l] == closed[l]);
                        assert(cs.push(c)[l] == cs[l]);
                    }
                }
            }
        }
        Ok(assignments)
    }

    /// Every course known, one per identity, in no promised order.
    pub fn all(&mut self) -> (r: Vec<Course>)
        requires
            old(self).wf(),
        ensures
            *final(self) == *old(self),
            r@.len() == old(self).state().courses.dom().len(),
            one_per_key(r@.map_values(|c: Course| c@), old(self).state().courses),
            r@.map_values(|c: Course| c@).to_set() == old(self).state().courses.values(),
    {
        let mut r: Vec<Course> = Vec::new();
        let mut i: usize = 0;
        while i < self.courses.len()
            invariant
                i <= self.courses@.len(),
                r@.len() == i,
                forall|j: int| 0 <= j < i ==> r@[j] == self.courses@[j],
            decreases self.courses@.len() - i,
        {
            r.push(copy_course(&self.courses[i]));
            i = i + 1;
        }
        proof {
            let keys = views_of(self.identifiers@);
            let m = self.state().courses;
            let vs = r@.map_values(|c: Course| c@);
            keys.unique_seq_to_set();
            assert forall|v: CourseView| vs.to_set().contains(v) == m.values().contains(v) by {
                if vs.to_set().contains(v) {
                    let j = choose|j: int| 0 <= j < vs.len() && vs[j] == v;
                    assert(self.courses@[j]@ == m[keys[j]]);
                    assert(keys.to_set().contains(keys[j]));
                    assert(m.contains_key(keys[j]));
                }
                if m.values().contains(v) {
                    let k = choose|k: Seq<char>| m.contains_key(k) && m[k] == v;
                    assert(keys.to_set().contains(k));
                    let j = choose|j: int| 0 <= j < keys.len() && keys[j] == k;
                    assert(self.courses@[j]@ == m[k]);
                    assert(vs[j] == v);
                }
            }
            assert(vs.to_set() =~= m.values());
            assert(keys.to_set() == m.dom());
            assert forall|i: int| 0 <= i < keys.len() implies vs[i] == m[#[trigger] keys[i]] by {
                assert(self.courses@[i]@ == m[keys[i]]);
            }
        }
        r
    }
}

impl Table for Course {
    fn table_name() -> &'static str {
        "courses"
    }

    fn column_names() -> &'static [&'static str] {
        &["course_id", "course_name"]
    }

    fn create_sql() -> &'static str {
        "
        course_id int,
        course_name text,
        PRIMARY KEY(course_id, course_name)
        "
    }
}

} // verus!
