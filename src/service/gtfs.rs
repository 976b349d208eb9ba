//! Copying a feed from its CSV files into the database, and deriving the
//! service routes of its trips.
use std::hash::Hash;

use itertools::Itertools;
use vstd::prelude::*;

use crate::external::gtfs::extended::course::{
    self, assigns_course, course_steps, initial_course_state, Course, CourseGenerator,
};
use crate::external::gtfs::extended::errors::IdentifyError;
use crate::external::gtfs::extended::service_route_identity::ServiceRouteIdentity;
use crate::external::gtfs::extended::service_routes::{
    assigns, bootstrap_state, copy_route, generate_steps, initial_state, snapshot_of, valid_snapshot,
    GeneratorState, IdentifyStrategy, ServiceRoute, ServiceRouteGenerator,
};
use crate::external::gtfs::extended::stop_time_details::{trip_groups, StopTimeDetail};
use crate::external::gtfs::extended::trips2courses::Trip2Course;
use crate::external::gtfs::extended::trips2service_routes::Trip2ServiceRoute;
use crate::external::gtfs::translations::Translation;
use crate::external::gtfs::{GtfsCsvTrait, GtfsDbTrait, StoreError};
use crate::joined::one_per_key;

verus! {

/// Relies on itertools' `Itertools::unique`: it yields, in order, a clone of
/// each item not equal to one yielded before, so there are no more items than
/// before and each is a clone of an input.
#[verifier::external_body]
fn unique_records<T: Clone + Eq + Hash>(records: Vec<T>) -> (r: Vec<T>)
    ensures
        r@.len() <= records@.len(),
        forall|i: int|
            0 <= i < r@.len() ==> exists|j: int|
                0 <= j < records@.len() && cloned(records@[j], #[trigger] r@[i]),
{
    records.into_iter().unique().collect()
}

/// Why a pass over the database failed.
#[derive(Debug, Clone, PartialEq, Eq)]
pub enum ServiceError {
    /// The store could not be read or written.
    Store(StoreError),
    /// A trip could not be resolved.
    Identify(IdentifyError),
}

/// Where a service-route pass starts: from a snapshot's state, or empty.
pub open spec fn start_state(strategy: IdentifyStrategy, identities: Option<&Vec<ServiceRouteIdentity>>) -> GeneratorState {
    match identities {
        Some(rows) => bootstrap_state(strategy, rows@),
        None => initial_state(),
    }
}

/// The rows a service-route pass over `visits` from `start` yields: its
/// service routes (one per identity, in some order), each trip's assignment
/// in trip order, and its snapshot.
pub open spec fn service_route_tables_of(
    strategy: IdentifyStrategy,
    start: GeneratorState,
    visits: Seq<StopTimeDetail>,
    routes: Seq<ServiceRoute>,
    assignments: Seq<Trip2ServiceRoute>,
    snapshot: Seq<ServiceRouteIdentity>,
) -> bool {
    let groups = trip_groups(visits);
    let (st, res) = generate_steps(strategy, start, groups);
    &&& res is Some
    &&& one_per_key(routes.map_values(|x: ServiceRoute| x@), st.routes)
    &&& assignments.len() == groups.len()
    &&& forall|i: int|
        0 <= i < groups.len() ==> assigns(#[trigger] assignments[i], groups[i], res->Some_0[i])
    &&& snapshot_of(snapshot, groups, res->Some_0)
}

/// The rows a course pass over `visits` yields: its courses (one per
/// identity, in some order) and each trip's assignment in trip order.
pub open spec fn course_tables_of(
    strategy: course::IdentifyStrategy,
    visits: Seq<StopTimeDetail>,
    courses: Seq<Course>,
    assignments: Seq<Trip2Course>,
) -> bool {
    let groups = trip_groups(visits);
    let (st, res) = course_steps(strategy, initial_course_state(), groups);
    &&& res is Some
    &&& one_per_key(courses.map_values(|c: Course| c@), st.courses)
    &&& assignments.len() == groups.len()
    &&& forall|i: int|
        0 <= i < groups.len() ==> assigns_course(#[trigger] assignments[i], groups[i], res->Some_0[i])
}

/// Runs a service-route pass over `visits` (sorted by trip id, then by stop
/// sequence) and returns the rows to store and the snapshot. Fails exactly
/// when the ids could run past the largest `i32`.
pub fn service_route_tables(
    strategy: &IdentifyStrategy,
    identities: Option<&Vec<ServiceRouteIdentity>>,
    visits: &[StopTimeDetail],
) -> (r: Result<(Vec<ServiceRoute>, Vec<Trip2ServiceRoute>, Vec<ServiceRouteIdentity>), StoreError>)
    requires
        identities matches Some(rows) ==> valid_snapshot(rows@),
    ensures
        r is Err <==> start_state(*strategy, identities).last_id + visits@.len() > i32::MAX,
        r matches Ok(t) ==> service_route_tables_of(
            *strategy,
            start_state(*strategy, identities),
            visits@,
            t.0@,
            t.1@,
            t.2@,
        ),
{
    let mut generator = ServiceRouteGenerator::new(strategy, identities);
    let last_id = generator.last_id();
    let room: i64 = i32::MAX as i64 - last_id as i64;
    if visits.len() as u64 > room as u64 {
        return Err(StoreError { message: "too many visits to number their service routes".to_owned() });
    }
    let (assignments, snapshot) = generator.identify_trips(visits);
    let all = generator.all();
    let mut routes: Vec<ServiceRoute> = Vec::new();
    let mut i: usize = 0;
    while i < all.len()
        invariant
            i <= all@.len(),
            routes@.len() == i,
            forall|j: int| 0 <= j < i ==> routes@[j] == *all@[j],
        decreases all@.len() - i,
    {
        routes.push(copy_route(all[i]));
        i = i + 1;
    }
    proof {
        assert(routes@.map_values(|x: ServiceRoute| x@) =~= all@.map_values(|x: &ServiceRoute| x@));
    }
    Ok((routes, assignments, snapshot))
}

/// Runs a course pass over `visits` (sorted by trip id, then by stop
/// sequence) and returns the rows to store. Fails when there are more visits
/// than ids, and when some trip lacks the field its identity needs.
pub fn course_tables(strategy: &course::IdentifyStrategy, visits: &[StopTimeDetail]) -> (r: Result<
    (Vec<Course>, Vec<Trip2Course>),
    ServiceError,
>)
    ensures
        visits@.len() > i32::MAX ==> r matches Err(ServiceError::Store(_)),
        visits@.len() <= i32::MAX ==> match r {
            Ok(t) => course_tables_of(*strategy, visits@, t.0@, t.1@),
            Err(ServiceError::Identify(e)) => {
                &&& course_steps(*strategy, initial_course_state(), trip_groups(visits@)).1 is None
                &&& e matches IdentifyError::MissingRequiredField { .. }
            },
            Err(ServiceError::Store(_)) => false,
        },
{
    if visits.len() as u64 > i32::MAX as u64 {
        return Err(ServiceError::Store(StoreError { message: "too many visits to number their courses".to_owned() }));
    }
    let mut generator = CourseGenerator::new(strategy);
    let assignments = match generator.identify_trips(visits) {
        Ok(a) => a,
        Err(e) => {
            return Err(ServiceError::Identify(e));
        },
    };
    let courses = generator.all();
    Ok((courses, assignments))
}

/// Works across the feed's CSV files and the database. It keeps, as ghost
/// state, the visits it last read and the derived rows that the database
/// accepted from it, in order.
pub struct GtfsService<CSV: GtfsCsvTrait, DB: GtfsDbTrait> {
    gtfs_csv: CSV,
    gtfs_db: DB,
    visits_read: Ghost<Seq<StopTimeDetail>>,
    service_routes_stored: Ghost<Seq<ServiceRoute>>,
    trips2service_routes_stored: Ghost<Seq<Trip2ServiceRoute>>,
    courses_stored: Ghost<Seq<Course>>,
    trips2courses_stored: Ghost<Seq<Trip2Course>>,
}

impl<CSV: GtfsCsvTrait, DB: GtfsDbTrait> GtfsService<CSV, DB> {
    /// The CSV files read from.
    pub closed spec fn csv(&self) -> CSV {
        self.gtfs_csv
    }

    /// The database written to.
    pub closed spec fn db(&self) -> DB {
        self.gtfs_db
    }

    /// The visits last read from the database.
    pub closed spec fn visits_read(&self) -> Seq<StopTimeDetail> {
        self.visits_read@
    }

    /// The service-route rows the database accepted from this service.
    pub closed spec fn stored_service_routes(&self) -> Seq<ServiceRoute> {
        self.service_routes_stored@
    }

    /// The trip-to-service-route rows the database accepted from this service.
    pub closed spec fn stored_trips2service_routes(&self) -> Seq<Trip2ServiceRoute> {
        self.trips2service_routes_stored@
    }

    /// The course rows the database accepted from this service.
    pub closed spec fn stored_courses(&self) -> Seq<Course> {
        self.courses_stored@
    }

    /// The trip-to-course rows the database accepted from this service.
    pub closed spec fn stored_trips2courses(&self) -> Seq<Trip2Course> {
        self.trips2courses_stored@
    }

    /// The derived rows of `self` are those of `other`.
    pub open spec fn same_derived_rows(&self, other: &Self) -> bool {
        &&& self.stored_service_routes() == other.stored_service_routes()
        &&& self.stored_trips2service_routes() == other.stored_trips2service_routes()
        &&& self.stored_courses() == other.stored_courses()
        &&& self.stored_trips2courses() == other.stored_trips2courses()
    }

    /// A service over the given CSV files and database.
    pub fn new(gtfs_csv: CSV, gtfs_db: DB) -> (r: Self)
        ensures
            r.csv() == gtfs_csv,
            r.db() == gtfs_db,
            r.stored_service_routes().len() == 0,
            r.stored_trips2service_routes().len() == 0,
            r.stored_courses().len() == 0,
            r.stored_trips2courses().len() == 0,
    {
        Self {
            gtfs_csv,
            gtfs_db,
            visits_read: Ghost(Seq::empty()),
            service_routes_stored: Ghost(Seq::empty()),
            trips2service_routes_stored: Ghost(Seq::empty()),
            courses_stored: Ghost(Seq::empty()),
            trips2courses_stored: Ghost(Seq::empty()),
        }
    }

    /// Creates every table: one call to the database, whose result it returns.
    pub fn create_tables(&mut self) -> (r: Result<(), StoreError>)
        ensures
            final(self).csv() == old(self).csv(),
            final(self).same_derived_rows(old(self)),
            final(self).visits_read() == old(self).visits_read(),
    {
        self.gtfs_db.create_all()
    }

    /// Drops every table: one call to the database, whose result it returns.
    pub fn drop_tables(&mut self) -> (r: Result<(), StoreError>)
        ensures
            final(self).csv() == old(self).csv(),
            final(self).same_derived_rows(old(self)),
            final(self).visits_read() == old(self).visits_read(),
    {
        self.gtfs_db.drop_all()
    }

    /// Copies each file of the feed into its table, without repeated records.
    /// Optional files that are absent are skipped. With `legacy_translations`
    /// the translations file is read in its legacy form and each record is
    /// spread to the fields it stands for.
    pub fn insert_tables(&mut self, legacy_translations: bool) -> (r: Result<(), StoreError>)
        ensures
            final(self).same_derived_rows(old(self)),
            final(self).visits_read() == old(self).visits_read(),
    {
        if legacy_translations {
            let legacy = unique_records(self.gtfs_csv.load_legacy_translations()?);
            let mut translations: Vec<Translation> = Vec::new();
            let mut i: usize = 0;
            while i < legacy.len()
                decreases legacy@.len() - i,
            {
                let mut spread = Translation::from_legacy(&legacy[i]);
                translations.append(&mut spread);
                i = i + 1;
            }
            self.gtfs_db.insert_translations(translations.as_slice())?;
        } else {
            let translations = unique_records(self.gtfs_csv.load_translations()?);
            self.gtfs_db.insert_translations(translations.as_slice())?;
        }
        let agencies = unique_records(self.gtfs_csv.load_agencies()?);
        self.gtfs_db.insert_agencies(agencies.as_slice())?;
        if self.gtfs_csv.has_agency_jp() {
            let agencies_jp = unique_records(self.gtfs_csv.load_agencies_jp()?);
            self.gtfs_db.insert_agencies_jp(agencies_jp.as_slice())?;
        }
        if self.gtfs_csv.has_office_jp() {
            let offices_jp = unique_records(self.gtfs_csv.load_offices_jp()?);
            self.gtfs_db.insert_offices_jp(offices_jp.as_slice())?;
        }
        let calendars = unique_records(self.gtfs_csv.load_calendars()?);
        self.gtfs_db.insert_calendars(calendars.as_slice())?;
        if self.gtfs_csv.has_calendar_dates() {
            let calendar_dates = unique_records(self.gtfs_csv.load_calendar_dates()?);
            self.gtfs_db.insert_calendar_dates(calendar_dates.as_slice())?;
        }
        let stops = unique_records(self.gtfs_csv.load_stops()?);
        self.gtfs_db.insert_stops(stops.as_slice())?;
        let routes = unique_records(self.gtfs_csv.load_routes()?);
        self.gtfs_db.insert_routes(routes.as_slice())?;
        if self.gtfs_csv.has_routes_jp() {
            let routes_jp = unique_records(self.gtfs_csv.load_routes_jp()?);
            self.gtfs_db.insert_routes_jp(routes_jp.as_slice())?;
        }
        let trips = unique_records(self.gtfs_csv.load_trips()?);
        self.gtfs_db.insert_trips(trips.as_slice())?;
        let stop_times = unique_records(self.gtfs_csv.load_stop_times()?);
        self.gtfs_db.insert_stop_times(stop_times.as_slice())?;
        if self.gtfs_csv.has_fare_attributes() {
            let fare_attributes = unique_records(self.gtfs_csv.load_fare_attributes()?);
            self.gtfs_db.insert_fare_attributes(fare_attributes.as_slice())?;
        }
        if self.gtfs_csv.has_fare_rules() {
            let fare_rules = unique_records(self.gtfs_csv.load_fare_rules()?);
            self.gtfs_db.insert_fare_rules(fare_rules.as_slice())?;
        }
        if self.gtfs_csv.has_shapes() {
            let shapes = unique_records(self.gtfs_csv.select_shapes()?);
            self.gtfs_db.insert_shapes(shapes.as_slice())?;
        }
        if self.gtfs_csv.has_frequencies() {
            let frequencies = unique_records(self.gtfs_csv.load_frequencies()?);
            self.gtfs_db.insert_frequencies(frequencies.as_slice())?;
        }
        if self.gtfs_csv.has_transfers() {
            let transfers = unique_records(self.gtfs_csv.load_transfers()?);
            self.gtfs_db.insert_transfers(transfers.as_slice())?;
        }
        let feeds = unique_records(self.gtfs_csv.load_feeds()?);
        self.gtfs_db.insert_feeds(feeds.as_slice())?;
        Ok(())
    }

    /// Derives the service routes of every trip in the database under
    /// `strategy`, keeping the ids of a previous run's snapshot where one is
    /// given, and stores them with each trip's assignment. Returns the
    /// snapshot of this run, for the next one.
    pub fn insert_origin_tables(
        &mut self,
        strategy: &IdentifyStrategy,
        identities: Option<&Vec<ServiceRouteIdentity>>,
    ) -> (r: Result<Vec<ServiceRouteIdentity>, StoreError>)
        requires
            identities matches Some(rows) ==> valid_snapshot(rows@),
        ensures
            final(self).csv() == old(self).csv(),
            final(self).stored_courses() == old(self).stored_courses(),
            final(self).stored_trips2courses() == old(self).stored_trips2courses(),
            r is Ok ==> {
                let v = final(self).visits_read();
                let n = old(self).stored_service_routes().len();
                let m = old(self).stored_trips2service_routes().len();
                let routes = final(self).stored_service_routes();
                let assignments = final(self).stored_trips2service_routes();
                &&& start_state(*strategy, identities).last_id + v.len() <= i32::MAX
                &&& routes.len() >= n && assignments.len() >= m
                &&& routes.subrange(0, n as int) == old(self).stored_service_routes()
                &&& assignments.subrange(0, m as int) == old(self).stored_trips2service_routes()
                &&& service_route_tables_of(
                    *strategy,
                    start_state(*strategy, identities),
                    v,
                    routes.subrange(n as int, routes.len() as int),
                    assignments.subrange(m as int, assignments.len() as int),
                    r->Ok_0@,
                )
            },
    {
        let details = match self.gtfs_db.select_stop_time_details(None, None) {
            Ok(d) => d,
            Err(e) => {
                return Err(e);
            },
        };
        self.visits_read = Ghost(details@);
        let (routes, assignments, snapshot) = match service_route_tables(strategy, identities, details.as_slice()) {
            Ok(t) => t,
            Err(e) => {
                return Err(e);
            },
        };
        if let Err(e) = self.gtfs_db.insert_service_routes(routes.as_slice()) {
            return Err(e);
        }
        self.service_routes_stored = Ghost(self.service_routes_stored@ + routes@);
        if let Err(e) = self.gtfs_db.insert_trips2service_routes(assignments.as_slice()) {
            return Err(e);
        }
        self.trips2service_routes_stored = Ghost(self.trips2service_routes_stored@ + assignments@);
        proof {
            let n = old(self).stored_service_routes().len();
            let m = old(self).stored_trips2service_routes().len();
            let rs = self.service_routes_stored@;
            let asg = self.trips2service_routes_stored@;
            assert(rs.subrange(n as int, rs.len() as int) =~= routes@);
            assert(rs.subrange(0, n as int) =~= old(self).stored_service_routes());
            assert(asg.subrange(m as int, asg.len() as int) =~= assignments@);
            assert(asg.subrange(0, m as int) =~= old(self).stored_trips2service_routes());
        }
        Ok(snapshot)
    }

    /// Derives the course of every trip in the database under `strategy` and
    /// stores the courses with each trip's assignment. The whole pass runs
    /// before anything is stored: a trip that cannot be resolved fails it, and
    /// then nothing is written.
    pub fn insert_course_tables(&mut self, strategy: &course::IdentifyStrategy) -> (r: Result<(), ServiceError>)
        ensures
            final(self).csv() == old(self).csv(),
            final(self).stored_service_routes() == old(self).stored_service_routes(),
            final(self).stored_trips2service_routes() == old(self).stored_trips2service_routes(),
            r matches Err(ServiceError::Identify(e)) ==> {
                &&& e matches IdentifyError::MissingRequiredField { .. }
                &&& course_steps(*strategy, initial_course_state(), trip_groups(final(self).visits_read())).1 is None
                &&& final(self).same_derived_rows(old(self))
            },
            r is Ok ==> {
                let v = final(self).visits_read();
                let n = old(self).stored_courses().len();
                let m = old(self).stored_trips2courses().len();
                let courses = final(self).stored_courses();
                let assignments = final(self).stored_trips2courses();
                &&& v.len() <= i32::MAX
                &&& courses.len() >= n && assignments.len() >= m
                &&& courses.subrange(0, n as int) == old(self).stored_courses()
                &&& assignments.subrange(0, m as int) == old(self).stored_trips2courses()
                &&& course_tables_of(
                    *strategy,
                    v,
                    courses.subrange(n as int, courses.len() as int),
                    assignments.subrange(m as int, assignments.len() as int),
                )
            },
    {
        let details = match self.gtfs_db.select_stop_time_details(None, None) {
            Ok(d) => d,
            Err(e) => {
                return Err(ServiceError::Store(e));
            },
        };
        self.visits_read = Ghost(details@);
        let (courses, assignments) = match course_tables(strategy, details.as_slice()) {
            Ok(t) => t,
            Err(e) => {
                return Err(e);
            },
        };
        if let Err(e) = self.gtfs_db.insert_courses(courses.as_slice()) {
            return Err(ServiceError::Store(e));
        }
        self.courses_stored = Ghost(self.courses_stored@ + courses@);
        if let Err(e) = self.gtfs_db.insert_trips2courses(assignments.as_slice()) {
            return Err(ServiceError::Store(e));
        }
        self.trips2courses_stored = Ghost(self.trips2courses_stored@ + assignments@);
        proof {
            let n = old(self).stored_courses().len();
            let m = old(self).stored_trips2courses().len();
            let cs = self.courses_stored@;
            let asg = self.trips2courses_stored@;
            assert(cs.subrange(n as int, cs.len() as int) =~= courses@);
            assert(cs.subrange(0, n as int) =~= old(self).stored_courses());
            assert(asg.subrange(m as int, asg.len() as int) =~= assignments@);
            assert(asg.subrange(0, m as int) =~= old(self).stored_trips2courses());
        }
        Ok(())
    }
}

} // verus!
