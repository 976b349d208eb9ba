use std::cell::RefCell;
use std::rc::Rc;

use diamant::api::utils::queries::CommaSeparatedValues;
use diamant::external::gtfs::agency::Agency;
use diamant::external::gtfs::agency_jp::AgencyJp;
use diamant::external::gtfs::calendar::Calendar;
use diamant::external::gtfs::calendar_dates::CalendarDate;
use diamant::external::gtfs::extended::course::Course;
use diamant::external::gtfs::extended::nodes::Node;
use diamant::external::gtfs::extended::service_route_identity::ServiceRouteIdentity;
use diamant::external::gtfs::extended::service_routes::{IdentifyStrategy, ServiceRoute};
use diamant::external::gtfs::extended::stop_time_details::StopTimeDetail;
use diamant::external::gtfs::extended::trips2courses::Trip2Course;
use diamant::external::gtfs::extended::trips2service_routes::Trip2ServiceRoute;
use diamant::external::gtfs::fare_attributes::FareAttribute;
use diamant::external::gtfs::fare_rules::FareRule;
use diamant::external::gtfs::feed_info::Feed;
use diamant::external::gtfs::frequencies::Frequency;
use diamant::external::gtfs::legacy_translations::LegacyTranslation;
use diamant::external::gtfs::office_jp::OfficeJp;
use diamant::external::gtfs::routes::Route;
use diamant::external::gtfs::routes_jp::RouteJp;
use diamant::external::gtfs::shapes::Shape;
use diamant::external::gtfs::stop_times::StopTime;
use diamant::external::gtfs::stops::Stop;
use diamant::external::gtfs::transfers::Transfer;
use diamant::external::gtfs::translations::{TranslatableTableName, Translation};
use diamant::external::gtfs::trips::{Trip, TripId};
use diamant::external::gtfs::{GtfsCsvTrait, GtfsDbTrait, Lang, StoreError, Timezone};
use diamant::external::gtfscsv::GTFSFile;
use diamant::external::gtfsdb::{create_statement, drop_statement, insert_statement, Table};
use diamant::io::Format;
use diamant::external::gtfs::extended::course::IdentifyStrategy as CourseStrategy;
use diamant::external::gtfs::extended::errors::IdentifyError;
use diamant::service::gtfs::{course_tables, service_route_tables, GtfsService, ServiceError};
use diamant::service::route::{RouteService, RouteServiceCsv};
use diamant::service::trip::{TripService, TripServiceCsv};

fn agency() -> Agency {
    Agency {
        agency_id: "33".to_string(),
        agency_name: "みみぞうバス".to_string(),
        agency_url: "https://minerva.mamansoft.net/".to_string(),
        agency_timezone: Timezone::AsiaTokyo,
        agency_lang: Lang::Ja,
        agency_phone: None,
        agency_fare_url: None,
        agency_email: None,
    }
}

fn detail(trip: &str, seq: u32, stop: &str) -> StopTimeDetail {
    StopTimeDetail {
        trip_id: trip.to_string(),
        stop_sequence: seq,
        stop_id: stop.to_string(),
        stop_name: format!("{}-name", stop),
        stop_lat: 0,
        stop_lon: 0,
        arrival_time: "7:00:00".to_string(),
        departure_time: "7:00:00".to_string(),
        route_id: "R".to_string(),
        route_short_name: None,
        route_long_name: Some("Line".to_string()),
        direction_id: None,
    }
}

#[derive(Default)]
struct MemoryCsv {
    legacy: Vec<LegacyTranslation>,
}

impl GtfsCsvTrait for MemoryCsv {
    fn load_agencies(&mut self) -> Result<Vec<Agency>, StoreError> {
        Ok(vec![agency(), agency()])
    }
    fn load_agencies_jp(&mut self) -> Result<Vec<AgencyJp>, StoreError> {
        Ok(vec![])
    }
    fn has_agency_jp(&mut self) -> bool {
        false
    }
    fn load_stops(&mut self) -> Result<Vec<Stop>, StoreError> {
        Ok(vec![])
    }
    fn load_routes(&mut self) -> Result<Vec<Route>, StoreError> {
        Ok(vec![])
    }
    fn load_routes_jp(&mut self) -> Result<Vec<RouteJp>, StoreError> {
        Ok(vec![])
    }
    fn has_routes_jp(&mut self) -> bool {
        false
    }
    fn load_trips(&mut self) -> Result<Vec<Trip>, StoreError> {
        Ok(vec![])
    }
    fn load_offices_jp(&mut self) -> Result<Vec<OfficeJp>, StoreError> {
        Ok(vec![])
    }
    fn has_office_jp(&mut self) -> bool {
        false
    }
    fn load_stop_times(&mut self) -> Result<Vec<StopTime>, StoreError> {
        Ok(vec![])
    }
    fn load_calendars(&mut self) -> Result<Vec<Calendar>, StoreError> {
        Ok(vec![])
    }
    fn load_calendar_dates(&mut self) -> Result<Vec<CalendarDate>, StoreError> {
        Ok(vec![])
    }
    fn has_calendar_dates(&mut self) -> bool {
        false
    }
    fn load_fare_attributes(&mut self) -> Result<Vec<FareAttribute>, StoreError> {
        Ok(vec![])
    }
    fn has_fare_attributes(&mut self) -> bool {
        false
    }
    fn load_fare_rules(&mut self) -> Result<Vec<FareRule>, StoreError> {
        Ok(vec![])
    }
    fn has_fare_rules(&mut self) -> bool {
        false
    }
    fn select_shapes(&mut self) -> Result<Vec<Shape>, StoreError> {
        Ok(vec![])
    }
    fn has_shapes(&mut self) -> bool {
        false
    }
    fn load_frequencies(&mut self) -> Result<Vec<Frequency>, StoreError> {
        Ok(vec![])
    }
    fn has_frequencies(&mut self) -> bool {
        false
    }
    fn load_transfers(&mut self) -> Result<Vec<Transfer>, StoreError> {
        Ok(vec![])
    }
    fn has_transfers(&mut self) -> bool {
        false
    }
    fn load_feeds(&mut self) -> Result<Vec<Feed>, StoreError> {
        Ok(vec![])
    }
    fn load_translations(&mut self) -> Result<Vec<Translation>, StoreError> {
        Ok(vec![])
    }
    fn load_legacy_translations(&mut self) -> Result<Vec<LegacyTranslation>, StoreError> {
        Ok(self.legacy.clone())
    }
}

#[derive(Default)]
struct Written {
    agencies: Vec<Agency>,
    translations: Vec<Translation>,
    service_routes: Vec<ServiceRoute>,
    assignments: Vec<Trip2ServiceRoute>,
    courses: Vec<Course>,
    trips2courses: Vec<Trip2Course>,
}

#[derive(Default)]
struct MemoryDb {
    details: Vec<StopTimeDetail>,
    unreadable: bool,
    written: Rc<RefCell<Written>>,
}

impl GtfsDbTrait for MemoryDb {
    fn create_all(&self) -> Result<(), StoreError> {
        Ok(())
    }
    fn drop_all(&self) -> Result<(), StoreError> {
        Ok(())
    }
    fn insert_agencies(&mut self, agencies: &[Agency]) -> Result<(), StoreError> {
        self.written.borrow_mut().agencies.extend_from_slice(agencies);
        Ok(())
    }
    fn insert_agencies_jp(&mut self, _: &[AgencyJp]) -> Result<(), StoreError> {
        Ok(())
    }
    fn insert_stops(&mut self, _: &[Stop]) -> Result<(), StoreError> {
        Ok(())
    }
    fn insert_routes(&mut self, _: &[Route]) -> Result<(), StoreError> {
        Ok(())
    }
    fn select_routes(&mut self) -> Result<Vec<Route>, StoreError> {
        Ok(vec![])
    }
    fn insert_routes_jp(&mut self, _: &[RouteJp]) -> Result<(), StoreError> {
        Ok(())
    }
    fn insert_trips(&mut self, _: &[Trip]) -> Result<(), StoreError> {
        Ok(())
    }
    fn insert_offices_jp(&mut self, _: &[OfficeJp]) -> Result<(), StoreError> {
        Ok(())
    }
    fn insert_stop_times(&mut self, _: &[StopTime]) -> Result<(), StoreError> {
        Ok(())
    }
    fn insert_calendars(&mut self, _: &[Calendar]) -> Result<(), StoreError> {
        Ok(())
    }
    fn insert_calendar_dates(&mut self, _: &[CalendarDate]) -> Result<(), StoreError> {
        Ok(())
    }
    fn insert_fare_attributes(&mut self, _: &[FareAttribute]) -> Result<(), StoreError> {
        Ok(())
    }
    fn insert_fare_rules(&mut self, _: &[FareRule]) -> Result<(), StoreError> {
        Ok(())
    }
    fn insert_shapes(&mut self, _: &[Shape]) -> Result<(), StoreError> {
        Ok(())
    }
    fn insert_frequencies(&mut self, _: &[Frequency]) -> Result<(), StoreError> {
        Ok(())
    }
    fn insert_transfers(&mut self, _: &[Transfer]) -> Result<(), StoreError> {
        Ok(())
    }
    fn insert_feeds(&mut self, _: &[Feed]) -> Result<(), StoreError> {
        Ok(())
    }
    fn insert_translations(&mut self, translations: &[Translation]) -> Result<(), StoreError> {
        self.written.borrow_mut().translations.extend_from_slice(translations);
        Ok(())
    }
    fn insert_legacy_translations(&mut self, _: &[LegacyTranslation]) -> Result<(), StoreError> {
        Ok(())
    }
    fn select_stop_time_details(
        &mut self,
        _: Option<Vec<TripId>>,
        _: Option<String>,
    ) -> Result<Vec<StopTimeDetail>, StoreError> {
        if self.unreadable {
            return Err(StoreError { message: "locked".to_string() });
        }
        Ok(self.details.clone())
    }
    fn insert_trips2courses(&mut self, rows: &[Trip2Course]) -> Result<(), StoreError> {
        self.written.borrow_mut().trips2courses.extend_from_slice(rows);
        Ok(())
    }
    fn insert_courses(&mut self, rows: &[Course]) -> Result<(), StoreError> {
        self.written.borrow_mut().courses.extend_from_slice(rows);
        Ok(())
    }
    fn insert_service_routes(&mut self, service_routes: &[ServiceRoute]) -> Result<(), StoreError> {
        self.written.borrow_mut().service_routes.extend_from_slice(service_routes);
        Ok(())
    }
    fn insert_trips2service_routes(&mut self, rows: &[Trip2ServiceRoute]) -> Result<(), StoreError> {
        self.written.borrow_mut().assignments.extend_from_slice(rows);
        Ok(())
    }
    fn select_service_route_identity(&mut self) -> Result<Vec<ServiceRouteIdentity>, StoreError> {
        Ok(vec![])
    }
}

#[test]
fn no1_db_create() {
    let db = MemoryDb {
        details: vec![detail("T1", 0, "A"), detail("T1", 1, "B"), detail("T2", 0, "A"), detail("T2", 1, "B")],
        ..Default::default()
    };
    let mut service = GtfsService::new(MemoryCsv::default(), db);
    assert_eq!(Ok(()), service.drop_tables());
    assert_eq!(Ok(()), service.create_tables());
    assert_eq!(Ok(()), service.insert_tables(false));
    assert!(service.insert_origin_tables(&IdentifyStrategy::StopNames, None).is_ok());
}

#[test]
fn insert_tables_drops_repeated_records() {
    let db = MemoryDb::default();
    let written = db.written.clone();
    let mut service = GtfsService::new(MemoryCsv::default(), db);
    assert_eq!(Ok(()), service.insert_tables(false));
    assert_eq!(vec![agency()], written.borrow().agencies);
}

#[test]
fn legacy_translations_are_spread() {
    let l = LegacyTranslation {
        trans_id: "数寄屋橋".to_string(),
        lang: Lang::En,
        translation: "Sukiyabashi".to_string(),
    };
    let csv = MemoryCsv { legacy: vec![l.clone(), l] };
    let db = MemoryDb::default();
    let written = db.written.clone();
    let mut service = GtfsService::new(csv, db);
    assert_eq!(Ok(()), service.insert_tables(true));
    assert_eq!(6, written.borrow().translations.len());
}

#[test]
fn origin_tables_hold_routes_and_assignments() {
    let db = MemoryDb {
        details: vec![detail("T1", 0, "A"), detail("T1", 1, "B"), detail("T2", 0, "A"), detail("T3", 0, "A"), detail("T3", 1, "B")],
        ..Default::default()
    };
    let written = db.written.clone();
    let mut service = GtfsService::new(MemoryCsv::default(), db);
    let snapshot = service.insert_origin_tables(&IdentifyStrategy::StopIds, None).unwrap();
    assert_eq!(2, snapshot.len());
    assert_eq!("T1,T3", snapshot[0].trip_ids);
    let w = written.borrow();
    let ids: Vec<i32> = w.assignments.iter().map(|a| a.service_route_id).collect();
    assert_eq!(vec![1, 2, 1], ids);
    let mut routes: Vec<i32> = w.service_routes.iter().map(|r| r.service_route_id).collect();
    routes.sort();
    assert_eq!(vec![1, 2], routes);
    let first = w.service_routes.iter().find(|r| r.service_route_id == 1).unwrap();
    assert_eq!("Line(A-name~B-name)", first.service_route_name);
}

#[test]
fn route_and_trip_services_read_the_csv_port() {
    assert_eq!(Ok(vec![]), RouteServiceCsv::new(MemoryCsv::default()).fetch());
    assert_eq!(Ok(vec![]), TripServiceCsv::new(MemoryCsv::default()).fetch());
}

#[test]
fn from_legacy_makes_six_translations() {
    let l = LegacyTranslation {
        trans_id: "日本橋".to_string(),
        lang: Lang::JaHrkt,
        translation: "にほんばし".to_string(),
    };
    let t = Translation::from_legacy(&l);
    let fields: Vec<(TranslatableTableName, String)> =
        t.iter().map(|x| (x.table_name, x.field_name.clone())).collect();
    assert_eq!(
        vec![
            (TranslatableTableName::Stops, "stop_name".to_string()),
            (TranslatableTableName::Routes, "route_short_name".to_string()),
            (TranslatableTableName::Routes, "route_long_name".to_string()),
            (TranslatableTableName::Trips, "trip_headsign".to_string()),
            (TranslatableTableName::Trips, "trip_short_name".to_string()),
            (TranslatableTableName::StopTimes, "stop_headsign".to_string()),
        ],
        fields
    );
    for x in &t {
        assert_eq!(Lang::JaHrkt, x.language);
        assert_eq!("にほんばし", x.translation);
        assert_eq!(Some("日本橋".to_string()), x.field_value);
        assert_eq!(None, x.record_id);
    }
}

#[test]
fn sql_statements() {
    assert_eq!(
        "CREATE TABLE IF NOT EXISTS nodes (a int)",
        create_statement(Node::table_name(), "a int")
    );
    assert_eq!("DROP TABLE IF EXISTS courses", drop_statement(Course::table_name()));
    assert_eq!(
        "INSERT INTO trips2courses (trip_id,course_id) VALUES (:trip_id,:course_id)",
        insert_statement(Trip2Course::table_name(), Trip2Course::column_names())
    );
    assert_eq!("INSERT INTO x () VALUES ()", insert_statement("x", &[]));
}

#[test]
fn tables_and_files() {
    assert_eq!("agency", Agency::table_name());
    assert_eq!(8, Agency::column_names().len());
    assert_eq!("trips.txt", Trip::file_name());
    assert_eq!("service_routes", ServiceRoute::table_name());
    assert_eq!(["trip_id", "service_route_id", "service_route_direction_id"], Trip2ServiceRoute::column_names());
}

#[test]
fn comma_separated_values() {
    let v = CommaSeparatedValues::from_decoded("1001_WD_001,1001_WD_002");
    assert_eq!(vec!["1001_WD_001".to_string(), "1001_WD_002".to_string()], v.unwrap());
    assert_eq!(vec!["".to_string()], CommaSeparatedValues::from_decoded("").unwrap());
    assert_eq!(vec!["a".to_string(), "".to_string()], CommaSeparatedValues::from_decoded("a,").unwrap());
}

#[test]
fn formats() {
    assert_eq!(Some(Format::PJson), Format::from_name("pjson"));
    assert_eq!(None, Format::from_name("xml"));
    assert_eq!("tsv", Format::Tsv.name());
    assert!(Format::Csv.is_readable());
    assert!(!Format::Yaml.is_readable());
    assert_eq!(Some(9), Format::Tsv.delimiter());
    assert_eq!(None, Format::Json.delimiter());
}

#[test]
fn course_pass_stores_courses_and_assignments() {
    let db = MemoryDb {
        details: vec![detail("T1", 0, "A"), detail("T2", 0, "B"), detail("T2", 1, "C")],
        ..Default::default()
    };
    let written = db.written.clone();
    let mut service = GtfsService::new(MemoryCsv::default(), db);
    assert_eq!(Ok(()), service.insert_course_tables(&CourseStrategy::RouteLongName));
    let w = written.borrow();
    assert_eq!(1, w.courses.len());
    assert_eq!("Line(A-name~A-name)", w.courses[0].course_name);
    let ids: Vec<(String, i32)> = w.trips2courses.iter().map(|a| (a.trip_id.clone(), a.course_id)).collect();
    assert_eq!(vec![("T1".to_string(), 1), ("T2".to_string(), 1)], ids);
}

#[test]
fn scenario_b_failed_pass_stores_nothing() {
    let db = MemoryDb {
        details: vec![detail("T1", 0, "A"), detail("T2", 0, "B")],
        ..Default::default()
    };
    let written = db.written.clone();
    let mut service = GtfsService::new(MemoryCsv::default(), db);
    assert_eq!(
        Err(ServiceError::Identify(IdentifyError::MissingRequiredField {
            strategy: CourseStrategy::RouteShortName,
            trip_id: "T1".to_string()
        })),
        service.insert_course_tables(&CourseStrategy::RouteShortName)
    );
    let w = written.borrow();
    assert!(w.courses.is_empty());
    assert!(w.trips2courses.is_empty());
}

#[test]
fn store_failures_abort_the_pass() {
    let db = MemoryDb { unreadable: true, ..Default::default() };
    let written = db.written.clone();
    let mut service = GtfsService::new(MemoryCsv::default(), db);
    let locked = StoreError { message: "locked".to_string() };
    assert_eq!(
        Err(locked.clone()),
        service.insert_origin_tables(&IdentifyStrategy::StopIds, None)
    );
    assert_eq!(
        Err(ServiceError::Store(locked)),
        service.insert_course_tables(&CourseStrategy::StopIds)
    );
    assert!(written.borrow().service_routes.is_empty());
}

#[test]
fn pass_rows_without_a_store() {
    let visits = vec![detail("T1", 0, "A"), detail("T2", 0, "A"), detail("T3", 0, "B")];
    let (routes, assignments, snapshot) =
        service_route_tables(&IdentifyStrategy::StopIds, None, &visits).unwrap();
    assert_eq!(2, routes.len());
    let ids: Vec<i32> = assignments.iter().map(|a| a.service_route_id).collect();
    assert_eq!(vec![1, 1, 2], ids);
    assert_eq!("T1,T2", snapshot[0].trip_ids);
    let (courses, trips) = course_tables(&CourseStrategy::RouteId, &visits).unwrap();
    assert_eq!(1, courses.len());
    assert_eq!(3, trips.len());
}
