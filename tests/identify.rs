use diamant::external::gtfs::extended::course::{CourseGenerator, IdentifyStrategy as CourseStrategy};
use diamant::external::gtfs::extended::errors::IdentifyError;
use diamant::external::gtfs::extended::service_route_identity::ServiceRouteIdentity;
use diamant::external::gtfs::extended::service_routes::{IdentifyStrategy, ServiceRouteGenerator};
use diamant::external::gtfs::extended::stop_time_details::StopTimeDetail;
use diamant::external::gtfs::DirectionId;

fn visit(trip: &str, seq: u32, stop_id: &str, stop_name: &str) -> StopTimeDetail {
    StopTimeDetail {
        trip_id: trip.to_string(),
        stop_sequence: seq,
        stop_id: stop_id.to_string(),
        stop_name: stop_name.to_string(),
        stop_lat: 35_680_515,
        stop_lon: 139_764_698,
        arrival_time: "7:00:00".to_string(),
        departure_time: "7:00:00".to_string(),
        route_id: "R1".to_string(),
        route_short_name: Some("東16".to_string()),
        route_long_name: Some("Long".to_string()),
        direction_id: None,
    }
}

fn trip(id: &str, stops: &[&str]) -> Vec<StopTimeDetail> {
    stops
        .iter()
        .enumerate()
        .map(|(i, s)| visit(id, i as u32, s, &format!("{}-name", s)))
        .collect()
}

fn identity(id: i32, stop_ids: &str, stop_names: &str) -> ServiceRouteIdentity {
    ServiceRouteIdentity {
        service_route_id: id,
        service_route_name: format!("route {}", id),
        service_route_direction_id: DirectionId::Inbound,
        trip_ids: "X".to_string(),
        stop_ids: stop_ids.to_string(),
        stop_names: stop_names.to_string(),
    }
}

#[test]
fn scenario_a_same_stop_ids_share_a_service_route() {
    let mut g = ServiceRouteGenerator::new(&IdentifyStrategy::StopIds, None);
    let r1 = g.generate(&trip("T1", &["A", "B", "C"])).unwrap();
    let r2 = g.generate(&trip("T2", &["A", "B", "C"])).unwrap();
    let r3 = g.generate(&trip("T3", &["A", "B", "D"])).unwrap();
    assert_eq!(1, r1.service_route_id);
    assert_eq!(1, r2.service_route_id);
    assert_eq!(2, r3.service_route_id);
    assert_eq!(r1, r2);
    assert_eq!(2, g.all().len());
}

#[test]
fn scenario_a_through_a_whole_pass() {
    let mut visits = trip("T1", &["A", "B", "C"]);
    visits.extend(trip("T2", &["A", "B", "C"]));
    visits.extend(trip("T3", &["A", "B", "D"]));
    let mut g = ServiceRouteGenerator::new(&IdentifyStrategy::StopIds, None);
    let (assignments, snapshot) = g.identify_trips(&visits);
    let got: Vec<(String, i32)> = assignments
        .iter()
        .map(|a| (a.trip_id.clone(), a.service_route_id))
        .collect();
    assert_eq!(
        vec![("T1".to_string(), 1), ("T2".to_string(), 1), ("T3".to_string(), 2)],
        got
    );
    assert_eq!(2, snapshot.len());
    assert_eq!("T1,T2", snapshot[0].trip_ids);
    assert_eq!("A,B,C", snapshot[0].stop_ids);
    assert_eq!("A-name,B-name,C-name", snapshot[0].stop_names);
    assert_eq!("T3", snapshot[1].trip_ids);
    assert_eq!(2, snapshot[1].service_route_id);
}

#[test]
fn scenario_b_missing_short_name_fails() {
    let mut g = CourseGenerator::new(&CourseStrategy::RouteShortName);
    let mut t = trip("T1", &["A", "B"]);
    t[0].route_short_name = None;
    let r = g.generate(&t);
    assert_eq!(
        Err(IdentifyError::MissingRequiredField {
            strategy: CourseStrategy::RouteShortName,
            trip_id: "T1".to_string()
        }),
        r
    );
    assert!(g.all().is_empty());
}

#[test]
fn missing_long_name_fails() {
    let mut g = CourseGenerator::new(&CourseStrategy::RouteLongName);
    let mut t = trip("T9", &["A"]);
    t[0].route_long_name = None;
    assert!(matches!(
        g.generate(&t),
        Err(IdentifyError::MissingRequiredField { strategy: CourseStrategy::RouteLongName, .. })
    ));
}

#[test]
fn empty_trip_fails() {
    let mut g = ServiceRouteGenerator::new(&IdentifyStrategy::StopIds, None);
    assert_eq!(Err(IdentifyError::EmptyTripGroup), g.generate(&[]));
    let mut c = CourseGenerator::new(&CourseStrategy::RouteId);
    assert_eq!(Err(IdentifyError::EmptyTripGroup), c.generate(&[]));
}

#[test]
fn scenario_c_direction_defaults_to_outbound() {
    let mut g = ServiceRouteGenerator::new(&IdentifyStrategy::StopIds, None);
    let r = g.generate(&trip("T1", &["A", "B"])).unwrap();
    assert_eq!(DirectionId::Outbound, r.direction_id);
    let mut t = trip("T2", &["C"]);
    t[0].direction_id = Some(DirectionId::Inbound);
    assert_eq!(DirectionId::Inbound, g.generate(&t).unwrap().direction_id);
}

#[test]
fn bootstrap_continues_after_largest_id() {
    let rows = vec![
        identity(1, "A,B", "a,b"),
        identity(5, "C,D", "c,d"),
        identity(2, "E", "e"),
    ];
    let mut g = ServiceRouteGenerator::new(&IdentifyStrategy::StopIds, Some(&rows));
    assert_eq!(5, g.last_id());
    let r = g.generate(&trip("T1", &["Z"])).unwrap();
    assert_eq!(6, r.service_route_id);
    let known = g.generate(&trip("T2", &["C", "D"])).unwrap();
    assert_eq!(5, known.service_route_id);
    assert_eq!("route 5", known.service_route_name);
    assert_eq!(DirectionId::Inbound, known.direction_id);
}

#[test]
fn bootstrap_by_stop_names() {
    let rows = vec![identity(3, "A,B", "A-name,B-name")];
    let mut g = ServiceRouteGenerator::new(&IdentifyStrategy::StopNames, Some(&rows));
    assert_eq!(3, g.generate(&trip("T1", &["A", "B"])).unwrap().service_route_id);
}

#[test]
fn empty_snapshot_starts_at_one() {
    let rows: Vec<ServiceRouteIdentity> = vec![];
    let mut g = ServiceRouteGenerator::new(&IdentifyStrategy::StopIds, Some(&rows));
    assert_eq!(1, g.generate(&trip("T1", &["A"])).unwrap().service_route_id);
}

#[test]
fn generating_twice_is_idempotent() {
    let mut g = ServiceRouteGenerator::new(&IdentifyStrategy::StopIds, None);
    let t = trip("T1", &["A", "B"]);
    let first = g.generate(&t).unwrap();
    let second = g.generate(&t).unwrap();
    assert_eq!(first, second);
    assert_eq!(1, g.last_id());
    assert_eq!(2, g.generate(&trip("T2", &["B"])).unwrap().service_route_id);
}

#[test]
fn ids_increase_in_first_encounter_order() {
    let mut g = ServiceRouteGenerator::new(&IdentifyStrategy::StopIds, None);
    let ids: Vec<i32> = [&["A"][..], &["B"][..], &["A"][..], &["C"][..]]
        .iter()
        .enumerate()
        .map(|(i, s)| g.generate(&trip(&format!("T{}", i), s)).unwrap().service_route_id)
        .collect();
    assert_eq!(vec![1, 2, 1, 3], ids);
}

#[test]
fn different_stop_ids_get_different_ids() {
    let mut g = ServiceRouteGenerator::new(&IdentifyStrategy::StopIds, None);
    let a = g.generate(&trip("T1", &["A", "B"])).unwrap();
    let b = g.generate(&trip("T2", &["B", "A"])).unwrap();
    let c = g.generate(&trip("T3", &["A"])).unwrap();
    assert_ne!(a.service_route_id, b.service_route_id);
    assert_ne!(a.service_route_id, c.service_route_id);
    assert_ne!(b.service_route_id, c.service_route_id);
}

#[test]
fn a_comma_inside_a_stop_id_merges_trips() {
    let mut g = ServiceRouteGenerator::new(&IdentifyStrategy::StopIds, None);
    let a = g.generate(&trip("T1", &["A,B"])).unwrap();
    let b = g.generate(&trip("T2", &["A", "B"])).unwrap();
    assert_eq!(a.service_route_id, b.service_route_id);
}

#[test]
fn snapshot_round_trip_keeps_ids() {
    let mut visits = trip("T1", &["A", "B"]);
    visits.extend(trip("T2", &["C"]));
    visits.extend(trip("T3", &["A", "B"]));
    visits.extend(trip("T4", &["D", "E"]));
    let mut first = ServiceRouteGenerator::new(&IdentifyStrategy::StopIds, None);
    let (before, snapshot) = first.identify_trips(&visits);
    let mut second = ServiceRouteGenerator::new(&IdentifyStrategy::StopIds, Some(&snapshot));
    let (after, _) = second.identify_trips(&visits);
    assert_eq!(before, after);
    assert_eq!(3, second.last_id());
}

#[test]
fn new_route_name_uses_route_and_end_stops() {
    let mut g = ServiceRouteGenerator::new(&IdentifyStrategy::StopNames, None);
    let r = g.generate(&trip("T1", &["A", "B", "C"])).unwrap();
    assert_eq!("Long(A-name~C-name)", r.service_route_name);
    let mut t = trip("T2", &["X", "Y"]);
    t[0].route_long_name = None;
    let r2 = g.generate(&t).unwrap();
    assert_eq!("東16(X-name~Y-name)", r2.service_route_name);
}

#[test]
fn route_name_prefers_long_name() {
    let mut v = visit("T", 0, "A", "a");
    assert_eq!("Long", v.route_name());
    v.route_long_name = None;
    assert_eq!("東16", v.route_name());
    v.route_short_name = None;
    assert_eq!("", v.route_name());
}

#[test]
fn courses_by_route_id_collapse_a_route() {
    let mut g = CourseGenerator::new(&CourseStrategy::RouteId);
    let a = g.generate(&trip("T1", &["A", "B"])).unwrap();
    let b = g.generate(&trip("T2", &["C"])).unwrap();
    assert_eq!(a, b);
    assert_eq!(1, a.course_id);
    assert_eq!("Long(A-name~B-name)", a.course_name);
    let mut other = trip("T3", &["C"]);
    other[0].route_id = "R2".to_string();
    assert_eq!(2, g.generate(&other).unwrap().course_id);
    assert_eq!(2, g.all().len());
}

#[test]
fn courses_by_stop_ids_and_names() {
    let mut g = CourseGenerator::new(&CourseStrategy::StopIds);
    assert_eq!(1, g.generate(&trip("T1", &["A", "B"])).unwrap().course_id);
    assert_eq!(2, g.generate(&trip("T2", &["A", "C"])).unwrap().course_id);
    let mut n = CourseGenerator::new(&CourseStrategy::StopNames);
    let mut t = trip("T3", &["A"]);
    t[0].stop_id = "other".to_string();
    assert_eq!(1, n.generate(&trip("T1", &["A"])).unwrap().course_id);
    assert_eq!(1, n.generate(&t).unwrap().course_id);
}

#[test]
fn courses_by_short_and_long_names() {
    let mut g = CourseGenerator::new(&CourseStrategy::RouteShortName);
    let a = g.generate(&trip("T1", &["A"])).unwrap();
    let mut t = trip("T2", &["B"]);
    t[0].route_long_name = Some("Other".to_string());
    assert_eq!(a.course_id, g.generate(&t).unwrap().course_id);
    let mut l = CourseGenerator::new(&CourseStrategy::RouteLongName);
    assert_eq!(1, l.generate(&trip("T1", &["A"])).unwrap().course_id);
    assert_eq!(2, l.generate(&t).unwrap().course_id);
}

#[test]
fn strategy_names() {
    assert_eq!(Some(IdentifyStrategy::StopNames), IdentifyStrategy::from_name("stop_names"));
    assert_eq!(None, IdentifyStrategy::from_name("route_id"));
    assert_eq!("stop_ids", IdentifyStrategy::StopIds.name());
    assert_eq!(Some(CourseStrategy::RouteShortName), CourseStrategy::from_name("route_short_name"));
    assert_eq!("route_long_name", CourseStrategy::RouteLongName.name());
    assert_eq!(5, CourseStrategy::VARIANTS.len());
    assert_eq!(["stop_ids", "stop_names"], IdentifyStrategy::VARIANTS);
}

#[test]
fn course_pass_fails_fast() {
    let mut visits = trip("T1", &["A"]);
    let mut bad = trip("T2", &["B"]);
    bad[0].route_short_name = None;
    visits.extend(bad);
    visits.extend(trip("T3", &["C"]));
    let mut g = CourseGenerator::new(&CourseStrategy::RouteShortName);
    assert_eq!(
        Err(IdentifyError::MissingRequiredField {
            strategy: CourseStrategy::RouteShortName,
            trip_id: "T2".to_string()
        }),
        g.identify_trips(&visits)
    );
}

#[test]
fn course_pass_assigns_every_trip() {
    let mut visits = trip("T1", &["A", "B"]);
    visits.extend(trip("T2", &["A", "C"]));
    visits.extend(trip("T3", &["A", "B"]));
    let mut g = CourseGenerator::new(&CourseStrategy::StopIds);
    let a = g.identify_trips(&visits).unwrap();
    let ids: Vec<i32> = a.iter().map(|x| x.course_id).collect();
    assert_eq!(vec![1, 2, 1], ids);
    assert_eq!("T3", a[2].trip_id);
}
