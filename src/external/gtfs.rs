//! Shared vocabulary of the feed's tables, and the two stores that hold them:
//! the feed's CSV files and the relational database.
use vstd::prelude::*;

use crate::external::gtfs::agency::Agency;
use crate::external::gtfs::agency_jp::AgencyJp;
use crate::external::gtfs::calendar::Calendar;
use crate::external::gtfs::calendar_dates::CalendarDate;
use crate::external::gtfs::extended::course::Course;
use crate::external::gtfs::extended::service_route_identity::ServiceRouteIdentity;
use crate::external::gtfs::extended::service_routes::ServiceRoute;
use crate::external::gtfs::extended::stop_time_details::StopTimeDetail;
use crate::external::gtfs::extended::trips2courses::Trip2Course;
use crate::external::gtfs::extended::trips2service_routes::Trip2ServiceRoute;
use crate::external::gtfs::fare_attributes::FareAttribute;
use crate::external::gtfs::fare_rules::FareRule;
use crate::external::gtfs::feed_info::Feed;
use crate::external::gtfs::frequencies::Frequency;
use crate::external::gtfs::legacy_translations::LegacyTranslation;
use crate::external::gtfs::office_jp::OfficeJp;
use crate::external::gtfs::routes::Route;
use crate::external::gtfs::routes_jp::RouteJp;
use crate::external::gtfs::shapes::Shape;
use crate::external::gtfs::stop_times::StopTime;
use crate::external::gtfs::stops::Stop;
use crate::external::gtfs::transfers::Transfer;
use crate::external::gtfs::translations::Translation;
use crate::external::gtfs::trips::{Trip, TripId};

pub mod agency;
pub mod agency_jp;
pub mod calendar;
pub mod calendar_dates;
pub mod extended;
pub mod fare_attributes;
pub mod fare_rules;
pub mod feed_info;
pub mod frequencies;
pub mod legacy_translations;
pub mod office_jp;
pub mod routes;
pub mod routes_jp;
pub mod shapes;
pub mod stop_times;
pub mod stops;
pub mod transfers;
pub mod translations;
pub mod trips;

verus! {

/// 色. 00FFFF など 6 桁の 16 進数
pub type Color = String;

/// メートル
pub type Meter = u32;

/// HH:mm:ss形式で28時などの表現も許容
pub type UnlimitedTime = String;

/// YYYY-MM-DD形式の年月日 (ex: 2017-01-06)
pub type DateString = String;

/// YYYYMMDD形式の年月日 (ex: 20170106)
pub type OptionalDateString = Option<String>;

/// A calendar day written YYYYMMDD (ex: 20170106).
pub type CompactDate = String;

/// 秒
pub type Second = u32;

/// 順序 (ex: 0)
pub type Sequence = u32;

/// 電話番号 (ex: 03-2816-5700)
pub type TelephoneNumber = String;

/// 郵便番号 (ex: 1638001)
pub type ZipNumber = String;

/// メールアドレス
pub type MailAddress = String;

/// 住所 (ex: 東京都新宿区西新宿二丁目８番１号)
pub type Address = String;

/// Url
pub type Url = String;

/// An angle in millionths of a degree.
pub type MicroDegree = i32;

/// 緯度, in millionths of a degree.
pub type Latitude = MicroDegree;

/// 経度, in millionths of a degree.
pub type Longitude = MicroDegree;

/// A travelled distance, in thousandths of the feed's unit.
pub type Distance = i64;

/// Which way a trip or a pattern runs.
#[derive(Debug, Clone, Copy, PartialEq, Eq, Structural, Hash)]
pub enum DirectionId {
    /// Outbound (the default where the feed says nothing).
    Outbound,
    /// Inbound.
    Inbound,
}

/// Time zone of an agency or a stop.
#[derive(Debug, Clone, Copy, PartialEq, Eq, Structural, Hash)]
pub enum Timezone {
    /// Asia/Tokyo
    AsiaTokyo,
}

/// Language of a feed or of a translation.
#[derive(Debug, Clone, Copy, PartialEq, Eq, Structural, Hash)]
pub enum Lang {
    Ja,
    En,
    Ko,
    Th,
    Vi,
    Zh,
    ZhCn,
    ZhTw,
    ZhHans,
    ZhHant,
    /// ふりがな
    JaHrkt,
}

/// A failure of the store behind a port: it could not be read or written.
#[derive(Debug, Clone, PartialEq, Eq)]
pub struct StoreError {
    /// What went wrong, for a person to read.
    pub message: String,
}

/// The feed's CSV files.
pub trait GtfsCsvTrait {
    fn load_agencies(&mut self) -> Result<Vec<Agency>, StoreError>;

    fn load_agencies_jp(&mut self) -> Result<Vec<AgencyJp>, StoreError>;

    fn has_agency_jp(&mut self) -> bool;

    fn load_stops(&mut self) -> Result<Vec<Stop>, StoreError>;

    fn load_routes(&mut self) -> Result<Vec<Route>, StoreError>;

    fn load_routes_jp(&mut self) -> Result<Vec<RouteJp>, StoreError>;

    fn has_routes_jp(&mut self) -> bool;

    fn load_trips(&mut self) -> Result<Vec<Trip>, StoreError>;

    fn load_offices_jp(&mut self) -> Result<Vec<OfficeJp>, StoreError>;

    fn has_office_jp(&mut self) -> bool;

    fn load_stop_times(&mut self) -> Result<Vec<StopTime>, StoreError>;

    fn load_calendars(&mut self) -> Result<Vec<Calendar>, StoreError>;

    fn load_calendar_dates(&mut self) -> Result<Vec<CalendarDate>, StoreError>;

    fn has_calendar_dates(&mut self) -> bool;

    fn load_fare_attributes(&mut self) -> Result<Vec<FareAttribute>, StoreError>;

    fn has_fare_attributes(&mut self) -> bool;

    fn load_fare_rules(&mut self) -> Result<Vec<FareRule>, StoreError>;

    fn has_fare_rules(&mut self) -> bool;

    fn select_shapes(&mut self) -> Result<Vec<Shape>, StoreError>;

    fn has_shapes(&mut self) -> bool;

    fn load_frequencies(&mut self) -> Result<Vec<Frequency>, StoreError>;

    fn has_frequencies(&mut self) -> bool;

    fn load_transfers(&mut self) -> Result<Vec<Transfer>, StoreError>;

    fn has_transfers(&mut self) -> bool;

    fn load_feeds(&mut self) -> Result<Vec<Feed>, StoreError>;

    fn load_translations(&mut self) -> Result<Vec<Translation>, StoreError>;

    fn load_legacy_translations(&mut self) -> Result<Vec<LegacyTranslation>, StoreError>;
}

/// The relational database the feed is copied into.
pub trait GtfsDbTrait {
    fn create_all(&self) -> Result<(), StoreError>;

    fn drop_all(&self) -> Result<(), StoreError>;

    fn insert_agencies(&mut self, agencies: &[Agency]) -> Result<(), StoreError>;

    fn insert_agencies_jp(&mut self, agencies: &[AgencyJp]) -> Result<(), StoreError>;

    fn insert_stops(&mut self, stops: &[Stop]) -> Result<(), StoreError>;

    fn insert_routes(&mut self, routes: &[Route]) -> Result<(), StoreError>;

    fn select_routes(&mut self) -> Result<Vec<Route>, StoreError>;

    fn insert_routes_jp(&mut self, routes: &[RouteJp]) -> Result<(), StoreError>;

    fn insert_trips(&mut self, trips: &[Trip]) -> Result<(), StoreError>;

    fn insert_offices_jp(&mut self, offices: &[OfficeJp]) -> Result<(), StoreError>;

    fn insert_stop_times(&mut self, stop_times: &[StopTime]) -> Result<(), StoreError>;

    fn insert_calendars(&mut self, calendars: &[Calendar]) -> Result<(), StoreError>;

    fn insert_calendar_dates(&mut self, calendar_dates: &[CalendarDate]) -> Result<(), StoreError>;

    fn insert_fare_attributes(&mut self, fare_attributes: &[FareAttribute]) -> Result<(), StoreError>;

    fn insert_fare_rules(&mut self, fare_rules: &[FareRule]) -> Result<(), StoreError>;

    fn insert_shapes(&mut self, shapes: &[Shape]) -> Result<(), StoreError>;

    fn insert_frequencies(&mut self, frequencies: &[Frequency]) -> Result<(), StoreError>;

    fn insert_transfers(&mut self, transfers: &[Transfer]) -> Result<(), StoreError>;

    fn insert_feeds(&mut self, feeds: &[Feed]) -> Result<(), StoreError>;

    fn insert_translations(&mut self, translations: &[Translation]) -> Result<(), StoreError>;

    fn insert_legacy_translations(&mut self, translations: &[LegacyTranslation]) -> Result<(), StoreError>;

    /// Visits of the trips named (or of the trips that stop at a stop whose
    /// name starts with the prefix, or of every trip), sorted by trip id and
    /// then by stop sequence.
    /// Visits of the trips named (or of the trips that stop at a stop whose
    /// name starts with the prefix, or of every trip), sorted by trip id and
    /// then by stop sequence.
    fn select_stop_time_details(
        &mut self,
        trip_ids: Option<Vec<TripId>>,
        stop_name_prefix: Option<String>,
    ) -> Result<Vec<StopTimeDetail>, StoreError>;

    fn insert_trips2courses(&mut self, trip2courses: &[Trip2Course]) -> Result<(), StoreError>;

    fn insert_courses(&mut self, courses: &[Course]) -> Result<(), StoreError>;

    fn insert_service_routes(&mut self, service_routes: &[ServiceRoute]) -> Result<(), StoreError>;

    fn insert_trips2service_routes(&mut self, trips2service_routes: &[Trip2ServiceRoute]) -> Result<(), StoreError>;

    fn select_service_route_identity(&mut self) -> Result<Vec<ServiceRouteIdentity>, StoreError>;
}

} // verus!
