use vstd::prelude::*;

use crate::external::gtfs::DirectionId;
use crate::external::gtfs::calendar::ServiceId;
use crate::external::gtfs::office_jp::JpOfficeId;
use crate::external::gtfs::routes::RouteId;
use crate::external::gtfscsv::GTFSFile;
use crate::external::gtfsdb::Table;

verus! {

/// 便ID (ex: 1001_WD_001)
pub type TripId = String;

#[derive(Debug, Clone, Copy, PartialEq, Eq, Structural, Hash)]
pub enum WheelchairAccessible {
    /// 車いすによる乗車可否の情報なし
    Unknown,
    /// 少なくとも1台の車いすによる乗車可能
    Allow,
    /// 車いすによる乗車不可
    Deny,
}

#[derive(Debug, Clone, Copy, PartialEq, Eq, Structural, Hash)]
pub enum BikesAllowed {
    /// 自転車の持込可否の情報なし
    Unknown,
    /// 少なくとも1台の自転車の持込可能
    Allow,
    /// 自転車の持込不可
    Deny,
}

/// 便情報
/// https://www.gtfs.jp/developpers-guide/format-reference.html#trips
#[derive(Debug, Clone, PartialEq, Eq, Hash)]
pub struct Trip {
    /// 経路ID
    pub route_id: RouteId,
    /// 運行日ID
    pub service_id: ServiceId,
    /// 便ID
    pub trip_id: TripId,
    /// 便行き先 (ex: 東京ビッグサイト（月島駅経由）)
    pub trip_headsign: Option<String>,
    /// 便名称
    pub trip_short_name: Option<String>,
    /// 上下区分
    pub direction_id: Option<DirectionId>,
    /// 便結合区分
    pub block_id: Option<String>,
    /// 描画ID (ex: S_1001)
    pub shape_id: Option<String>,
    /// 車いす利用区分
    pub wheelchair_accessible: Option<WheelchairAccessible>,
    /// 自転車持込区分
    pub bikes_allowed: Option<BikesAllowed>,
    /// 便情報
    pub jp_trip_desc: Option<String>,
    /// 便記号
    pub jp_trip_desc_symbol: Option<String>,
    /// 営業所ID
    pub jp_office_id: Option<JpOfficeId>,
}

impl Table for Trip {
    fn table_name() -> &'static str {
        "trips"
    }

    fn column_names() -> &'static [&'static str] {
        &[
            "route_id",
            "service_id",
            "trip_id",
            "trip_headsign",
            "trip_short_name",
            "direction_id",
            "block_id",
            "shape_id",
            "wheelchair_accessible",
            "bikes_allowed",
            "jp_trip_desc",
            "jp_trip_desc_symbol",
            "jp_office_id",
        ]
    }

    fn create_sql() -> &'static str {
        "
         route_id text not null,
         service_id text not null,
         trip_id text primary key,
         trip_headsign text,
         trip_short_name text,
         direction_id int,
         block_id text,
         shape_id text,
         wheelchair_accessible int,
         bikes_allowed int,
         jp_trip_desc text,
         jp_trip_desc_symbol text,
         jp_office_id text
        "
    }
}

impl GTFSFile for Trip {
    fn file_name() -> &'static str {
        "trips.txt"
    }
}

} // verus!
