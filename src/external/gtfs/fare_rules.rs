use vstd::prelude::*;

use crate::external::gtfs::fare_attributes::FareId;
use crate::external::gtfs::routes::RouteId;
use crate::external::gtfs::stops::ZoneId;
use crate::external::gtfscsv::GTFSFile;
use crate::external::gtfsdb::Table;

verus! {

/// 運賃定義情報
/// https://www.gtfs.jp/developpers-guide/format-reference.html#fare
#[derive(Debug, Clone, PartialEq, Eq, Hash)]
pub struct FareRule {
    /// 運賃ID
    pub fare_id: FareId,
    /// 経路ID
    pub route_id: Option<RouteId>,
    /// 乗車地ゾーン
    pub origin_id: Option<ZoneId>,
    /// 降車地ゾーン
    pub destination_id: Option<ZoneId>,
    /// 通過ゾーン (JPでは使わない)
    pub contains_id: Option<ZoneId>,
}

impl Table for FareRule {
    fn table_name() -> &'static str {
        "fare_rules"
    }

    fn column_names() -> &'static [&'static str] {
        &[
            "fare_id",
            "route_id",
            "origin_id",
            "destination_id",
            "contains_id",
        ]
    }

    fn create_sql() -> &'static str {
        "
        fare_id text not null,
        route_id text,
        origin_id text,
        destination_id text,
        contains_id text,
        PRIMARY KEY(fare_id, route_id, origin_id, destination_id)
        "
    }
}

impl GTFSFile for FareRule {
    fn file_name() -> &'static str {
        "fare_rules.txt"
    }
}

} // verus!
