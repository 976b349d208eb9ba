use vstd::prelude::*;

use crate::external::gtfs::trips::TripId;
use crate::external::gtfs::{Second, UnlimitedTime};
use crate::external::gtfscsv::GTFSFile;
use crate::external::gtfsdb::Table;

verus! {

/// 利用タイプ
#[derive(Debug, Clone, Copy, PartialEq, Eq, Structural, Hash)]
pub enum GuideExactTimes {
    /// 時刻を案内しない
    Yes,
    /// 時刻を案内する
    No,
}

/// 運行間隔情報
/// https://www.gtfs.jp/developpers-guide/format-reference.html#frequencies
#[derive(Debug, Clone, PartialEq, Eq, Hash)]
pub struct Frequency {
    /// 便ID
    pub trip_id: TripId,
    /// 開始時刻
    pub start_time: UnlimitedTime,
    /// 終了時刻
    pub end_time: UnlimitedTime,
    /// 運行間隔
    pub headway_secs: Second,
    /// 案内精度
    pub exact_times: Option<GuideExactTimes>,
}

impl Table for Frequency {
    fn table_name() -> &'static str {
        "frequencies"
    }

    fn column_names() -> &'static [&'static str] {
        &[
            "trip_id",
            "start_time",
            "end_time",
            "headway_secs",
            "exact_times",
        ]
    }

    fn create_sql() -> &'static str {
        "
        trip_id text not null,
        start_time text not null,
        end_time text not null,
        headway_secs int not null,
        exact_times int,
        PRIMARY KEY(trip_id, start_time)
        "
    }
}

impl GTFSFile for Frequency {
    fn file_name() -> &'static str {
        "frequencies.txt"
    }
}

} // verus!
