use vstd::prelude::*;

use crate::external::gtfs::CompactDate;
use crate::external::gtfscsv::GTFSFile;
use crate::external::gtfsdb::Table;

verus! {

/// 運行日ID (ex: 平日(月～金))
pub type ServiceId = String;

/// 運行状態
#[derive(Debug, Clone, Copy, PartialEq, Eq, Structural, Hash)]
pub enum OperationStatus {
    /// 非運行
    Absent,
    /// 運行
    Present,
}

/// 運行区分情報
/// https://www.gtfs.jp/developpers-guide/format-reference.html#calendar
#[derive(Debug, Clone, PartialEq, Eq, Hash)]
pub struct Calendar {
    /// 運行日ID
    pub service_id: ServiceId,
    /// 月曜日
    pub monday: OperationStatus,
    /// 火曜日
    pub tuesday: OperationStatus,
    /// 水曜日
    pub wednesday: OperationStatus,
    /// 木曜日
    pub thursday: OperationStatus,
    /// 金曜日
    pub friday: OperationStatus,
    /// 土曜日
    pub saturday: OperationStatus,
    /// 日曜日
    pub sunday: OperationStatus,
    /// サービス開始日
    pub start_date: CompactDate,
    /// サービス終了日
    pub end_date: CompactDate,
}

impl Table for Calendar {
    fn table_name() -> &'static str {
        "calendar"
    }

    fn column_names() -> &'static [&'static str] {
        &[
            "service_id",
            "monday",
            "tuesday",
            "wednesday",
            "thursday",
            "friday",
            "saturday",
            "sunday",
            "start_date",
            "end_date",
        ]
    }

    fn create_sql() -> &'static str {
        "
        service_id text primary key,
        monday int not null,
        tuesday int not null,
        wednesday int not null,
        thursday int not null,
        friday int not null,
        saturday int not null,
        sunday int not null,
        start_date text not null,
        end_date text not null
        "
    }
}

impl GTFSFile for Calendar {
    fn file_name() -> &'static str {
        "calendar.txt"
    }
}

} // verus!
