use vstd::prelude::*;

use crate::external::gtfs::CompactDate;
use crate::external::gtfscsv::GTFSFile;
use crate::external::gtfsdb::Table;

verus! {

/// 運行日ID (ex: 平日(月～金))
pub type ServiceId = String;

/// 利用タイプ
#[derive(Debug, Clone, Copy, PartialEq, Eq, Structural, Hash)]
pub enum ExceptionType {
    /// 運行区分適用
    Apply,
    /// 運行区分非適用
    NotApply,
}

/// 運行区分情報
/// https://www.gtfs.jp/developpers-guide/format-reference.html#calendar
#[derive(Debug, Clone, PartialEq, Eq, Hash)]
pub struct CalendarDate {
    /// サービスID
    pub service_id: ServiceId,
    /// 日付
    pub date: CompactDate,
    /// 利用タイプ
    pub exception_type: ExceptionType,
}

impl Table for CalendarDate {
    fn table_name() -> &'static str {
        "calendar_dates"
    }

    fn column_names() -> &'static [&'static str] {
        &[
            "service_id",
            "date",
            "exception_type",
        ]
    }

    fn create_sql() -> &'static str {
        "
        service_id text,
        date text,
        exception_type int not null,
        PRIMARY KEY(service_id, date)
        "
    }
}

impl GTFSFile for CalendarDate {
    fn file_name() -> &'static str {
        "calendar_dates.txt"
    }
}

} // verus!
