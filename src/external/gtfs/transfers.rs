use vstd::prelude::*;

use crate::external::gtfs::Second;
use crate::external::gtfs::stops::StopId;
use crate::external::gtfscsv::GTFSFile;
use crate::external::gtfsdb::Table;

verus! {

/// 利用タイプ
#[derive(Debug, Clone, Copy, PartialEq, Eq, Structural, Hash)]
pub enum TransferType {
    /// 2つの経路間の推奨乗換地点
    Recommended,
    /// 2つの経路間で時間に余裕のある乗換地点
    Afford,
    /// 2つの経路間で時間ギリギリの乗換地点
    Barely,
    /// 2つの経路間で乗換が不可能
    Impossible,
}

/// 乗換情報
/// https://www.gtfs.jp/developpers-guide/format-reference.html#transfers
#[derive(Debug, Clone, PartialEq, Eq, Hash)]
pub struct Transfer {
    /// 乗換元標柱ID
    pub from_stop_id: StopId,
    /// 乗換先標柱ID
    pub to_stop_id: StopId,
    /// 乗換タイプ
    pub transfer_type: TransferType,
    /// 乗換時間
    pub min_transfer_time: Option<Second>,
}

impl Table for Transfer {
    fn table_name() -> &'static str {
        "transfers"
    }

    fn column_names() -> &'static [&'static str] {
        &[
            "from_stop_id",
            "to_stop_id",
            "transfer_type",
            "min_transfer_time",
        ]
    }

    fn create_sql() -> &'static str {
        "
        from_stop_id text not null,
        to_stop_id text not null,
        transfer_type int not null,
        min_transfer_time int,
        PRIMARY KEY(from_stop_id, to_stop_id)
        "
    }
}

impl GTFSFile for Transfer {
    fn file_name() -> &'static str {
        "transfers.txt"
    }
}

} // verus!
