use vstd::prelude::*;

use crate::external::gtfs::Lang;
use crate::external::gtfs::legacy_translations::LegacyTranslation;
use crate::external::gtfscsv::GTFSFile;
use crate::external::gtfsdb::Table;

verus! {

#[derive(Debug, Clone, Copy, PartialEq, Eq, Structural, Hash)]
pub enum TranslatableTableName {
    Agency,
    Stops,
    Routes,
    Trips,
    StopTimes,
    FeedInfo,
    Pathways,
    Levels,
    Attributions,
}

/// 翻訳情報
#[derive(Debug, Clone, PartialEq, Eq, Hash)]
pub struct Translation {
    /// テーブル名
    pub table_name: TranslatableTableName,
    /// フィールド名
    pub field_name: String,
    /// 言語
    pub language: Lang,
    /// 翻訳済み値
    pub translation: String,
    /// レコードID
    pub record_id: Option<String>,
    /// レコードサブID
    pub record_sub_id: Option<String>,
    /// フィールド値
    pub field_value: Option<String>,
}

impl Table for Translation {
    fn table_name() -> &'static str {
        "translations"
    }

    fn column_names() -> &'static [&'static str] {
        &[
            "table_name",
            "field_name",
            "language",
            "translation",
            "record_id",
            "record_sub_id",
            "field_value",
        ]
    }

    fn create_sql() -> &'static str {
        "
        table_name text not null,
        field_name text not null,
        language text not null,
        translation text not null,
        record_id text,
        record_sub_id text,
        field_value text
        "
    }
}

impl GTFSFile for Translation {
    fn file_name() -> &'static str {
        "translations.txt"
    }
}

/// The table and field that a legacy translation is spread to, for each of
/// the six translations it becomes.
pub open spec fn legacy_targets() -> Seq<(TranslatableTableName, Seq<char>)> {
    seq![
        (TranslatableTableName::Stops, "stop_name"@),
        (TranslatableTableName::Routes, "route_short_name"@),
        (TranslatableTableName::Routes, "route_long_name"@),
        (TranslatableTableName::Trips, "trip_headsign"@),
        (TranslatableTableName::Trips, "trip_short_name"@),
        (TranslatableTableName::StopTimes, "stop_headsign"@),
    ]
}

/// `t` carries the legacy translation `l` to the field `field` of `table`,
/// matching records by the original text.
pub open spec fn translates(
    t: Translation,
    l: LegacyTranslation,
    table: TranslatableTableName,
    field: Seq<char>,
) -> bool {
    &&& t.table_name == table
    &&& t.field_name@ == field
    &&& t.language == l.lang
    &&& t.translation@ == l.translation@
    &&& t.record_id is None
    &&& t.record_sub_id is None
    &&& t.field_value is Some
    &&& t.field_value->Some_0@ == l.trans_id@
}

fn translation_for(regacy: &LegacyTranslation, table: TranslatableTableName, field: &str) -> (r: Translation)
    ensures
        translates(r, *regacy, table, field@),
{
    Translation {
        table_name: table,
        field_name: field.to_owned(),
        language: regacy.lang,
        translation: regacy.translation.clone(),
        record_id: None,
        record_sub_id: None,
        field_value: Some(regacy.trans_id.clone()),
    }
}

impl Translation {
    /// The current translations of a legacy one: the same text and language,
    /// for the stop name, the short and long route names, the trip headsign
    /// and short name, and the stop headsign, each matched by the original text.
    pub fn from_legacy(regacy: &LegacyTranslation) -> (r: Vec<Translation>)
        ensures
            r@.len() == legacy_targets().len(),
            forall|i: int|
                0 <= i < r@.len() ==> translates(
                    #[trigger] r@[i],
                    *regacy,
                    legacy_targets()[i].0,
                    legacy_targets()[i].1,
                ),
    {
        let r = vec![
            translation_for(regacy, TranslatableTableName::Stops, "stop_name"),
            translation_for(regacy, TranslatableTableName::Routes, "route_short_name"),
            translation_for(regacy, TranslatableTableName::Routes, "route_long_name"),
            translation_for(regacy, TranslatableTableName::Trips, "trip_headsign"),
            translation_for(regacy, TranslatableTableName::Trips, "trip_short_name"),
            translation_for(regacy, TranslatableTableName::StopTimes, "stop_headsign"),
        ];
        proof {
            reveal_strlit("stop_name");
            reveal_strlit("route_short_name");
            reveal_strlit("route_long_name");
            reveal_strlit("trip_headsign");
            reveal_strlit("trip_short_name");
            reveal_strlit("stop_headsign");
        }
        r
    }
}

} // verus!
