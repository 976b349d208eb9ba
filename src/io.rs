//! The formats in which records are read and written.
use vstd::prelude::*;

use crate::joined::same_text;

verus! {

/// A file format for records.
#[derive(Debug, Clone, Copy, PartialEq, Eq, Structural, Hash)]
pub enum Format {
    Csv,
    Tsv,
    Json,
    PJson,
    Yaml,
}

/// The name of a format on the command line.
pub open spec fn format_name(f: Format) -> Seq<char> {
    match f {
        Format::Csv => "csv"@,
        Format::Tsv => "tsv"@,
        Format::Json => "json"@,
        Format::PJson => "pjson"@,
        Format::Yaml => "yaml"@,
    }
}

impl Format {
    /// The names of all formats.
    pub const VARIANTS: [&'static str; 5] = ["csv", "tsv", "json", "pjson", "yaml"];

    /// The format's name: its variant in lower case.
    pub fn name(&self) -> (r: &'static str)
        ensures
            r@ == format_name(*self),
    {
        proof {
            reveal_strlit("csv");
            reveal_strlit("tsv");
            reveal_strlit("json");
            reveal_strlit("pjson");
            reveal_strlit("yaml");
        }
        match self {
            Format::Csv => "csv",
            Format::Tsv => "tsv",
            Format::Json => "json",
            Format::PJson => "pjson",
            Format::Yaml => "yaml",
        }
    }

    /// The format with the name `s`, if any.
    pub fn from_name(s: &str) -> (r: Option<Format>)
        ensures
            match r {
                Some(f) => format_name(f) == s@,
                None => forall|f: Format| format_name(f) != s@,
            },
    {
        proof {
            reveal_strlit("csv");
            reveal_strlit("tsv");
            reveal_strlit("json");
            reveal_strlit("pjson");
            reveal_strlit("yaml");
        }
        if same_text(s, "csv") {
            Some(Format::Csv)
        } else if same_text(s, "tsv") {
            Some(Format::Tsv)
        } else if same_text(s, "json") {
            Some(Format::Json)
        } else if same_text(s, "pjson") {
            Some(Format::PJson)
        } else if same_text(s, "yaml") {
            Some(Format::Yaml)
        } else {
            None
        }
    }

    /// Whether records can be read in this format (only CSV and TSV can).
    pub fn is_readable(&self) -> (r: bool)
        ensures
            r == (*self == Format::Csv || *self == Format::Tsv),
    {
        match self {
            Format::Csv | Format::Tsv => true,
            _ => false,
        }
    }

    /// The field separator of a delimited format: `,` (44) or a tab (9).
    pub fn delimiter(&self) -> (r: Option<u8>)
        ensures
            r == match *self {
                Format::Csv => Some(44u8),
                Format::Tsv => Some(9u8),
                _ => None::<u8>,
            },
    {
        match self {
            Format::Csv => Some(44u8),
            Format::Tsv => Some(9u8),
            _ => None,
        }
    }
}

} // verus!
