//! The relational database: each record type names its table, its columns and
//! the SQL that declares them; the statements that create, drop and fill a
//! table are built from those.
use vstd::prelude::*;
use vstd::string::StringExecFns;

use crate::joined::{comma_joined, lemma_join_push};

verus! {

/// A record type stored as one table.
pub trait Table {
    /// The table's name.
    fn table_name() -> &'static str;

    /// The table's columns, in the order of the record's fields.
    fn column_names() -> &'static [&'static str];

    /// The column declarations of `CREATE TABLE`.
    fn create_sql() -> &'static str;
}

/// The columns, each behind `prefix`.
pub open spec fn prefixed(prefix: Seq<char>, columns: Seq<&str>) -> Seq<Seq<char>> {
    columns.map_values(|c: &str| prefix + c@)
}

/// `CREATE TABLE IF NOT EXISTS {table_name} ({create_sql})`
pub open spec fn create_statement_of(table_name: Seq<char>, create_sql: Seq<char>) -> Seq<char> {
    "CREATE TABLE IF NOT EXISTS "@ + table_name + " ("@ + create_sql + ")"@
}

/// `DROP TABLE IF EXISTS {table_name}`
pub open spec fn drop_statement_of(table_name: Seq<char>) -> Seq<char> {
    "DROP TABLE IF EXISTS "@ + table_name
}

/// `INSERT INTO {table_name} ({c1},{c2},..) VALUES (:{c1},:{c2},..)`
pub open spec fn insert_statement_of(table_name: Seq<char>, columns: Seq<&str>) -> Seq<char> {
    "INSERT INTO "@ + table_name + " ("@ + comma_joined(prefixed(seq![], columns))
        + ") VALUES ("@ + comma_joined(prefixed(":"@, columns)) + ")"@
}

/// The columns comma-joined, each behind `prefix`.
pub fn join_columns(columns: &[&str], prefix: &str) -> (r: String)
    ensures
        r@ == comma_joined(prefixed(prefix@, columns@)),
{
    let mut r = String::new();
    let mut i: usize = 0;
    while i < columns.len()
        invariant
            i <= columns@.len(),
            r@ == comma_joined(prefixed(prefix@, columns@).take(i as int)),
        decreases columns@.len() - i,
    {
        let ghost parts = prefixed(prefix@, columns@);
        proof {
            lemma_join_push(parts.take(i as int), parts[i as int]);
            assert(parts.take(i as int).push(parts[i as int]) =~= parts.take(i + 1));
            reveal_strlit(",");
        }
        if i > 0 {
            r = r.concat(",");
        }
        r = r.concat(prefix).concat(columns[i]);
        i = i + 1;
    }
    proof {
        assert(prefixed(prefix@, columns@).take(i as int) =~= prefixed(prefix@, columns@));
    }
    r
}

/// The statement that creates a table unless it exists.
pub fn create_statement(table_name: &str, create_sql: &str) -> (r: String)
    ensures
        r@ == create_statement_of(table_name@, create_sql@),
{
    "CREATE TABLE IF NOT EXISTS ".to_owned().concat(table_name).concat(" (").concat(create_sql).concat(")")
}

/// The statement that drops a table if it exists.
pub fn drop_statement(table_name: &str) -> (r: String)
    ensures
        r@ == drop_statement_of(table_name@),
{
    "DROP TABLE IF EXISTS ".to_owned().concat(table_name)
}

/// The statement that inserts one record, its values bound by column name.
pub fn insert_statement(table_name: &str, columns: &[&str]) -> (r: String)
    ensures
        r@ == insert_statement_of(table_name@, columns@),
{
    let names = join_columns(columns, "");
    let params = join_columns(columns, ":");
    proof {
        reveal_strlit("");
        assert(prefixed(""@, columns@) =~= prefixed(seq![], columns@)) by {
            assert forall|i: int| 0 <= i < columns@.len() implies prefixed(""@, columns@)[i] == prefixed(
                seq![],
                columns@,
            )[i] by {
                assert(""@ + columns@[i]@ =~= seq![] + columns@[i]@);
            }
        }
    }
    "INSERT INTO ".to_owned().concat(table_name).concat(" (").concat(names.as_str()).concat(
        ") VALUES (",
    ).concat(params.as_str()).concat(")")
}

} // verus!
