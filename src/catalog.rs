use vstd::prelude::*;
use crate::text::join2;
use crate::result::{PogoResult, row_view};
use crate::render::{ColumnDescriptor, raw_view};
use crate::executor::{RawRow, rows_match_columns, build_result};

verus! {

/// Lists every visible relation outside the system schemas, by schema and
/// name: schema, relation name and the one-letter relation kind.
pub const DESCRIBE_DATABASE_SQL: &'static str = "SELECT n.nspname AS schema_name, c.relname AS relation_name, c.relkind::text AS relation_kind FROM pg_catalog.pg_class c LEFT JOIN pg_catalog.pg_namespace n ON n.oid = c.relnamespace WHERE c.relkind IN ('r','p','v','m','S','f','') AND n.nspname <> 'pg_catalog' AND n.nspname <> 'information_schema' AND n.nspname !~ '^pg_toast' AND pg_catalog.pg_table_is_visible(c.oid) ORDER BY 1,2;";

/// The part of the column catalog query before the table name.
pub const DESCRIBE_TABLE_SQL_HEAD: &'static str = "SELECT table_name, column_name, data_type FROM information_schema.columns WHERE table_name = '";

/// The part of the foreign key catalog query before the table name.
pub const FOREIGN_KEYS_SQL_HEAD: &'static str = "SELECT tc.table_name, kcu.column_name, ccu.table_name AS foreign_table_name, ccu.column_name AS foreign_column_name FROM information_schema.table_constraints AS tc JOIN information_schema.key_column_usage AS kcu ON tc.constraint_name = kcu.constraint_name AND tc.table_schema = kcu.table_schema JOIN information_schema.constraint_column_usage AS ccu ON ccu.constraint_name = tc.constraint_name AND ccu.table_schema = tc.table_schema WHERE tc.constraint_type = 'FOREIGN KEY' AND tc.table_name = '";

/// What follows the table name in both catalog queries.
pub const SQL_TAIL: &'static str = "';";

/// The column catalog query for one table. The name is spliced in as given.
pub fn describe_table_sql(table_name: &str) -> (r: String)
    ensures
        r@ == DESCRIBE_TABLE_SQL_HEAD@ + table_name@ + SQL_TAIL@,
{
    let a = join2(DESCRIBE_TABLE_SQL_HEAD, table_name);
    join2(a.as_str(), SQL_TAIL)
}

/// The foreign key catalog query for one table. The name is spliced in as given.
pub fn get_foreign_keys_for_table(table_name: &str) -> (r: String)
    ensures
        r@ == FOREIGN_KEYS_SQL_HEAD@ + table_name@ + SQL_TAIL@,
{
    let a = join2(FOREIGN_KEYS_SQL_HEAD, table_name);
    join2(a.as_str(), SQL_TAIL)
}

/// The label of a relation kind code; empty for a code with no label.
pub open spec fn relation_kind_text(code: Seq<char>) -> Seq<char> {
    if code.len() != 1 {
        Seq::empty()
    } else if code[0] == 'r' || code[0] == 'p' {
        "table"@
    } else if code[0] == 'v' {
        "view"@
    } else if code[0] == 'm' {
        "materialized view"@
    } else if code[0] == 'i' || code[0] == 'I' {
        "index"@
    } else if code[0] == 'S' {
        "sequence"@
    } else if code[0] == 's' {
        "special"@
    } else if code[0] == 'f' {
        "foreign table"@
    } else {
        Seq::empty()
    }
}

/// Maps a relation kind code to a human label.
pub fn relation_kind_label(code: &str) -> (r: String)
    ensures
        r@ == relation_kind_text(code@),
{
    if code.unicode_len() != 1 {
        return String::new();
    }
    let c = code.get_char(0);
    if c == 'r' || c == 'p' {
        String::from_str("table")
    } else if c == 'v' {
        String::from_str("view")
    } else if c == 'm' {
        String::from_str("materialized view")
    } else if c == 'i' || c == 'I' {
        String::from_str("index")
    } else if c == 'S' {
        String::from_str("sequence")
    } else if c == 's' {
        String::from_str("special")
    } else if c == 'f' {
        String::from_str("foreign table")
    } else {
        String::new()
    }
}

/// The fixed header of a database description.
pub open spec fn database_header() -> Seq<Seq<char>> {
    seq!["SCHEMA"@, "TABLE NAME"@, "TYPE"@]
}

/// One row of a database description: schema and name as rendered, and the
/// label of the relation kind.
pub open spec fn database_row(columns: Seq<ColumnDescriptor>, raw: RawRow) -> Seq<Seq<char>> {
    seq![
        columns[0].render_view(raw_view(raw@[0])),
        columns[1].render_view(raw_view(raw@[1])),
        relation_kind_text(columns[2].render_view(raw_view(raw@[2]))),
    ]
}

/// Builds the database description from the columns and rows of
/// `DESCRIBE_DATABASE_SQL`. The header is always `SCHEMA`, `TABLE NAME`, `TYPE`.
pub fn describe_database(columns: &Vec<ColumnDescriptor>, rows: &Vec<RawRow>) -> (r: PogoResult)
    requires
        columns@.len() == 3,
        rows_match_columns(columns@, rows@),
    ensures
        r.header_view() == database_header(),
        r.rows@.len() == rows@.len(),
        forall|i: int| 0 <= i < rows@.len() ==> #[trigger] r.rows_view()[i] == database_row(columns@, rows@[i]),
        r.well_formed(),
{
    let q = build_result(columns, rows);
    let mut header: Vec<String> = Vec::new();
    header.push(String::from_str("SCHEMA"));
    header.push(String::from_str("TABLE NAME"));
    header.push(String::from_str("TYPE"));
    assert(q.header_view().len() == q.header@.len());
    let mut out: Vec<Vec<String>> = Vec::new();
    let mut i: usize = 0;
    while i < q.rows.len()
        invariant
            q.rows@.len() == rows@.len(),
            columns@.len() == 3,
            header@.len() == 3,
            forall|k: int, j: int|
                0 <= k < rows@.len() && 0 <= j < 3 ==> #[trigger] q.rows@[k]@[j]@
                    == columns@[j].render_view(raw_view(rows@[k]@[j])),
            q.well_formed(),
            q.header@.len() == 3,
            rows_match_columns(columns@, rows@),
            i <= rows@.len(),
            out@.len() == i,
            forall|k: int| 0 <= k < i ==> #[trigger] out@[k]@.len() == 3,
            forall|k: int| 0 <= k < i ==> #[trigger] row_view(out@[k]) == database_row(columns@, rows@[k]),
        decreases rows@.len() - i,
    {
        let src = &q.rows[i];
        assert(src@.len() == 3);
        let mut row: Vec<String> = Vec::new();
        row.push(src[0].clone());
        row.push(src[1].clone());
        row.push(relation_kind_label(src[2].as_str()));
        proof {
            assert(q.rows@[i as int]@[0]@ == columns@[0].render_view(raw_view(rows@[i as int]@[0])));
            assert(q.rows@[i as int]@[1]@ == columns@[1].render_view(raw_view(rows@[i as int]@[1])));
            assert(q.rows@[i as int]@[2]@ == columns@[2].render_view(raw_view(rows@[i as int]@[2])));
            assert(row_view(row) =~= database_row(columns@, rows@[i as int]));
        }
        out.push(row);
        i = i + 1;
    }
    let r = PogoResult { header, rows: out };
    assert(r.header_view() =~= database_header());
    r
}

} // verus!
