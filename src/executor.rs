use vstd::prelude::*;
use crate::render::{ColumnDescriptor, raw_view, render_value, column_label};
use crate::result::PogoResult;

verus! {

/// The raw values of one database row, one per column; `None` is SQL NULL.
pub type RawRow = Vec<Option<Vec<u8>>>;

/// Every raw row has one value per column.
pub open spec fn rows_match_columns(columns: Seq<ColumnDescriptor>, rows: Seq<RawRow>) -> bool {
    forall|i: int| 0 <= i < rows.len() ==> #[trigger] rows[i]@.len() == columns.len()
}

/// The header that a query's columns give: one `"<name> (<type>)"` label each.
pub open spec fn header_of(columns: Seq<ColumnDescriptor>) -> Seq<Seq<char>> {
    columns.map_values(|c: ColumnDescriptor| c.label_view())
}

/// The result that a query's columns and raw rows give: the header of the
/// columns, and each cell rendered by the declared type of its column.
pub open spec fn is_query_result(r: PogoResult, columns: Seq<ColumnDescriptor>, rows: Seq<RawRow>) -> bool {
    &&& r.header_view() == header_of(columns)
    &&& r.rows@.len() == rows.len()
    &&& forall|i: int, j: int|
        0 <= i < rows.len() && 0 <= j < columns.len() ==> #[trigger] r.rows@[i]@[j]@
            == columns[j].render_view(raw_view(rows[i]@[j]))
    &&& r.well_formed()
}

fn render_row(columns: &Vec<ColumnDescriptor>, row: &RawRow) -> (r: Vec<String>)
    requires
        row@.len() == columns@.len(),
    ensures
        r@.len() == columns@.len(),
        forall|j: int| 0 <= j < columns@.len() ==> #[trigger] r@[j]@ == columns@[j].render_view(
            raw_view(row@[j]),
        ),
{
    let mut out: Vec<String> = Vec::new();
    let mut j: usize = 0;
    while j < columns.len()
        invariant
            row@.len() == columns@.len(),
            j <= columns@.len(),
            out@.len() == j,
            forall|k: int| 0 <= k < j ==> #[trigger] out@[k]@ == columns@[k].render_view(
                raw_view(row@[k]),
            ),
        decreases columns@.len() - j,
    {
        let cell = render_value(&columns[j], &row[j]);
        out.push(cell);
        j = j + 1;
    }
    out
}

/// The header of a query's columns.
pub fn get_header(columns: &Vec<ColumnDescriptor>) -> (r: Vec<String>)
    ensures
        r@.len() == columns@.len(),
        r@.map_values(|c: String| c@) == header_of(columns@),
{
    let mut out: Vec<String> = Vec::new();
    let mut j: usize = 0;
    while j < columns.len()
        invariant
            j <= columns@.len(),
            out@.len() == j,
            forall|k: int| 0 <= k < j ==> #[trigger] out@[k]@ == columns@[k].label_view(),
        decreases columns@.len() - j,
    {
        let label = column_label(&columns[j]);
        out.push(label);
        j = j + 1;
    }
    assert(out@.map_values(|c: String| c@) =~= header_of(columns@));
    out
}

/// Builds the result of a query from the columns the driver described and
/// the raw rows it returned, in the order returned. The header comes from the
/// columns, so a query with no rows still has one.
pub fn build_result(columns: &Vec<ColumnDescriptor>, rows: &Vec<RawRow>) -> (r: PogoResult)
    requires
        rows_match_columns(columns@, rows@),
    ensures
        is_query_result(r, columns@, rows@),
{
    let header = get_header(columns);
    let mut out: Vec<Vec<String>> = Vec::new();
    let mut i: usize = 0;
    while i < rows.len()
        invariant
            rows_match_columns(columns@, rows@),
            header@.len() == columns@.len(),
            i <= rows@.len(),
            out@.len() == i,
            forall|k: int| 0 <= k < i ==> #[trigger] out@[k]@.len() == columns@.len(),
            forall|k: int, j: int|
                0 <= k < i && 0 <= j < columns@.len() ==> #[trigger] out@[k]@[j]@
                    == columns@[j].render_view(raw_view(rows@[k]@[j])),
        decreases rows@.len() - i,
    {
        let row = render_row(columns, &rows[i]);
        out.push(row);
        i = i + 1;
    }
    PogoResult { header, rows: out }
}

/// A result built from a query's columns and rows has one cell per header
/// column in every row.
pub proof fn lemma_query_rows_match_header(r: PogoResult, columns: Seq<ColumnDescriptor>, rows: Seq<RawRow>)
    requires
        is_query_result(r, columns, rows),
    ensures
        forall|i: int| 0 <= i < r.rows@.len() ==> #[trigger] r.rows@[i]@.len() == r.header@.len(),
{
}

} // verus!
