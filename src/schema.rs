use vstd::prelude::*;
use crate::text::{contains, contains_seq, join2, copy_strings};
use crate::result::{PogoResult, PogoError, row_view};
use crate::pairs::{pairs_view, lookup_last, lookup_pair};

verus! {

/// Header position `i` is the first whose label contains `name`.
pub open spec fn is_first_containing(header: Seq<Seq<char>>, name: Seq<char>, i: int) -> bool {
    &&& 0 <= i < header.len()
    &&& contains_seq(header[i], name)
    &&& forall|j: int| 0 <= j < i ==> !contains_seq(#[trigger] header[j], name)
}

/// The position of the first header label that contains `name`, if any.
pub open spec fn first_containing(header: Seq<Seq<char>>, name: Seq<char>) -> Option<int> {
    if exists|i: int| is_first_containing(header, name, i) {
        Some(choose|i: int| is_first_containing(header, name, i))
    } else {
        None
    }
}

pub open spec fn index_view(r: Option<usize>) -> Option<int> {
    match r {
        Some(i) => Some(i as int),
        None => None,
    }
}

proof fn lemma_first_unique(header: Seq<Seq<char>>, name: Seq<char>, i: int, j: int)
    requires
        is_first_containing(header, name, i),
        is_first_containing(header, name, j),
    ensures
        i == j,
{
    if i < j {
        assert(!contains_seq(header[i], name));
    } else if j < i {
        assert(!contains_seq(header[j], name));
    }
}

/// Finds a column by name in a header whose labels may carry a type suffix:
/// the first label that contains `name`.
pub fn get_column_index_by_name(name: &str, columns: &Vec<String>) -> (r: Option<usize>)
    ensures
        index_view(r) == first_containing(row_view(*columns), name@),
{
    let ghost h = row_view(*columns);
    let mut i: usize = 0;
    while i < columns.len()
        invariant
            h == row_view(*columns),
            i <= columns@.len(),
            forall|j: int| 0 <= j < i ==> !contains_seq(#[trigger] h[j], name@),
        decreases columns@.len() - i,
    {
        if contains(columns[i].as_str(), name) {
            proof {
                assert(is_first_containing(h, name@, i as int));
                let c = choose|c: int| is_first_containing(h, name@, c);
                lemma_first_unique(h, name@, c, i as int);
            }
            return Some(i);
        }
        i = i + 1;
    }
    assert forall|k: int| !is_first_containing(h, name@, k) by {
        if 0 <= k < h.len() {
            assert(!contains_seq(h[k], name@));
        }
    }
    None
}

/// The text that describes a referenced column: `"table(column)"`.
pub open spec fn reference_text(table: Seq<char>, column: Seq<char>) -> Seq<char> {
    table + seq!['('] + column + seq![')']
}

/// The pairs read off the rows of a foreign key query, one per row.
pub open spec fn fk_entries(rows: Seq<Seq<Seq<char>>>, ci: int, ti: int, fi: int) -> Seq<(Seq<char>, Seq<char>)> {
    rows.map_values(|row: Seq<Seq<char>>| (row[ci], reference_text(row[ti], row[fi])))
}

/// The foreign key map of a foreign key query's result, or `None` when one of
/// the columns it needs is missing from the header.
pub open spec fn fk_map_of(header: Seq<Seq<char>>, rows: Seq<Seq<Seq<char>>>) -> Option<Seq<(Seq<char>, Seq<char>)>> {
    match (
        first_containing(header, "column_name"@),
        first_containing(header, "foreign_table_name"@),
        first_containing(header, "foreign_column_name"@),
    ) {
        (Some(ci), Some(ti), Some(fi)) => Some(fk_entries(rows, ci, ti, fi)),
        _ => None,
    }
}

/// The cell appended to a described column: what it references, or empty.
pub open spec fn reference_cell(entries: Seq<(Seq<char>, Seq<char>)>, key: Seq<char>) -> Seq<char> {
    match lookup_last(entries, key) {
        Some(v) => v,
        None => Seq::empty(),
    }
}

/// The rows of a table description, each with its reference cell appended.
pub open spec fn merged_rows(rows: Seq<Seq<Seq<char>>>, ci: int, entries: Seq<(Seq<char>, Seq<char>)>) -> Seq<Seq<Seq<char>>> {
    rows.map_values(|row: Seq<Seq<char>>| row.push(reference_cell(entries, row[ci])))
}

/// Whether `e` reports a missing column named `name`.
pub open spec fn is_missing_column(e: PogoError, name: Seq<char>) -> bool {
    e matches PogoError::ColumnNotFound(n) && n@ == name
}

fn missing_column(name: &str) -> (e: PogoError)
    ensures
        is_missing_column(e, name@),
{
    PogoError::ColumnNotFound(String::from_str(name))
}

fn reference_cell_exec(keys: &Vec<(String, String)>, key: &str) -> (r: String)
    ensures
        r@ == reference_cell(pairs_view(*keys), key@),
{
    match lookup_pair(keys, key) {
        Some(s) => s,
        None => String::new(),
    }
}

fn reference_string(table: &str, column: &str) -> (r: String)
    ensures
        r@ == reference_text(table@, column@),
{
    proof {
        reveal_strlit("(");
        reveal_strlit(")");
    }
    let a = join2(table, "(");
    let b = join2(a.as_str(), column);
    join2(b.as_str(), ")")
}

/// Builds the foreign key map from the result of the foreign key query: for
/// each row, its `column_name` cell paired with `"foreign_table_name(foreign_column_name)"`.
/// Fails when a needed column is missing from the header.
pub fn map_foreign_keys(foreign_keys: &PogoResult) -> (r: Result<Vec<(String, String)>, PogoError>)
    requires
        foreign_keys.well_formed(),
    ensures
        r is Ok <==> fk_map_of(foreign_keys.header_view(), foreign_keys.rows_view()) is Some,
        r matches Ok(m) ==> fk_map_of(foreign_keys.header_view(), foreign_keys.rows_view())
            == Some(pairs_view(m)),
        r matches Err(e) ==> is_missing_column(e, "column_name"@) || is_missing_column(
            e,
            "foreign_table_name"@,
        ) || is_missing_column(e, "foreign_column_name"@),
{
    let ghost h = foreign_keys.header_view();
    assert(row_view(foreign_keys.header) == h);
    let ci = match get_column_index_by_name("column_name", &foreign_keys.header) {
        Some(i) => i,
        None => return Err(missing_column("column_name")),
    };
    let ti = match get_column_index_by_name("foreign_table_name", &foreign_keys.header) {
        Some(i) => i,
        None => return Err(missing_column("foreign_table_name")),
    };
    let fi = match get_column_index_by_name("foreign_column_name", &foreign_keys.header) {
        Some(i) => i,
        None => return Err(missing_column("foreign_column_name")),
    };
    let ghost rv = foreign_keys.rows_view();
    let mut out: Vec<(String, String)> = Vec::new();
    let mut k: usize = 0;
    while k < foreign_keys.rows.len()
        invariant
            foreign_keys.well_formed(),
            rv == foreign_keys.rows_view(),
            ci < foreign_keys.header@.len(),
            ti < foreign_keys.header@.len(),
            fi < foreign_keys.header@.len(),
            k <= foreign_keys.rows@.len(),
            out@.len() == k,
            forall|j: int| 0 <= j < k ==> #[trigger] pairs_view(out)[j] == (
            rv[j][ci as int],
            reference_text(rv[j][ti as int], rv[j][fi as int]),
            ),
        decreases foreign_keys.rows@.len() - k,
    {
        let row = &foreign_keys.rows[k];
        assert(row@.len() == foreign_keys.header@.len());
        let col = row[ci].clone();
        let rf = reference_string(row[ti].as_str(), row[fi].as_str());
        let ghost prev = out@;
        let ghost prevp = pairs_view(out);
        let ghost cell = (col@, rf@);
        out.push((col, rf));
        proof {
            assert(rv[k as int] == row_view(*row));
            assert forall|j: int| 0 <= j < k + 1 implies #[trigger] pairs_view(out)[j] == (
                rv[j][ci as int],
                reference_text(rv[j][ti as int], rv[j][fi as int]),
            ) by {
                assert(pairs_view(out)[j] == (out@[j].0@, out@[j].1@));
                if j < k {
                    assert(out@[j] == prev[j]);
                    assert(prevp[j] == (prev[j].0@, prev[j].1@));
                } else {
                    assert(out@[j].0@ == cell.0);
                    assert(row_view(*row)[ci as int] == row@[ci as int]@);
                    assert(row_view(*row)[ti as int] == row@[ti as int]@);
                    assert(row_view(*row)[fi as int] == row@[fi as int]@);
                }
            }
        }
        k = k + 1;
    }
    assert(pairs_view(out) =~= fk_entries(rv, ci as int, ti as int, fi as int));
    Ok(out)
}

/// Appends a `REFERENCES` column to a table description. Each row gets what
/// its `column_name` cell references according to `keys`, or an empty cell,
/// so every row keeps one cell per header column. Fails when no header label
/// contains `column_name`.
pub fn add_foreign_keys(rows: PogoResult, keys: &Vec<(String, String)>) -> (r: Result<PogoResult, PogoError>)
    requires
        rows.well_formed(),
    ensures
        r is Ok <==> first_containing(rows.header_view(), "column_name"@) is Some,
        r matches Err(e) ==> is_missing_column(e, "column_name"@),
        r matches Ok(out) ==> {
            &&& out.header_view() == rows.header_view().push("REFERENCES"@)
            &&& out.rows_view() == merged_rows(
                rows.rows_view(),
                first_containing(rows.header_view(), "column_name"@)->Some_0,
                pairs_view(*keys),
            )
            &&& out.well_formed()
        },
{
    let ghost h = rows.header_view();
    let ghost rv = rows.rows_view();
    let ci = match get_column_index_by_name("column_name", &rows.header) {
        Some(i) => i,
        None => return Err(missing_column("column_name")),
    };
    let PogoResult { header, rows: old_rows } = rows;
    let mut new_header = header;
    new_header.push(String::from_str("REFERENCES"));
    let mut new_rows: Vec<Vec<String>> = Vec::new();
    let mut k: usize = 0;
    while k < old_rows.len()
        invariant
            forall|i: int| 0 <= i < old_rows@.len() ==> #[trigger] old_rows@[i]@.len() + 1 == new_header@.len(),
            rv == old_rows@.map_values(|r: Vec<String>| row_view(r)),
            ci + 1 < new_header@.len(),
            k <= old_rows@.len(),
            new_rows@.len() == k,
            forall|j: int| 0 <= j < k ==> #[trigger] new_rows@[j]@.len() == new_header@.len(),
            forall|j: int| 0 <= j < k ==> #[trigger] row_view(new_rows@[j]) == rv[j].push(
                reference_cell(pairs_view(*keys), rv[j][ci as int]),
            ),
        decreases old_rows@.len() - k,
    {
        let src = &old_rows[k];
        let mut row = copy_strings(src);
        let cell = reference_cell_exec(keys, src[ci].as_str());
        row.push(cell);
        proof {
            assert(rv[k as int] == row_view(*src));
            assert(row_view(*src)[ci as int] == src@[ci as int]@);
            assert(row_view(row) =~= rv[k as int].push(reference_cell(pairs_view(*keys), rv[k as int][ci as int])));
        }
        new_rows.push(row);
        k = k + 1;
    }
    let out = PogoResult { header: new_header, rows: new_rows };
    proof {
        assert(out.header_view() =~= h.push("REFERENCES"@));
        assert(out.rows_view() =~= merged_rows(rv, ci as int, pairs_view(*keys)));
    }
    Ok(out)
}

/// Merges the result of the foreign key query into a table description:
/// the foreign key map is built from `foreign_keys` and appended as a
/// `REFERENCES` column.
pub fn describe_table(table: PogoResult, foreign_keys: &PogoResult) -> (r: Result<PogoResult, PogoError>)
    requires
        table.well_formed(),
        foreign_keys.well_formed(),
    ensures
        r is Ok <==> fk_map_of(foreign_keys.header_view(), foreign_keys.rows_view()) is Some
            && first_containing(table.header_view(), "column_name"@) is Some,
        r matches Ok(out) ==> {
            &&& out.header_view() == table.header_view().push("REFERENCES"@)
            &&& out.rows_view() == merged_rows(
                table.rows_view(),
                first_containing(table.header_view(), "column_name"@)->Some_0,
                fk_map_of(foreign_keys.header_view(), foreign_keys.rows_view())->Some_0,
            )
            &&& out.well_formed()
        },
        r matches Err(e) ==> e matches PogoError::ColumnNotFound(_),
{
    let keys = match map_foreign_keys(foreign_keys) {
        Ok(m) => m,
        Err(e) => return Err(e),
    };
    add_foreign_keys(table, &keys)
}

/// After the merge, each row gains exactly one cell: what its `column_name`
/// cell references in the foreign key map, or an empty cell when the map has
/// no entry for it. A row thus never receives another column's reference.
pub proof fn lemma_merge_marks_referencing_rows(
    rows: Seq<Seq<Seq<char>>>,
    ci: int,
    entries: Seq<(Seq<char>, Seq<char>)>,
    i: int,
)
    requires
        0 <= i < rows.len(),
    ensures
        merged_rows(rows, ci, entries)[i].len() == rows[i].len() + 1,
        merged_rows(rows, ci, entries)[i].drop_last() == rows[i],
        lookup_last(entries, rows[i][ci]) matches Some(v) ==> merged_rows(rows, ci, entries)[i].last() == v,
        lookup_last(entries, rows[i][ci]) is None ==> merged_rows(rows, ci, entries)[i].last()
            == Seq::<char>::empty(),
{
    assert(merged_rows(rows, ci, entries)[i].drop_last() =~= rows[i]);
}

/// A foreign key map of one pair answers for its own key only.
pub proof fn lemma_single_key_lookup(k: Seq<char>, v: Seq<char>, key: Seq<char>)
    ensures
        lookup_last(seq![(k, v)], key) == if key == k {
            Some(v)
        } else {
            None::<Seq<char>>
        },
{
    let s = seq![(k, v)];
    assert(s.drop_last() =~= Seq::<(Seq<char>, Seq<char>)>::empty());
    assert(lookup_last(s.drop_last(), key) is None);
    assert(s.last() == (k, v));
}

} // verus!
