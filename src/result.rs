use vstd::prelude::*;

verus! {

/// A flat tabular result: one label per column and one display string per cell.
pub struct PogoResult {
    pub header: Vec<String>,
    pub rows: Vec<Vec<String>>,
}

/// The mathematical model of a row: its cells as character sequences.
pub open spec fn row_view(row: Vec<String>) -> Seq<Seq<char>> {
    row@.map_values(|c: String| c@)
}

impl PogoResult {
    pub open spec fn header_view(&self) -> Seq<Seq<char>> {
        self.header@.map_values(|c: String| c@)
    }

    pub open spec fn rows_view(&self) -> Seq<Seq<Seq<char>>> {
        self.rows@.map_values(|r: Vec<String>| row_view(r))
    }

    /// Every row has exactly one cell per header column.
    pub open spec fn well_formed(&self) -> bool {
        forall|i: int| 0 <= i < self.rows@.len() ==> #[trigger] self.rows@[i]@.len() == self.header@.len()
    }
}

/// The ways a command of this tool can fail.
pub enum PogoError {
    /// The database could not be reached.
    Connection(String),
    /// The database rejected or failed a statement; the message is the driver's.
    Query(String),
    /// No registered operation has the requested name.
    OperationNotFound(String),
    /// No header label contains the required column name.
    ColumnNotFound(String),
}

} // verus!
