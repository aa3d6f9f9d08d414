use vstd::prelude::*;
use crate::text::same_text;
use crate::result::{PogoResult, PogoError, row_view};
use crate::catalog::{DESCRIBE_DATABASE_SQL, describe_table_sql, DESCRIBE_TABLE_SQL_HEAD, SQL_TAIL};

verus! {

/// A named SQL command that a user has defined.
pub struct Operation {
    pub name: String,
    pub description: String,
    pub command: String,
}

/// The execution context of the tool: the operations it knows, in load order.
pub struct Pogo {
    pub operations: Vec<Operation>,
}

/// Position `i` holds the first operation called `name`.
pub open spec fn is_first_named(ops: Seq<Operation>, name: Seq<char>, i: int) -> bool {
    &&& 0 <= i < ops.len()
    &&& ops[i].name@ == name
    &&& forall|j: int| 0 <= j < i ==> (#[trigger] ops[j]).name@ != name
}

/// The position of the first operation called `name`, if any.
pub open spec fn find_operation(ops: Seq<Operation>, name: Seq<char>) -> Option<int> {
    if exists|i: int| is_first_named(ops, name, i) {
        Some(choose|i: int| is_first_named(ops, name, i))
    } else {
        None
    }
}

/// No operation is called `name`.
pub open spec fn no_operation_named(ops: Seq<Operation>, name: Seq<char>) -> bool {
    forall|i: int| 0 <= i < ops.len() ==> (#[trigger] ops[i]).name@ != name
}

proof fn lemma_first_named_unique(ops: Seq<Operation>, name: Seq<char>, i: int, j: int)
    requires
        is_first_named(ops, name, i),
        is_first_named(ops, name, j),
    ensures
        i == j,
{
    if i < j {
        assert(ops[i].name@ != name);
    } else if j < i {
        assert(ops[j].name@ != name);
    }
}

/// No two operations share a name, as a registry requires.
pub open spec fn unique_names(ops: Seq<Operation>) -> bool {
    forall|i: int, j: int| 0 <= i < j < ops.len() ==> (#[trigger] ops[i]).name@ != (#[trigger] ops[j]).name@
}

/// In a registry whose names are unique, looking up an operation's name finds
/// that very operation, so `run` on its name yields its own command.
pub proof fn lemma_lookup_finds_named_operation(ops: Seq<Operation>, i: int)
    requires
        unique_names(ops),
        0 <= i < ops.len(),
    ensures
        find_operation(ops, ops[i].name@) == Some(i),
        !no_operation_named(ops, ops[i].name@),
{
    let name = ops[i].name@;
    assert forall|j: int| 0 <= j < i implies (#[trigger] ops[j]).name@ != name by {
        assert(ops[j].name@ != ops[i].name@);
    }
    assert(is_first_named(ops, name, i));
    let c = choose|c: int| is_first_named(ops, name, c);
    lemma_first_named_unique(ops, name, c, i);
}

/// The header of the operation listing.
pub open spec fn list_header() -> Seq<Seq<char>> {
    seq!["OPERATION NAME"@, "DESCRIPTION"@]
}

/// The operation listing's row for one operation.
pub open spec fn list_row(op: Operation) -> Seq<Seq<char>> {
    seq![op.name@, op.description@]
}

impl Pogo {
    pub fn new(operations: Vec<Operation>) -> (r: Pogo)
        ensures
            r.operations@ == operations@,
    {
        Pogo { operations }
    }

    /// The first statement of a description: the catalog of the whole database,
    /// or the columns of one table.
    pub fn describe(&self, table_name: Option<&str>) -> (r: String)
        ensures
            table_name is None ==> r@ == DESCRIBE_DATABASE_SQL@,
            table_name matches Some(t) ==> r@ == DESCRIBE_TABLE_SQL_HEAD@ + t@ + SQL_TAIL@,
    {
        match table_name {
            Some(t) => describe_table_sql(t),
            None => String::from_str(DESCRIBE_DATABASE_SQL),
        }
    }

    /// Lists the operations in load order: one row of name and description each.
    pub fn list(&self) -> (r: PogoResult)
        ensures
            r.header_view() == list_header(),
            r.rows@.len() == self.operations@.len(),
            forall|i: int| 0 <= i < self.operations@.len() ==> #[trigger] r.rows_view()[i] == list_row(self.operations@[i]),
            r.well_formed(),
    {
        let mut header: Vec<String> = Vec::new();
        header.push(String::from_str("OPERATION NAME"));
        header.push(String::from_str("DESCRIPTION"));
        let mut rows: Vec<Vec<String>> = Vec::new();
        let mut i: usize = 0;
        while i < self.operations.len()
            invariant
                header@.len() == 2,
                i <= self.operations@.len(),
                rows@.len() == i,
                forall|k: int| 0 <= k < i ==> #[trigger] rows@[k]@.len() == 2,
                forall|k: int| 0 <= k < i ==> #[trigger] row_view(rows@[k]) == list_row(self.operations@[k as int]),
            decreases self.operations@.len() - i,
        {
            let op = &self.operations[i];
            let mut row: Vec<String> = Vec::new();
            row.push(op.name.clone());
            row.push(op.description.clone());
            assert(row_view(row) =~= list_row(self.operations@[i as int]));
            rows.push(row);
            i = i + 1;
        }
        let r = PogoResult { header, rows };
        assert(r.header_view() =~= list_header());
        r
    }

    /// The first operation called `operation_name`, by exact, case-sensitive match.
    pub fn get_operation(&self, operation_name: &str) -> (r: Option<&Operation>)
        ensures
            r is None <==> no_operation_named(self.operations@, operation_name@),
            r matches Some(op) ==> find_operation(self.operations@, operation_name@) matches Some(i)
                && *op == self.operations@[i],
    {
        let ghost ops = self.operations@;
        let mut i: usize = 0;
        while i < self.operations.len()
            invariant
                ops == self.operations@,
                i <= ops.len(),
                forall|j: int| 0 <= j < i ==> (#[trigger] ops[j]).name@ != operation_name@,
            decreases ops.len() - i,
        {
            if same_text(self.operations[i].name.as_str(), operation_name) {
                proof {
                    assert(is_first_named(ops, operation_name@, i as int));
                    let c = choose|c: int| is_first_named(ops, operation_name@, c);
                    lemma_first_named_unique(ops, operation_name@, c, i as int);
                }
                return Some(&self.operations[i]);
            }
            i = i + 1;
        }
        None
    }

    /// The statement that running `operation_name` executes: the operation's
    /// command, verbatim. Fails when no operation has that name.
    pub fn run(&self, operation_name: &str) -> (r: Result<String, PogoError>)
        ensures
            r is Err <==> no_operation_named(self.operations@, operation_name@),
            r matches Err(e) ==> e matches PogoError::OperationNotFound(n) && n@ == operation_name@,
            r matches Ok(sql) ==> find_operation(self.operations@, operation_name@) matches Some(i)
                && sql@ == self.operations@[i].command@,
    {
        match self.get_operation(operation_name) {
            Some(op) => Ok(op.command.clone()),
            None => Err(PogoError::OperationNotFound(String::from_str(operation_name))),
        }
    }
}

} // verus!
