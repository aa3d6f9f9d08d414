use vstd::prelude::*;
use crate::text::same_text;
use crate::pogo::{Operation, unique_names};

verus! {

/// The string stored under `key` in a JSON object; `None` for text that is not
/// a JSON object, a missing key, or a value of another kind.
pub uninterp spec fn json_string_field_of(text: Seq<char>, key: Seq<char>) -> Option<Seq<char>>;

/// Relies on `serde_json::from_str` into a `serde_json::Value` (which refuses
/// nesting deeper than 128 levels), then `Value::get` and `Value::as_str`:
/// the string under `key`, or `None`.
#[verifier::external_body]
fn json_string_field(text: &str, key: &str) -> (r: Option<String>)
    ensures
        r is None <==> json_string_field_of(text@, key@) is None,
        r matches Some(s) ==> json_string_field_of(text@, key@) == Some(s@),
{
    match serde_json::from_str::<serde_json::Value>(text) {
        Ok(v) => match v.get(key).and_then(serde_json::Value::as_str) {
            Some(s) => Some(s.to_string()),
            None => None,
        },
        Err(_) => None,
    }
}

/// Why a set of operation definitions was refused.
pub enum LoadError {
    /// The definition at this position is not a JSON object with string fields
    /// `name`, `description` and `command` (other fields are ignored).
    Unreadable(usize),
    /// The definition at this position has an empty name.
    EmptyName(usize),
    /// Two definitions share this name.
    DuplicateName(String),
}

/// The name, description and command that a definition holds, if it holds all three.
pub open spec fn operation_fields(text: Seq<char>) -> Option<(Seq<char>, Seq<char>, Seq<char>)> {
    match (
        json_string_field_of(text, "name"@),
        json_string_field_of(text, "description"@),
        json_string_field_of(text, "command"@),
    ) {
        (Some(n), Some(d), Some(c)) => Some((n, d, c)),
        _ => None,
    }
}

pub open spec fn operation_view(op: Operation) -> (Seq<char>, Seq<char>, Seq<char>) {
    (op.name@, op.description@, op.command@)
}

/// The name a definition gives, when it is readable.
pub open spec fn name_at(texts: Seq<String>, i: int) -> Seq<char> {
    operation_fields(texts[i]@)->Some_0.0
}

/// The definition at `i` is readable, has a non-empty name, and no earlier
/// definition has that name.
pub open spec fn entry_ok(texts: Seq<String>, i: int) -> bool {
    &&& operation_fields(texts[i]@) is Some
    &&& name_at(texts, i).len() > 0
    &&& forall|j: int| 0 <= j < i ==> #[trigger] name_at(texts, j) != name_at(texts, i)
}

/// Every definition is readable with a non-empty name, and no two share a name.
pub open spec fn valid_registry(texts: Seq<String>) -> bool {
    forall|i: int| 0 <= i < texts.len() ==> #[trigger] entry_ok(texts, i)
}

/// The definition at `i` is the first one refused.
pub open spec fn first_refused(texts: Seq<String>, i: int) -> bool {
    &&& 0 <= i < texts.len()
    &&& !entry_ok(texts, i)
    &&& forall|k: int| 0 <= k < i ==> #[trigger] entry_ok(texts, k)
}

/// Reads operation definitions.
pub struct Loader {}

impl Loader {
    /// Reads one operation from the text of its definition.
    pub fn get_operation(text: &str) -> (r: Option<Operation>)
        ensures
            r is None <==> operation_fields(text@) is None,
            r matches Some(op) ==> operation_fields(text@) == Some(operation_view(op)),
    {
        let name = match json_string_field(text, "name") {
            Some(s) => s,
            None => return None,
        };
        let description = match json_string_field(text, "description") {
            Some(s) => s,
            None => return None,
        };
        let command = match json_string_field(text, "command") {
            Some(s) => s,
            None => return None,
        };
        Some(Operation { name, description, command })
    }

    /// Reads the registry of operations, one definition text each, keeping
    /// their order. Names must be non-empty and unique; the error reports the
    /// first definition refused and why.
    pub fn get_operations(texts: &Vec<String>) -> (r: Result<Vec<Operation>, LoadError>)
        ensures
            r is Ok <==> valid_registry(texts@),
            r matches Ok(ops) ==> ops@.len() == texts@.len() && forall|i: int|
                0 <= i < texts@.len() ==> operation_fields(texts@[i]@) == Some(
                    #[trigger] operation_view(ops@[i]),
                ),
            r matches Ok(ops) ==> unique_names(ops@),
            r matches Err(LoadError::Unreadable(i)) ==> first_refused(texts@, i as int)
                && operation_fields(texts@[i as int]@) is None,
            r matches Err(LoadError::EmptyName(i)) ==> first_refused(texts@, i as int)
                && operation_fields(texts@[i as int]@) is Some && name_at(texts@, i as int).len() == 0,
            r matches Err(LoadError::DuplicateName(n)) ==> exists|i: int|
                first_refused(texts@, i) && operation_fields(texts@[i]@) is Some && name_at(texts@, i)
                    == n@ && n@.len() > 0,
    {
        let mut out: Vec<Operation> = Vec::new();
        let mut i: usize = 0;
        while i < texts.len()
            invariant
                i <= texts@.len(),
                out@.len() == i,
                forall|k: int| 0 <= k < i ==> operation_fields(texts@[k]@) == Some(
                    #[trigger] operation_view(out@[k]),
                ),
                forall|k: int| 0 <= k < i ==> #[trigger] entry_ok(texts@, k),
            decreases texts@.len() - i,
        {
            let op = match Loader::get_operation(texts[i].as_str()) {
                Some(op) => op,
                None => {
                    assert(!entry_ok(texts@, i as int));
                    assert(first_refused(texts@, i as int));
                    return Err(LoadError::Unreadable(i));
                },
            };
            if op.name.as_str().unicode_len() == 0 {
                assert(name_at(texts@, i as int) == op.name@);
                assert(!entry_ok(texts@, i as int));
                assert(first_refused(texts@, i as int));
                return Err(LoadError::EmptyName(i));
            }
            let mut j: usize = 0;
            while j < out.len()
                invariant
                    i < texts@.len(),
                    out@.len() == i,
                    operation_fields(texts@[i as int]@) == Some(operation_view(op)),
                    op.name@.len() > 0,
                    forall|k: int| 0 <= k < i ==> operation_fields(texts@[k]@) == Some(
                        #[trigger] operation_view(out@[k]),
                    ),
                    forall|k: int| 0 <= k < i ==> #[trigger] entry_ok(texts@, k),
                    j <= out@.len(),
                    forall|k: int| 0 <= k < j ==> #[trigger] name_at(texts@, k) != op.name@,
                decreases out@.len() - j,
            {
                assert(operation_fields(texts@[j as int]@) == Some(operation_view(out@[j as int])));
                if same_text(out[j].name.as_str(), op.name.as_str()) {
                    assert(name_at(texts@, j as int) == name_at(texts@, i as int));
                    assert(!entry_ok(texts@, i as int));
                    assert(first_refused(texts@, i as int));
                    assert(name_at(texts@, i as int) == op.name@);
                    return Err(LoadError::DuplicateName(op.name));
                }
                j = j + 1;
            }
            assert(name_at(texts@, i as int) == op.name@);
            assert(entry_ok(texts@, i as int));
            out.push(op);
            i = i + 1;
        }
        proof {
            assert forall|a: int, b: int| 0 <= a < b < out@.len() implies (#[trigger] out@[a]).name@
                != (#[trigger] out@[b]).name@ by {
                assert(operation_fields(texts@[a]@) == Some(operation_view(out@[a])));
                assert(operation_fields(texts@[b]@) == Some(operation_view(out@[b])));
                assert(entry_ok(texts@, b));
                assert(name_at(texts@, a) != name_at(texts@, b));
            }
        }
        Ok(out)
    }
}

} // verus!
