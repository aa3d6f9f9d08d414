use vstd::prelude::*;

verus! {

/// The string stored under `key` at the top level of a TOML document; `None`
/// for text that is not a TOML document, a missing key, or a value of another kind.
pub uninterp spec fn toml_string_field_of(text: Seq<char>, key: Seq<char>) -> Option<Seq<char>>;

/// The TOML text of a document with the single entry `key = value`, or `None`
/// where it cannot be written.
pub uninterp spec fn toml_text(key: Seq<char>, value: Seq<char>) -> Option<Seq<char>>;

/// How many nesting marks a TOML text may hold. The parser recurses, with no
/// limit of its own, once per nested array (`[`), inline table (`{`), and
/// segment of a table header or dotted key (`.`).
pub const MAX_NESTING_MARKS: usize = 128;

/// Whether a character can open a level of nesting in TOML.
pub open spec fn is_nesting_mark(c: char) -> bool {
    c == '[' || c == '{' || c == '.'
}

/// The number of `[`, `{` and `.` in a text, wherever they stand (in strings
/// and comments too), which bounds how deep its parse can nest.
pub open spec fn nesting_marks(text: Seq<char>) -> nat
    decreases text.len(),
{
    if text.len() == 0 {
        0
    } else {
        nesting_marks(text.drop_last()) + if is_nesting_mark(text.last()) {
            1nat
        } else {
            0nat
        }
    }
}

/// Counts the `[`, `{` and `.` of a text.
pub fn count_nesting_marks(text: &str) -> (r: usize)
    ensures
        r as nat == nesting_marks(text@),
{
    let n = text.unicode_len();
    let mut count: usize = 0;
    let mut i: usize = 0;
    while i < n
        invariant
            n == text@.len(),
            i <= n,
            count <= i,
            count as nat == nesting_marks(text@.take(i as int)),
        decreases n - i,
    {
        let c = text.get_char(i);
        proof {
            assert(text@.take(i + 1).drop_last() =~= text@.take(i as int));
            assert(text@.take(i + 1).last() == c);
        }
        if c == '[' || c == '{' || c == '.' {
            count = count + 1;
        }
        i = i + 1;
    }
    assert(text@.take(n as int) =~= text@);
    count
}

/// Relies on `toml::from_str` into a `toml::Value`, then `Value::get` and
/// `Value::as_str`: the string under `key`, or `None`. The parser recurses
/// once per array, inline table and key segment, so the marks are bounded first.
#[verifier::external_body]
fn toml_string_field(text: &str, key: &str) -> (r: Option<String>)
    requires
        nesting_marks(text@) <= MAX_NESTING_MARKS,
    ensures
        r is None <==> toml_string_field_of(text@, key@) is None,
        r matches Some(s) ==> toml_string_field_of(text@, key@) == Some(s@),
{
    match toml::from_str::<toml::Value>(text) {
        Ok(v) => match v.get(key).and_then(toml::Value::as_str) {
            Some(s) => Some(s.to_string()),
            None => None,
        },
        Err(_) => None,
    }
}

/// Relies on `toml::to_string` of a one-entry `BTreeMap<String, String>`.
#[verifier::external_body]
fn toml_entry_text(key: &str, value: &str) -> (r: Option<String>)
    ensures
        r is None <==> toml_text(key@, value@) is None,
        r matches Some(s) ==> toml_text(key@, value@) == Some(s@),
{
    let mut m: std::collections::BTreeMap<String, String> = std::collections::BTreeMap::new();
    m.insert(key.to_string(), value.to_string());
    toml::to_string(&m).ok()
}

/// The connection string a configuration document holds, if any.
pub open spec fn connection_string_of(text: Seq<char>) -> Option<Seq<char>> {
    toml_string_field_of(text, "connection_string"@)
}

/// Reads and writes the tool's configuration document.
pub struct Config {}

impl Config {
    /// The `connection_string` entry of a configuration document. A document
    /// with more than `MAX_NESTING_MARKS` of `[`, `{` and `.` is refused unread.
    pub fn get_connection_string(contents: &str) -> (r: Option<String>)
        ensures
            r is None <==> (nesting_marks(contents@) > MAX_NESTING_MARKS || connection_string_of(
                contents@,
            ) is None),
            r matches Some(s) ==> connection_string_of(contents@) == Some(s@),
    {
        if count_nesting_marks(contents) > MAX_NESTING_MARKS {
            return None;
        }
        toml_string_field(contents, "connection_string")
    }

    /// The text of a fresh configuration document, with an empty connection string.
    pub fn create_default_config() -> (r: Option<String>)
        ensures
            r is None <==> toml_text("connection_string"@, Seq::<char>::empty()) is None,
            r matches Some(s) ==> toml_text("connection_string"@, Seq::<char>::empty()) == Some(s@),
    {
        proof {
            reveal_strlit("");
            assert(""@ =~= Seq::<char>::empty());
        }
        toml_entry_text("connection_string", "")
    }
}

} // verus!
