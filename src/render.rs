use vstd::prelude::*;
use vstd::utf8::*;
use vstd::string::*;
use postgres::types::{FromSql, Kind, Type};
use uuid::Uuid;
use crate::text::{join2, same_text};

verus! {

/// What the driver reports of one result column.
pub struct ColumnDescriptor {
    /// The column's name.
    pub name: String,
    /// The declared type as the driver prints it (`text`, `int4`, `uuid`, ...),
    /// with its schema when that is not `public` or `pg_catalog`.
    pub type_label: String,
    /// The declared type's bare name, without schema.
    pub bare_type: String,
    /// Whether the driver's string decoder accepts values of this type.
    pub text_decodable: bool,
}

/// The rendering strategy chosen for a declared type.
#[derive(PartialEq, Eq, Structural, Clone, Copy, Debug)]
pub enum DeclaredType {
    /// `varchar` and `text`: rendered verbatim.
    Text,
    /// `uuid`: rendered in canonical hyphenated form.
    Uuid,
    /// `int4`: rendered in decimal.
    Int4,
    /// Anything else: a best-effort string decode.
    Other,
}

pub open spec fn declared_type_of(label: Seq<char>) -> DeclaredType {
    if label == seq!['v', 'a', 'r', 'c', 'h', 'a', 'r'] || label == seq!['t', 'e', 'x', 't'] {
        DeclaredType::Text
    } else if label == seq!['u', 'u', 'i', 'd'] {
        DeclaredType::Uuid
    } else if label == seq!['i', 'n', 't', '4'] {
        DeclaredType::Int4
    } else {
        DeclaredType::Other
    }
}

/// The cell printed for an absent value.
pub open spec fn null_cell() -> Seq<char> {
    seq![' ']
}

/// The lower-case digit for `n < 16`; for `n < 10` also the decimal digit.
pub open spec fn hex_digit(n: int) -> char {
    seq!['0', '1', '2', '3', '4', '5', '6', '7', '8', '9', 'a', 'b', 'c', 'd', 'e', 'f'][n]
}

/// Two lower-case hex digits per byte, most significant first.
pub open spec fn hex_of(bytes: Seq<u8>) -> Seq<char>
    decreases bytes.len(),
{
    if bytes.len() == 0 {
        Seq::empty()
    } else {
        seq![hex_digit(bytes[0] as int / 16), hex_digit(bytes[0] as int % 16)] + hex_of(bytes.drop_first())
    }
}

/// The canonical 8-4-4-4-12 hyphenated form of a 16-byte identifier.
pub open spec fn uuid_text(b: Seq<u8>) -> Seq<char> {
    hex_of(b.subrange(0, 4)) + seq!['-'] + hex_of(b.subrange(4, 6)) + seq!['-'] + hex_of(
        b.subrange(6, 8),
    ) + seq!['-'] + hex_of(b.subrange(8, 10)) + seq!['-'] + hex_of(b.subrange(10, 16))
}

/// A signed 32-bit integer read from four big-endian bytes.
pub open spec fn be_i32(b: Seq<u8>) -> int {
    let u = b[0] * 0x1000000 + b[1] * 0x10000 + b[2] * 0x100 + b[3];
    if u >= 0x80000000 {
        u - 0x100000000
    } else {
        u
    }
}

/// Decimal digits of a natural number, most significant first.
pub open spec fn digits_of(n: nat) -> Seq<char>
    decreases n,
{
    if n < 10 {
        seq![hex_digit(n as int)]
    } else {
        digits_of(n / 10) + seq![hex_digit((n % 10) as int)]
    }
}

/// Decimal text of an integer, with a leading `-` when negative.
pub open spec fn int_text(v: int) -> Seq<char> {
    if v < 0 {
        seq!['-'] + digits_of((-v) as nat)
    } else {
        digits_of(v as nat)
    }
}

/// Types whose binary form is a version byte `1` followed by UTF-8 text.
pub open spec fn is_versioned_text(bare_type: Seq<char>) -> bool {
    bare_type == "ltree"@ || bare_type == "lquery"@ || bare_type == "ltxtquery"@
}

/// The driver's string decode of raw bytes of a type with the given name.
pub open spec fn string_decode(bare_type: Seq<char>, b: Seq<u8>) -> Option<Seq<char>> {
    if is_versioned_text(bare_type) {
        if b.len() >= 1 && b[0] == 1 && valid_utf8(b.drop_first()) {
            Some(decode_utf8(b.drop_first()))
        } else {
            None
        }
    } else if valid_utf8(b) {
        Some(decode_utf8(b))
    } else {
        None
    }
}

/// A string decode of the raw bytes, or the null cell where it fails.
pub open spec fn text_or_null(bare_type: Seq<char>, b: Seq<u8>) -> Seq<char> {
    match string_decode(bare_type, b) {
        Some(t) => t,
        None => null_cell(),
    }
}

/// The display string of a raw value of a column of the given declared type.
pub open spec fn rendered(
    label: Seq<char>,
    bare_type: Seq<char>,
    text_decodable: bool,
    raw: Option<Seq<u8>>,
) -> Seq<char> {
    match raw {
        None => null_cell(),
        Some(b) => match declared_type_of(label) {
            DeclaredType::Text => text_or_null(bare_type, b),
            DeclaredType::Uuid => if b.len() == 16 {
                uuid_text(b)
            } else {
                null_cell()
            },
            DeclaredType::Int4 => if b.len() == 4 {
                int_text(be_i32(b))
            } else {
                null_cell()
            },
            DeclaredType::Other => if text_decodable {
                text_or_null(bare_type, b)
            } else {
                null_cell()
            },
        },
    }
}

pub open spec fn raw_view(raw: Option<Vec<u8>>) -> Option<Seq<u8>> {
    match raw {
        None => None,
        Some(b) => Some(b@),
    }
}

/// `"<name> (<type>)"`.
pub open spec fn header_label(name: Seq<char>, type_label: Seq<char>) -> Seq<char> {
    name + seq![' ', '('] + type_label + seq![')']
}

impl ColumnDescriptor {
    pub open spec fn label_view(&self) -> Seq<char> {
        header_label(self.name@, self.type_label@)
    }

    pub open spec fn render_view(&self, raw: Option<Seq<u8>>) -> Seq<char> {
        rendered(self.type_label@, self.bare_type@, self.text_decodable, raw)
    }
}

/// Relies on postgres's `FromSql for &str`, which looks at the type's name
/// alone: for `ltree`, `lquery` and `ltxtquery` it drops a leading version byte
/// `1` (and fails without one), then decodes with `str::from_utf8`, which
/// fails on bytes that are not UTF-8.
#[verifier::external_body]
fn decode_text(bare_type: &str, raw: &[u8]) -> (r: Option<String>)
    ensures
        r is None <==> string_decode(bare_type@, raw@) is None,
        r matches Some(s) ==> string_decode(bare_type@, raw@) == Some(s@),
{
    let ty = Type::new(bare_type.to_string(), 0, Kind::Simple, String::new());
    match <&str as FromSql>::from_sql(&ty, raw) {
        Ok(s) => Some(s.to_string()),
        Err(_) => None,
    }
}

/// Relies on postgres's `FromSql for Uuid` (exactly sixteen bytes, else an error)
/// and on uuid's `Display`, which prints the lower-case hyphenated form.
#[verifier::external_body]
fn decode_uuid_text(raw: &[u8]) -> (r: Option<String>)
    ensures
        r is Some <==> raw@.len() == 16,
        r matches Some(s) ==> s@ == uuid_text(raw@),
{
    match <Uuid as FromSql>::from_sql(&Type::UUID, raw) {
        Ok(u) => Some(u.to_string()),
        Err(_) => None,
    }
}

/// Relies on postgres's `FromSql for i32`: exactly four big-endian bytes, else an error.
#[verifier::external_body]
fn decode_int4(raw: &[u8]) -> (r: Option<i32>)
    ensures
        r is Some <==> raw@.len() == 4,
        r matches Some(v) ==> v as int == be_i32(raw@),
{
    match <i32 as FromSql>::from_sql(&Type::INT4, raw) {
        Ok(v) => Some(v),
        Err(_) => None,
    }
}

/// The one-character text of a decimal digit.
fn digit_str(d: u64) -> (r: &'static str)
    requires
        d < 10,
    ensures
        r@ == seq![hex_digit(d as int)],
{
    proof {
        reveal_strlit("0123456789");
        assert("0123456789"@ =~= seq!['0', '1', '2', '3', '4', '5', '6', '7', '8', '9']);
    }
    let r = "0123456789".substring_char(d as usize, d as usize + 1);
    assert(r@ =~= seq![hex_digit(d as int)]);
    r
}

/// The decimal text of an integer, with a leading `-` when negative.
pub fn i32_text(v: i32) -> (r: String)
    ensures
        r@ == int_text(v as int),
{
    let m: u64 = if v < 0 {
        (-(v as i64)) as u64
    } else {
        v as u64
    };
    let mut q: u64 = m;
    let mut acc = String::new();
    while q >= 10
        invariant
            digits_of(m as nat) == digits_of(q as nat) + acc@,
        decreases q,
    {
        let d = q % 10;
        let next = join2(digit_str(d), acc.as_str());
        proof {
            assert(digits_of(q as nat) == digits_of((q / 10) as nat) + seq![hex_digit(d as int)]);
            assert(digits_of(q as nat) + acc@ =~= digits_of((q / 10) as nat) + next@);
        }
        acc = next;
        q = q / 10;
    }
    let r = join2(digit_str(q), acc.as_str());
    assert(r@ =~= digits_of(m as nat));
    if v < 0 {
        proof {
            reveal_strlit("-");
            assert("-"@ =~= seq!['-']);
        }
        join2("-", r.as_str())
    } else {
        r
    }
}

/// The strategy for a declared type, chosen by the type's printed name.
pub fn declared_type(label: &str) -> (r: DeclaredType)
    ensures
        r == declared_type_of(label@),
{
    proof {
        reveal_strlit("varchar");
        reveal_strlit("text");
        reveal_strlit("uuid");
        reveal_strlit("int4");
        assert("varchar"@ =~= seq!['v', 'a', 'r', 'c', 'h', 'a', 'r']);
        assert("text"@ =~= seq!['t', 'e', 'x', 't']);
        assert("uuid"@ =~= seq!['u', 'u', 'i', 'd']);
        assert("int4"@ =~= seq!['i', 'n', 't', '4']);
    }
    if same_text(label, "varchar") || same_text(label, "text") {
        DeclaredType::Text
    } else if same_text(label, "uuid") {
        DeclaredType::Uuid
    } else if same_text(label, "int4") {
        DeclaredType::Int4
    } else {
        DeclaredType::Other
    }
}

fn null_string() -> (r: String)
    ensures
        r@ == null_cell(),
{
    proof {
        reveal_strlit(" ");
    }
    String::from_str(" ")
}

fn text_or_null_exec(bare_type: &str, raw: &[u8]) -> (r: String)
    ensures
        r@ == text_or_null(bare_type@, raw@),
{
    match decode_text(bare_type, raw) {
        Some(s) => s,
        None => null_string(),
    }
}

/// Converts one raw value of a column into its display string. An absent value
/// (SQL NULL) and a value that does not decode as its type both give a single space.
pub fn render_value(column: &ColumnDescriptor, raw: &Option<Vec<u8>>) -> (r: String)
    ensures
        r@ == column.render_view(raw_view(*raw)),
        *raw is None ==> r@ == null_cell(),
{
    let r = match raw {
        None => null_string(),
        Some(b) => {
            let bytes = b.as_slice();
            match declared_type(column.type_label.as_str()) {
                DeclaredType::Text => text_or_null_exec(column.bare_type.as_str(), bytes),
                DeclaredType::Uuid => match decode_uuid_text(bytes) {
                    Some(s) => s,
                    None => null_string(),
                },
                DeclaredType::Int4 => match decode_int4(bytes) {
                    Some(v) => i32_text(v),
                    None => null_string(),
                },
                DeclaredType::Other => if column.text_decodable {
                    text_or_null_exec(column.bare_type.as_str(), bytes)
                } else {
                    null_string()
                },
            }
        },
    };
    r
}

/// The header label of a column: `"<name> (<type>)"`.
pub fn column_label(column: &ColumnDescriptor) -> (r: String)
    ensures
        r@ == column.label_view(),
{
    proof {
        reveal_strlit(" (");
        reveal_strlit(")");
    }
    let a = join2(column.name.as_str(), " (");
    let b = join2(a.as_str(), column.type_label.as_str());
    join2(b.as_str(), ")")
}

/// A NULL of any declared type renders as a single space: never empty.
pub proof fn lemma_null_renders_as_space(type_label: Seq<char>, bare_type: Seq<char>, text_decodable: bool)
    ensures
        rendered(type_label, bare_type, text_decodable, None) == seq![' '],
        rendered(type_label, bare_type, text_decodable, None).len() == 1,
{
}

/// Rendering depends on the declared type and the raw value alone: two columns
/// of the same declared type render the same value alike, whatever their names.
pub proof fn lemma_render_determined_by_type_and_value(
    a: ColumnDescriptor,
    b: ColumnDescriptor,
    raw: Option<Seq<u8>>,
)
    requires
        a.type_label@ == b.type_label@,
        a.bare_type@ == b.bare_type@,
        a.text_decodable == b.text_decodable,
    ensures
        a.render_view(raw) == b.render_view(raw),
{
}

} // verus!
