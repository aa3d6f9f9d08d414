use pogo::catalog::{describe_database, describe_table_sql, get_foreign_keys_for_table, relation_kind_label};
use pogo::executor::{build_result, get_header, RawRow};
use pogo::render::{i32_text, column_label, declared_type, render_value, ColumnDescriptor, DeclaredType};
use pogo::result::{PogoError, PogoResult};
use pogo::schema::{add_foreign_keys, describe_table, get_column_index_by_name, map_foreign_keys};

fn col(name: &str, ty: &str, text_decodable: bool) -> ColumnDescriptor {
    ColumnDescriptor {
        name: name.to_string(),
        type_label: ty.to_string(),
        bare_type: ty.to_string(),
        text_decodable,
    }
}

fn strings(v: &[&str]) -> Vec<String> {
    v.iter().map(|s| s.to_string()).collect()
}

fn text_cell(s: &str) -> Option<Vec<u8>> {
    Some(s.as_bytes().to_vec())
}

#[test]
fn null_renders_as_single_space_for_every_type() {
    for (ty, dec) in [("text", true), ("varchar", true), ("uuid", false), ("int4", false), ("bool", false), ("name", true)] {
        assert_eq!(render_value(&col("c", ty, dec), &None), " ");
    }
}

#[test]
fn text_renders_verbatim() {
    assert_eq!(render_value(&col("c", "text", true), &text_cell("héllo")), "héllo");
    assert_eq!(render_value(&col("c", "varchar", true), &text_cell("abc")), "abc");
    assert_eq!(render_value(&col("c", "text", true), &text_cell("")), "");
}

#[test]
fn invalid_utf8_text_renders_as_space() {
    assert_eq!(render_value(&col("c", "text", true), &Some(vec![0xff, 0xfe])), " ");
}

#[test]
fn int4_renders_decimal() {
    let c = col("n", "int4", false);
    assert_eq!(render_value(&c, &Some(vec![0, 0, 0, 42])), "42");
    assert_eq!(render_value(&c, &Some(vec![0xff, 0xff, 0xff, 0xff])), "-1");
    assert_eq!(render_value(&c, &Some(vec![0x80, 0, 0, 0])), "-2147483648");
    assert_eq!(render_value(&c, &Some(vec![0, 1, 0, 0])), "65536");
}

#[test]
fn int4_with_wrong_width_renders_as_space() {
    assert_eq!(render_value(&col("n", "int4", false), &Some(vec![0, 42])), " ");
}

#[test]
fn uuid_renders_hyphenated_lower_case() {
    let bytes = vec![0x67, 0xe5, 0x50, 0x44, 0x10, 0xb1, 0x42, 0x6f, 0x92, 0x47, 0xbb, 0x68, 0x0e, 0x5f, 0xe0, 0xc8];
    assert_eq!(
        render_value(&col("id", "uuid", false), &Some(bytes)),
        "67e55044-10b1-426f-9247-bb680e5fe0c8"
    );
    assert_eq!(render_value(&col("id", "uuid", false), &Some(vec![1, 2, 3])), " ");
}

#[test]
fn other_types_fall_back_to_string_decode() {
    assert_eq!(render_value(&col("n", "name", true), &text_cell("public")), "public");
    assert_eq!(render_value(&col("b", "bool", false), &Some(vec![1])), " ");
}

#[test]
fn rendering_ignores_column_name_and_prior_calls() {
    let raw = Some(vec![0, 0, 0, 7]);
    let first = render_value(&col("a", "int4", false), &raw);
    let _ = render_value(&col("b", "text", true), &text_cell("x"));
    let second = render_value(&col("z", "int4", false), &raw);
    assert_eq!(first, second);
    assert_eq!(first, "7");
}

#[test]
fn declared_type_dispatch() {
    assert_eq!(declared_type("text"), DeclaredType::Text);
    assert_eq!(declared_type("varchar"), DeclaredType::Text);
    assert_eq!(declared_type("uuid"), DeclaredType::Uuid);
    assert_eq!(declared_type("int4"), DeclaredType::Int4);
    assert_eq!(declared_type("int8"), DeclaredType::Other);
    assert_eq!(declared_type("myschema.text"), DeclaredType::Other);
}

#[test]
fn header_label_embeds_type() {
    assert_eq!(column_label(&col("id", "int4", false)), "id (int4)");
    assert_eq!(get_header(&vec![col("a", "text", true), col("b", "uuid", false)]), strings(&["a (text)", "b (uuid)"]));
}

#[test]
fn build_result_keeps_order_and_row_length() {
    let columns = vec![col("name", "text", true), col("n", "int4", false)];
    let rows: Vec<RawRow> = vec![
        vec![text_cell("b"), Some(vec![0, 0, 0, 2])],
        vec![None, Some(vec![0, 0, 0, 1])],
    ];
    let r = build_result(&columns, &rows);
    assert_eq!(r.header, strings(&["name (text)", "n (int4)"]));
    assert_eq!(r.rows, vec![strings(&["b", "2"]), strings(&[" ", "1"])]);
    for row in &r.rows {
        assert_eq!(row.len(), r.header.len());
    }
}

#[test]
fn build_result_with_no_rows_still_has_header() {
    let r = build_result(&vec![col("x", "text", true)], &vec![]);
    assert_eq!(r.header, strings(&["x (text)"]));
    assert!(r.rows.is_empty());
}

#[test]
fn describe_database_header_is_fixed() {
    let columns = vec![col("schema_name", "name", true), col("relation_name", "name", true), col("relation_kind", "text", true)];
    let rows: Vec<RawRow> = vec![
        vec![text_cell("public"), text_cell("orders"), text_cell("r")],
        vec![text_cell("public"), text_cell("orders_id_seq"), text_cell("S")],
        vec![text_cell("public"), text_cell("odd"), text_cell("x")],
    ];
    let r = describe_database(&columns, &rows);
    assert_eq!(r.header, strings(&["SCHEMA", "TABLE NAME", "TYPE"]));
    assert_eq!(r.rows[0], strings(&["public", "orders", "table"]));
    assert_eq!(r.rows[1], strings(&["public", "orders_id_seq", "sequence"]));
    assert_eq!(r.rows[2], strings(&["public", "odd", ""]));
    let empty = describe_database(&columns, &vec![]);
    assert_eq!(empty.header, strings(&["SCHEMA", "TABLE NAME", "TYPE"]));
}

#[test]
fn relation_kind_labels() {
    let cases = [
        ("r", "table"), ("p", "table"), ("v", "view"), ("m", "materialized view"), ("i", "index"),
        ("I", "index"), ("S", "sequence"), ("s", "special"), ("f", "foreign table"), ("q", ""), ("rr", ""), ("", ""),
    ];
    for (code, label) in cases {
        assert_eq!(relation_kind_label(code), label);
    }
}

#[test]
fn catalog_queries_splice_table_name() {
    let sql = describe_table_sql("orders");
    assert!(sql.starts_with("SELECT table_name, column_name, data_type FROM information_schema.columns"));
    assert!(sql.ends_with("table_name = 'orders';"));
    let fk = get_foreign_keys_for_table("orders");
    assert!(fk.contains("'FOREIGN KEY'"));
    assert!(fk.ends_with("tc.table_name = 'orders';"));
}

fn orders_table() -> PogoResult {
    PogoResult {
        header: strings(&["table_name (name)", "column_name (name)", "data_type (varchar)"]),
        rows: vec![strings(&["orders", "id", "integer"]), strings(&["orders", "owner_id", "integer"])],
    }
}

fn orders_foreign_keys() -> PogoResult {
    PogoResult {
        header: strings(&["table_name (name)", "column_name (name)", "foreign_table_name (name)", "foreign_column_name (name)"]),
        rows: vec![strings(&["orders", "owner_id", "users", "id"])],
    }
}

#[test]
fn foreign_key_merge_marks_referencing_column() {
    let r = describe_table(orders_table(), &orders_foreign_keys()).ok().unwrap();
    assert_eq!(r.header, strings(&["table_name (name)", "column_name (name)", "data_type (varchar)", "REFERENCES"]));
    assert_eq!(r.rows[1], strings(&["orders", "owner_id", "integer", "users(id)"]));
    assert_eq!(r.rows[0], strings(&["orders", "id", "integer", ""]));
    for row in &r.rows {
        assert_eq!(row.len(), r.header.len());
    }
}

#[test]
fn map_foreign_keys_builds_references() {
    let m = map_foreign_keys(&orders_foreign_keys()).ok().unwrap();
    assert_eq!(m, vec![("owner_id".to_string(), "users(id)".to_string())]);
}

#[test]
fn map_foreign_keys_reports_missing_column() {
    let fk = PogoResult { header: strings(&["table_name (name)", "column_name (name)"]), rows: vec![] };
    match map_foreign_keys(&fk) {
        Err(PogoError::ColumnNotFound(n)) => assert_eq!(n, "foreign_table_name"),
        _ => panic!("expected a missing column"),
    }
}

#[test]
fn add_foreign_keys_later_key_wins_and_missing_header_fails() {
    let keys = vec![
        ("owner_id".to_string(), "people(id)".to_string()),
        ("owner_id".to_string(), "users(id)".to_string()),
    ];
    let r = add_foreign_keys(orders_table(), &keys).ok().unwrap();
    assert_eq!(r.rows[1][3], "users(id)");
    let bare = PogoResult { header: strings(&["a (text)"]), rows: vec![strings(&["x"])] };
    assert!(matches!(add_foreign_keys(bare, &keys), Err(PogoError::ColumnNotFound(_))));
}

#[test]
fn column_index_by_substring() {
    let h = strings(&["table_name (name)", "column_name (name)", "foreign_column_name (name)"]);
    assert_eq!(get_column_index_by_name("column_name", &h), Some(1));
    assert_eq!(get_column_index_by_name("foreign_column_name", &h), Some(2));
    assert_eq!(get_column_index_by_name("owner", &h), None);
}

#[test]
fn decimal_text_of_extremes() {
    assert_eq!(i32_text(0), "0");
    assert_eq!(i32_text(9), "9");
    assert_eq!(i32_text(10), "10");
    assert_eq!(i32_text(-305), "-305");
    assert_eq!(i32_text(i32::MAX), "2147483647");
    assert_eq!(i32_text(i32::MIN), "-2147483648");
}

#[test]
fn ltree_values_drop_their_version_byte() {
    let c = col("path", "ltree", true);
    assert_eq!(render_value(&c, &Some(vec![1, b'a', b'.', b'b'])), "a.b");
    assert_eq!(render_value(&c, &Some(vec![2, b'a'])), " ");
    let qualified = ColumnDescriptor {
        name: "path".to_string(),
        type_label: "ext.ltree".to_string(),
        bare_type: "ltree".to_string(),
        text_decodable: true,
    };
    assert_eq!(render_value(&qualified, &Some(vec![1, b'x'])), "x");
    assert_eq!(render_value(&col("n", "name", true), &Some(vec![1, b'x'])), "\u{1}x");
}
