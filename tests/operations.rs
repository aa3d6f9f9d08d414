use pogo::catalog::DESCRIBE_DATABASE_SQL;
use pogo::config::{count_nesting_marks, Config, MAX_NESTING_MARKS};
use pogo::loader::{LoadError, Loader};
use pogo::pogo::{Operation, Pogo};
use pogo::result::PogoError;

fn op(name: &str, description: &str, command: &str) -> Operation {
    Operation { name: name.to_string(), description: description.to_string(), command: command.to_string() }
}

fn registry() -> Pogo {
    Pogo::new(vec![
        op("get-client-names", "Names of all clients", "SELECT long_name FROM client"),
        op("count-orders", "How many orders", "SELECT count(*) FROM orders"),
    ])
}

#[test]
fn run_missing_operation_fails() {
    match registry().run("missing-op") {
        Err(PogoError::OperationNotFound(n)) => assert_eq!(n, "missing-op"),
        _ => panic!("expected OperationNotFound"),
    }
}

#[test]
fn run_executes_stored_command_verbatim() {
    assert_eq!(registry().run("get-client-names").ok().unwrap(), "SELECT long_name FROM client");
}

#[test]
fn operation_lookup_is_case_sensitive() {
    assert!(registry().get_operation("GET-CLIENT-NAMES").is_none());
    assert_eq!(registry().get_operation("count-orders").unwrap().command, "SELECT count(*) FROM orders");
}

#[test]
fn list_keeps_load_order() {
    let r = registry().list();
    assert_eq!(r.header, vec!["OPERATION NAME".to_string(), "DESCRIPTION".to_string()]);
    assert_eq!(r.rows.len(), 2);
    assert_eq!(r.rows[0], vec!["get-client-names".to_string(), "Names of all clients".to_string()]);
    assert_eq!(r.rows[1], vec!["count-orders".to_string(), "How many orders".to_string()]);
}

#[test]
fn list_of_empty_registry() {
    let r = Pogo::new(vec![]).list();
    assert_eq!(r.header.len(), 2);
    assert!(r.rows.is_empty());
}

#[test]
fn describe_chooses_statement() {
    let p = registry();
    assert_eq!(p.describe(None), DESCRIBE_DATABASE_SQL);
    assert!(p.describe(Some("orders")).ends_with("table_name = 'orders';"));
}

#[test]
fn loader_reads_definition() {
    let o = Loader::get_operation(r#"{"name": "a", "description": "d", "command": "SELECT 1"}"#).unwrap();
    assert_eq!(o.name, "a");
    assert_eq!(o.description, "d");
    assert_eq!(o.command, "SELECT 1");
    assert!(Loader::get_operation(r#"{"name": "a", "description": "d"}"#).is_none());
    assert!(Loader::get_operation("not json").is_none());
}

#[test]
fn loader_keeps_order_and_refuses_bad_registries() {
    let a = r#"{"name": "b-op", "description": "x", "command": "SELECT 2"}"#.to_string();
    let b = r#"{"name": "a-op", "description": "y", "command": "SELECT 1"}"#.to_string();
    let ops = Loader::get_operations(&vec![a.clone(), b.clone()]).ok().unwrap();
    assert_eq!(ops[0].name, "b-op");
    assert_eq!(ops[1].name, "a-op");
    match Loader::get_operations(&vec![a.clone(), a.clone()]) {
        Err(LoadError::DuplicateName(n)) => assert_eq!(n, "b-op"),
        _ => panic!("expected a duplicate"),
    }
    let empty = r#"{"name": "", "description": "x", "command": "SELECT 2"}"#.to_string();
    assert!(matches!(Loader::get_operations(&vec![a.clone(), empty]), Err(LoadError::EmptyName(1))));
    assert!(matches!(Loader::get_operations(&vec!["[]".to_string()]), Err(LoadError::Unreadable(0))));
    assert!(matches!(Loader::get_operations(&vec![a.clone(), "[]".to_string(), a.clone()]), Err(LoadError::Unreadable(1))));
}

#[test]
fn config_reads_connection_string() {
    let s = Config::get_connection_string("connection_string = \"postgres://u@localhost/db\"\n");
    assert_eq!(s.unwrap(), "postgres://u@localhost/db");
    assert!(Config::get_connection_string("other = \"x\"\n").is_none());
    assert!(Config::get_connection_string("= broken").is_none());
}

#[test]
fn default_config_round_trips() {
    let text = Config::create_default_config().unwrap();
    assert!(text.contains("connection_string"));
    assert_eq!(Config::get_connection_string(&text).unwrap(), "");
}

#[test]
fn config_ignores_entries_of_other_kinds() {
    let s = Config::get_connection_string("port = 5432\nconnection_string = \"postgres://x\"\n[extra]\nflag = true\n");
    assert_eq!(s.unwrap(), "postgres://x");
    assert!(Config::get_connection_string("connection_string = 5\n").is_none());
}

#[test]
fn config_refuses_deep_nesting_without_parsing() {
    let deep = format!("a = {}{}\nconnection_string = \"x\"\n", "[".repeat(100_000), "]".repeat(100_000));
    assert!(Config::get_connection_string(&deep).is_none());
}

#[test]
fn config_parses_nesting_up_to_the_bound() {
    let text = format!("connection_string = \"x\"\na = {}{}\n", "[".repeat(MAX_NESTING_MARKS), "]".repeat(MAX_NESTING_MARKS));
    assert_eq!(count_nesting_marks(&text), MAX_NESTING_MARKS);
    assert_eq!(Config::get_connection_string(&text).unwrap(), "x");
}

#[test]
fn count_nesting_marks_counts_brackets_braces_and_dots() {
    assert_eq!(count_nesting_marks(""), 0);
    assert_eq!(count_nesting_marks("a = [1, {b = 2}]"), 2);
    assert_eq!(count_nesting_marks("[a.b]\nc.d = 1.5"), 4);
}

#[test]
fn config_refuses_long_table_headers_and_dotted_keys_without_parsing() {
    let header = format!("connection_string = \"x\"\n[{}]\n", vec!["a"; 200_000].join("."));
    assert!(Config::get_connection_string(&header).is_none());
    let dotted = format!("connection_string = \"x\"\n{} = 1\n", vec!["a"; 200_000].join("."));
    assert!(Config::get_connection_string(&dotted).is_none());
}

#[test]
fn config_parses_headers_and_dotted_keys_up_to_the_bound() {
    let header = format!("connection_string = \"x\"\n[{}]\n", vec!["a"; MAX_NESTING_MARKS].join("."));
    assert_eq!(count_nesting_marks(&header), MAX_NESTING_MARKS);
    assert_eq!(Config::get_connection_string(&header).unwrap(), "x");
    let dotted = format!("connection_string = \"x\"\n{} = 1\n", vec!["a"; MAX_NESTING_MARKS + 1].join("."));
    assert_eq!(count_nesting_marks(&dotted), MAX_NESTING_MARKS);
    assert_eq!(Config::get_connection_string(&dotted).unwrap(), "x");
}

#[test]
fn loader_ignores_fields_of_other_kinds() {
    let o = Loader::get_operation(r#"{"name": "a", "description": "d", "command": "SELECT 1", "timeout": 30, "tags": ["x"]}"#).unwrap();
    assert_eq!(o.command, "SELECT 1");
    assert!(Loader::get_operation(r#"{"name": 7, "description": "d", "command": "SELECT 1"}"#).is_none());
}
