use std::cell::RefCell;
use std::collections::HashMap;

use db::backend::surreal_rows::{records_of, tabulate, ResponseValue, StatementValue};
use db::backend::{Database, QueryParams, QueryResult, Row, Value, ValueType};
use db::queries::location::FunctionLocation;
use db::query_builders::validate_regex_pattern;
use db::sorting::stable_sort;
use db::queries::connectivity::get_module_connectivity;
use db::queries::cycles::find_cycle_edges;
use db::queries::hotspots::{get_function_counts, get_module_loc, HotspotsError};
use db::queries::path::{find_paths, PathError};
use db::text::{chars_of, decimal_string, escape_pattern, join_strings, parse_i64, str_contains, where_clause};
use db::{try_create_relation, DbError};

/// A database that answers each query with the next prepared outcome and
/// remembers the queries it was given.
struct Scripted {
    answers: RefCell<Vec<Result<QueryResult, DbError>>>,
    queries: RefCell<Vec<String>>,
}

impl Database for Scripted {
    fn execute_query(&self, query: &str, _params: QueryParams) -> Result<QueryResult, DbError> {
        self.queries.borrow_mut().push(query.to_string());
        let mut answers = self.answers.borrow_mut();
        if answers.is_empty() {
            Ok(QueryResult { headers: vec![], rows: vec![] })
        } else {
            answers.remove(0)
        }
    }
}

fn scripted(answers: Vec<Result<QueryResult, DbError>>) -> Scripted {
    Scripted { answers: RefCell::new(answers), queries: RefCell::new(vec![]) }
}

fn s(x: &str) -> Value {
    Value::Str(x.to_string())
}

fn i(n: i64) -> Value {
    Value::Int(n)
}

fn func(module: &str, name: &str, arity: i64) -> Value {
    Value::Thing(Box::new(Value::Array(vec![s(module), s(name), i(arity)])))
}

fn result(headers: &[&str], rows: Vec<Vec<Value>>) -> QueryResult {
    QueryResult {
        headers: headers.iter().map(|h| h.to_string()).collect(),
        rows: rows.into_iter().map(Row::new).collect(),
    }
}

fn as_map(v: Vec<(String, i64)>) -> HashMap<String, i64> {
    v.into_iter().collect()
}

// ---------------------------------------------------------------- module figures

#[test]
fn get_module_loc_reads_loc_then_module() {
    let db = scripted(vec![Ok(result(
        &["loc", "module_name"],
        vec![vec![i(30), s("A")], vec![i(10), s("B")], vec![i(7), Value::Null], vec![i(5), s("A")]],
    ))]);
    let loc = get_module_loc(&db, "default", None, false).unwrap();
    assert_eq!(loc.len(), 2);
    let map = as_map(loc);
    assert_eq!(map["A"], 5);
    assert_eq!(map["B"], 10);
    assert!(!db.queries.borrow()[0].contains("WHERE"));
}

#[test]
fn get_module_loc_filters_by_module_and_rejects_bad_regex() {
    let db = scripted(vec![Ok(result(&["loc", "module_name"], vec![vec![i(12), s("MyApp.Accounts")]]))]);
    let loc = get_module_loc(&db, "default", Some("MyApp.Accounts"), false).unwrap();
    assert_eq!(as_map(loc)["MyApp.Accounts"], 12);
    assert!(db.queries.borrow()[0].contains("WHERE module_name = $module_pattern"));

    let db = scripted(vec![]);
    match get_module_loc(&db, "default", Some("[invalid"), true) {
        Err(HotspotsError::InvalidRegex { pattern }) => assert_eq!(pattern, "[invalid"),
        other => panic!("expected an invalid regex, got {:?}", other),
    }
    assert!(db.queries.borrow().is_empty());
}

#[test]
fn get_function_counts_reads_counts() {
    let db = scripted(vec![Ok(result(
        &["function_count", "module_name"],
        vec![vec![i(4), s("MyApp.Accounts")], vec![i(3), s("MyApp.Controller")]],
    ))]);
    let counts = as_map(get_function_counts(&db, "default", None, false).unwrap());
    assert_eq!(counts.len(), 2);
    assert_eq!(counts["MyApp.Accounts"], 4);
    assert_eq!(counts["MyApp.Controller"], 3);
}

#[test]
fn get_function_counts_reports_query_failure() {
    let db = scripted(vec![Err(DbError::QueryFailed { message: "boom".to_string() })]);
    match get_function_counts(&db, "default", Some("^MyApp"), true) {
        Err(HotspotsError::QueryFailed { message }) => assert_eq!(message, "Query failed: boom"),
        other => panic!("expected a query failure, got {:?}", other),
    }
    assert!(db.queries.borrow()[0].contains("string::matches(module_name, $module_pattern)"));
}

// ---------------------------------------------------------------- connectivity

fn connectivity_rows() -> QueryResult {
    result(
        &["source", "target"],
        vec![
            vec![s("A"), s("B")],
            vec![s("A"), s("C")],
            vec![s("B"), s("C")],
            vec![s("A"), s("B")],
            vec![s("C"), Value::Null],
        ],
    )
}

#[test]
fn get_module_connectivity_counts_distinct_modules() {
    let db = scripted(vec![Ok(connectivity_rows())]);
    let conn: HashMap<String, (i64, i64)> =
        get_module_connectivity(&db, "default", None, false).unwrap().into_iter().collect();
    assert_eq!(conn.len(), 3);
    assert_eq!(conn["A"], (0, 2));
    assert_eq!(conn["B"], (1, 1));
    assert_eq!(conn["C"], (2, 0));
}

#[test]
fn get_module_connectivity_keeps_the_matching_module() {
    let db = scripted(vec![Ok(connectivity_rows())]);
    let conn = get_module_connectivity(&db, "default", Some("B"), false).unwrap();
    assert_eq!(conn, vec![("B".to_string(), (1, 1))]);

    let db = scripted(vec![Ok(connectivity_rows())]);
    let conn = get_module_connectivity(&db, "default", Some("NonExistent"), false).unwrap();
    assert!(conn.is_empty());

    let db = scripted(vec![]);
    assert!(matches!(
        get_module_connectivity(&db, "default", Some("[invalid"), true),
        Err(HotspotsError::InvalidRegex { .. })
    ));
}

#[test]
fn get_module_connectivity_regex_filter() {
    let db = scripted(vec![Ok(connectivity_rows())]);
    let mut conn = get_module_connectivity(&db, "default", Some("^[AB]$"), true).unwrap();
    conn.sort();
    assert_eq!(conn, vec![("A".to_string(), (0, 2)), ("B".to_string(), (1, 1))]);
}

// ---------------------------------------------------------------- paths

#[test]
fn find_paths_turns_each_walk_into_numbered_steps() {
    let walk = Value::Array(vec![
        func("MyApp.Controller", "create", 2),
        func("MyApp.Service", "process_request", 2),
        func("MyApp.Notifier", "send_email", 2),
    ]);
    let db = scripted(vec![
        Ok(result(&["path"], vec![vec![walk], vec![Value::Array(vec![func("X", "y", 0)])]])),
        Ok(result(&["file", "line"], vec![vec![s("lib/controller.ex"), i(12)]])),
        Err(DbError::QueryFailed { message: "gone".to_string() }),
    ]);
    let paths = find_paths(
        &db,
        "MyApp.Controller",
        "create",
        2,
        "MyApp.Notifier",
        "send_email",
        2,
        "default",
        5,
        10,
    )
    .unwrap();
    assert_eq!(paths.len(), 1);
    let steps = &paths[0].steps;
    assert_eq!(steps.len(), 2);
    assert_eq!(steps[0].depth, 1);
    assert_eq!(steps[0].caller_module, "MyApp.Controller");
    assert_eq!(steps[0].callee_function, "process_request");
    assert_eq!(steps[0].line, 12);
    assert_eq!(steps[0].file, "lib/controller.ex");
    assert_eq!(steps[1].depth, 2);
    assert_eq!(steps[1].caller_function, "process_request");
    assert_eq!(steps[1].callee_module, "MyApp.Notifier");
    assert_eq!(steps[1].callee_arity, 2);
    assert_eq!(steps[1].line, 0);
    assert_eq!(steps[1].file, "");
}

#[test]
fn find_paths_reports_the_query_failure() {
    let db = scripted(vec![Err(DbError::QueryFailed { message: "timeout".to_string() })]);
    match find_paths(&db, "A", "f", 1, "B", "g", 1, "default", 3, 10) {
        Err(PathError::QueryFailed { message }) => assert_eq!(message, "Query failed: timeout"),
        other => panic!("expected a query failure, got {:?}", other),
    }
}

// ---------------------------------------------------------------- rows of a response

fn object(fields: Vec<(&str, Value)>) -> Vec<(String, Value)> {
    fields.into_iter().map(|(k, v)| (k.to_string(), v)).collect()
}

#[test]
fn tabulate_takes_columns_from_the_first_record() {
    let response = vec![
        ResponseValue::Object(object(vec![("arity", i(1)), ("name", s("f"))])),
        ResponseValue::Object(object(vec![("arity", i(2)), ("name", s("g"))])),
        ResponseValue::Object(object(vec![("name", s("h"))])),
    ];
    let table = tabulate(response);
    assert_eq!(table.headers, vec!["arity", "name"]);
    assert_eq!(table.rows.len(), 3);
    assert_eq!(table.rows[1].get(1).and_then(|v| v.as_str()), Some("g"));
    assert_eq!(table.rows[1].get(0).and_then(|v| v.as_i64()), Some(2));
    assert!(matches!(table.rows[2].get(0), Some(Value::Null)));
    assert_eq!(table.rows[2].get(1).and_then(|v| v.as_str()), Some("h"));
}

#[test]
fn records_of_each_statement_value() {
    assert_eq!(records_of(StatementValue::Nothing).len(), 0);
    let one = records_of(StatementValue::Object(object(vec![("a", i(1))])));
    assert_eq!(one.len(), 1);
    let table = tabulate(one);
    assert_eq!(table.headers, vec!["a"]);
    let single = tabulate(records_of(StatementValue::Other(i(7))));
    assert!(single.headers.is_empty());
    assert_eq!(single.rows[0].get(0).and_then(|v| v.as_i64()), Some(7));
    let many = records_of(StatementValue::Array(vec![ResponseValue::Single(i(1)), ResponseValue::Single(i(2))]));
    assert_eq!(many.len(), 2);
}

// ---------------------------------------------------------------- numbers as text

#[test]
fn decimal_text_reads_back() {
    for n in [0i64, 7, -7, 42, 1000, i64::MAX, i64::MIN] {
        let text = decimal_string(n);
        assert_eq!(text, n.to_string());
        assert_eq!(parse_i64(&chars_of(&text)), Some(n));
    }
    assert_eq!(parse_i64(&chars_of("12a")), None);
    assert_eq!(parse_i64(&chars_of("")), None);
}

// ---------------------------------------------------------------- parameters and text helpers

#[test]
fn query_params_keep_one_binding_per_name_in_name_order() {
    let p = QueryParams::new()
        .with_str("b", "x")
        .with_int("a", 1)
        .with_bool("c", true)
        .with_str("b", "y");
    assert_eq!(p.len(), 3);
    let names: Vec<&str> = p.params().iter().map(|(k, _)| k.as_str()).collect();
    assert_eq!(names, vec!["a", "b", "c"]);
    assert!(matches!(p.get("b"), Some(ValueType::Str(s)) if s == "y"));
    assert!(matches!(p.get("a"), Some(ValueType::Int(1))));
    assert!(p.get("d").is_none());
    assert!(p.contains_key("c"));
    let arr = QueryParams::new().with_str_array("xs", vec!["u".to_string(), "v".to_string()]);
    assert!(matches!(arr.get("xs"), Some(ValueType::StrArray(v)) if v.len() == 2));
}

#[test]
fn text_helpers() {
    assert_eq!(escape_pattern(r#"a\b"c"#), r#"a\\b\"c"#);
    assert_eq!(join_strings(&vec!["a".to_string(), "b".to_string(), "c".to_string()], ", "), "a, b, c");
    assert_eq!(join_strings(&vec![], ", "), "");
    assert_eq!(where_clause("WHERE ", &vec![]), "");
    assert!(str_contains("table already exists", "already exists"));
    assert!(!str_contains("already", "already exists"));
}

#[test]
fn stable_sort_orders_by_key_and_keeps_ties_in_place() {
    let loc = |module: &str, name: &str, arity: i64, line: i64, file: &str| FunctionLocation {
        project: "default".to_string(),
        file: file.to_string(),
        line,
        start_line: line,
        end_line: line,
        module: module.to_string(),
        kind: "def".to_string(),
        name: name.to_string(),
        arity,
        pattern: String::new(),
        guard: String::new(),
    };
    let sorted = stable_sort(vec![
        loc("B", "f", 1, 3, "x"),
        loc("A", "g", 0, 9, "x"),
        loc("A", "f", 2, 1, "y"),
        loc("A", "f", 2, 1, "z"),
        loc("A", "f", 1, 5, "x"),
    ]);
    let keys: Vec<(String, String, i64, String)> =
        sorted.iter().map(|l| (l.module.clone(), l.name.clone(), l.arity, l.file.clone())).collect();
    assert_eq!(
        keys,
        vec![
            ("A".to_string(), "f".to_string(), 1, "x".to_string()),
            ("A".to_string(), "f".to_string(), 2, "y".to_string()),
            ("A".to_string(), "f".to_string(), 2, "z".to_string()),
            ("A".to_string(), "g".to_string(), 0, "x".to_string()),
            ("B".to_string(), "f".to_string(), 1, "x".to_string()),
        ]
    );
}

#[test]
fn values_and_results_hand_out_what_they_hold() {
    assert_eq!(Value::Bool(true).as_bool(), Some(true));
    assert_eq!(s("x").as_bool(), None);
    assert_eq!(i(3).as_str(), None);
    let r = result(&["a"], vec![vec![i(1)], vec![i(2)]]);
    assert_eq!(r.headers(), &vec!["a".to_string()]);
    let rows = r.into_rows();
    assert_eq!(rows.len(), 2);
    assert_eq!(rows[1].get(0).and_then(|v| v.as_i64()), Some(2));
    assert!(rows[0].get(1).is_none());
}

#[test]
fn validate_regex_pattern_checks_only_in_regex_mode() {
    assert!(validate_regex_pattern(true, "^a.*b$").is_ok());
    assert_eq!(validate_regex_pattern(true, "(unclosed"), Err("(unclosed".to_string()));
    assert!(validate_regex_pattern(false, "(unclosed").is_ok());
}

#[test]
fn find_cycle_edges_gives_the_same_report_twice() {
    let rows = || {
        result(
            &["from_module", "to_module"],
            vec![
                vec![s("B"), s("A")],
                vec![s("A"), s("B")],
                vec![s("B"), s("C")],
                vec![s("C"), s("A")],
                vec![s("C"), s("D")],
            ],
        )
    };
    let db = scripted(vec![Ok(rows()), Ok(rows())]);
    let first = find_cycle_edges(&db, "default", None).unwrap();
    let second = find_cycle_edges(&db, "default", None).unwrap();
    assert_eq!(first, second);
    let pairs: Vec<(String, String)> = first.iter().map(|e| (e.from.clone(), e.to.clone())).collect();
    assert_eq!(
        pairs,
        vec![
            ("A".to_string(), "B".to_string()),
            ("B".to_string(), "A".to_string()),
            ("B".to_string(), "C".to_string()),
            ("C".to_string(), "A".to_string()),
        ]
    );
}

#[test]
fn find_cycle_edges_keeps_edges_between_modules_on_cycles() {
    let db = scripted(vec![Ok(result(
        &["from_module", "to_module"],
        vec![
            vec![s("a"), s("b")],
            vec![s("b"), s("a")],
            vec![s("c"), s("d")],
            vec![s("d"), s("c")],
            vec![s("a"), s("c")],
            vec![s("d"), s("e")],
        ],
    ))]);
    let edges = find_cycle_edges(&db, "default", None).unwrap();
    let pairs: Vec<(String, String)> = edges.iter().map(|e| (e.from.clone(), e.to.clone())).collect();
    let want: Vec<(String, String)> = [("a", "b"), ("a", "c"), ("b", "a"), ("c", "d"), ("d", "c")]
        .iter()
        .map(|(f, t)| (f.to_string(), t.to_string()))
        .collect();
    assert_eq!(pairs, want);
}

#[test]
fn try_create_relation_reads_already_defined_as_existing() {
    let db = scripted(vec![
        Err(DbError::QueryFailed { message: "The table 'modules' is already defined".to_string() }),
        Err(DbError::QueryFailed { message: "table already exists".to_string() }),
        Err(DbError::QueryFailed { message: "syntax error".to_string() }),
        Ok(result(&[], vec![])),
    ]);
    assert!(matches!(try_create_relation(&db, "DEFINE TABLE modules SCHEMAFULL;"), Ok(false)));
    assert!(matches!(try_create_relation(&db, "DEFINE TABLE modules SCHEMAFULL;"), Ok(false)));
    assert!(matches!(
        try_create_relation(&db, "DEFINE TABLE modules SCHEMAFULL;"),
        Err(DbError::QueryFailed { message }) if message == "syntax error"
    ));
    assert!(matches!(try_create_relation(&db, "DEFINE TABLE modules SCHEMAFULL;"), Ok(true)));
}
