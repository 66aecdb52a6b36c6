use std::cell::RefCell;

use db::backend::{Database, QueryParams, QueryResult, Row, Value, ValueType};
use db::queries::accepts::{find_accepts, AcceptsError};
use db::queries::calls::{find_calls, find_calls_from, find_calls_to, CallDirection};
use db::queries::clusters::get_module_calls;
use db::queries::complexity::find_complexity_metrics;
use db::queries::cycles::find_cycle_edges;
use db::queries::dependencies::{find_dependencies, DependencyDirection};
use db::queries::depended_by::find_dependents;
use db::queries::duplicates::{find_duplicates, DuplicatesError};
use db::queries::file::find_functions_in_module;
use db::queries::function::find_functions;
use db::queries::hotspots::{find_hotspots, HotspotKind, HotspotsError};
use db::queries::large_functions::find_large_functions;
use db::queries::location::find_locations;
use db::queries::many_clauses::find_many_clauses;
use db::queries::return_types::find_returns;
use db::queries::reverse_trace::steps_from_calls;
use db::types::{Call, FunctionRef};
use db::DbError;

/// A database that answers each query with the next prepared outcome and
/// remembers the queries and their parameters.
struct ScriptedDb {
    answers: RefCell<Vec<Result<QueryResult, DbError>>>,
    seen: RefCell<Vec<(String, Vec<(String, String)>)>>,
}

fn describe(v: &ValueType) -> String {
    match v {
        ValueType::Str(s) => format!("str:{}", s),
        ValueType::Int(n) => format!("int:{}", n),
        ValueType::Bool(b) => format!("bool:{}", b),
        ValueType::StrArray(a) => format!("arr:{}", a.join("|")),
    }
}

impl Database for ScriptedDb {
    fn execute_query(&self, query: &str, params: QueryParams) -> Result<QueryResult, DbError> {
        let bound = params.params().iter().map(|(k, v)| (k.clone(), describe(v))).collect();
        self.seen.borrow_mut().push((query.to_string(), bound));
        let mut answers = self.answers.borrow_mut();
        if answers.is_empty() {
            Ok(QueryResult { headers: vec![], rows: vec![] })
        } else {
            answers.remove(0)
        }
    }
}

fn scripted(answers: Vec<Result<QueryResult, DbError>>) -> ScriptedDb {
    ScriptedDb { answers: RefCell::new(answers), seen: RefCell::new(vec![]) }
}

fn s(x: &str) -> Value {
    Value::Str(x.to_string())
}

fn i(n: i64) -> Value {
    Value::Int(n)
}

fn thing(parts: Vec<Value>) -> Value {
    Value::Thing(Box::new(Value::Array(parts)))
}

fn result(headers: &[&str], rows: Vec<Vec<Value>>) -> QueryResult {
    QueryResult {
        headers: headers.iter().map(|h| h.to_string()).collect(),
        rows: rows.into_iter().map(Row::new).collect(),
    }
}

fn param<'a>(seen: &'a [(String, String)], key: &str) -> Option<&'a str> {
    seen.iter().find(|(k, _)| k == key).map(|(_, v)| v.as_str())
}

// ---------------------------------------------------------------- accepts

fn accepts_row(name: &str, module: &str, arity: i64, inputs: &str) -> Vec<Value> {
    vec![i(arity), s(name), Value::Null, s(inputs), i(10), s(module), s("default"), s("ok")]
}

#[test]
fn test_find_accepts_reads_rows_in_column_order() {
    let db = scripted(vec![Ok(result(&[], vec![
        accepts_row("get_user", "MyApp.Accounts", 1, "integer()"),
        vec![i(1), Value::Null, Value::Null, s("x"), i(1), s("M"), s("default"), s("")],
        accepts_row("get", "MyApp.Repo", 2, "module(), integer()"),
    ]))]);
    let entries = find_accepts(&db, "integer()", "default", false, None, 100).unwrap();
    assert_eq!(entries.len(), 2);
    assert_eq!(entries[0].name, "get_user");
    assert_eq!(entries[0].module, "MyApp.Accounts");
    assert_eq!(entries[0].arity, 1);
    assert_eq!(entries[0].line, 10);
    assert_eq!(entries[0].project, "default");
    assert_eq!(entries[1].inputs_string, "module(), integer()");
    let seen = db.seen.borrow();
    assert!(seen[0].0.contains("WHERE string::contains(array::join(input_strings, ' '), 'integer()')"));
    assert_eq!(param(&seen[0].1, "limit"), Some("int:100"));
    assert_eq!(seen[0].1.len(), 1);
}

#[test]
fn test_find_accepts_without_filters_has_no_where() {
    let db = scripted(vec![]);
    let entries = find_accepts(&db, "", "default", false, None, 3).unwrap();
    assert!(entries.is_empty());
    let seen = db.seen.borrow();
    assert!(!seen[0].0.contains("WHERE"));
    assert!(seen[0].0.contains("ORDER BY module_name, function_name, arity"));
}

#[test]
fn test_find_accepts_regex_and_module_filters_escape_the_pattern() {
    let db = scripted(vec![]);
    find_accepts(&db, "^Ecto\\.", "default", true, Some("My\"App"), 100).unwrap();
    let seen = db.seen.borrow();
    assert!(seen[0].0.contains(
        "WHERE array::len(array::filter(input_strings, |$v| string::matches($v, /^^Ecto\\\\./))) > 0 AND string::matches(module_name, /^My\\\"App/)"
    ));
}

#[test]
fn test_find_accepts_invalid_regex() {
    let db = scripted(vec![]);
    match find_accepts(&db, "[invalid", "default", true, None, 100) {
        Err(AcceptsError::InvalidRegex { pattern }) => assert_eq!(pattern, "[invalid"),
        other => panic!("unexpected {:?}", other),
    }
    assert!(db.seen.borrow().is_empty());
}

#[test]
fn test_find_accepts_query_failure_message() {
    let db = scripted(vec![Err(DbError::QueryFailed { message: "boom".to_string() })]);
    let err = find_accepts(&db, "", "default", false, None, 100).unwrap_err();
    assert_eq!(err.to_string(), "Accepts query failed: Query failed: boom");
}

// ---------------------------------------------------------------- returns

#[test]
fn test_find_returns_reads_rows() {
    let db = scripted(vec![Ok(result(&[], vec![
        vec![i(0), s("list_users"), Value::Null, i(4), s("MyApp.Accounts"), s("default"), s("[user()]")],
    ]))]);
    let entries = find_returns(&db, "user()", false, Some("MyApp.Accounts"), 100).unwrap();
    assert_eq!(entries.len(), 1);
    assert_eq!(entries[0].name, "list_users");
    assert_eq!(entries[0].arity, 0);
    assert_eq!(entries[0].line, 4);
    assert_eq!(entries[0].return_string, "[user()]");
    let seen = db.seen.borrow();
    assert!(seen[0].0.contains(
        "WHERE string::contains(array::join(return_strings, ', '), 'user()') AND module_name = 'MyApp.Accounts'"
    ));
}

// ---------------------------------------------------------------- calls

fn call_row(caller: (&str, &str, i64), callee: (&str, &str, i64), kind: &str, start: i64, end: i64, call_type: &str) -> Vec<Value> {
    vec![
        s(call_type), i(callee.2), s(callee.1), i(12), s(callee.0),
        i(caller.2), i(end), s(kind), s(caller.0), s(caller.1), i(start), s("lib/a.ex"), s("default"),
    ]
}

#[test]
fn test_find_calls_from_builds_query_and_reads_calls() {
    let db = scripted(vec![Ok(result(&[], vec![
        call_row(("MyApp.Controller", "index", 2), ("MyApp.Repo", "get", 2), "def", 5, 9, "remote"),
        call_row(("MyApp.Controller", "show", 2), ("MyApp.Repo", "all", 1), "", 5, 9, ""),
    ]))]);
    let calls = find_calls_from(&db, "MyApp.Controller", Some("index"), Some(2), "default", false, 10).unwrap();
    assert_eq!(calls.len(), 2);
    assert_eq!(calls[0].caller.module, "MyApp.Controller");
    assert_eq!(calls[0].caller.kind.as_deref(), Some("def"));
    assert_eq!(calls[0].caller.start_line, Some(5));
    assert_eq!(calls[0].caller.file.as_deref(), Some("lib/a.ex"));
    assert_eq!(calls[0].callee.name, "get");
    assert_eq!(calls[0].line, 12);
    assert_eq!(calls[0].call_type.as_deref(), Some("remote"));
    assert!(calls[1].caller.kind.is_none());
    assert!(calls[1].call_type.is_none());
    let seen = db.seen.borrow();
    assert!(seen[0].0.contains("WHERE in.module_name = $module_pattern AND type::string(in.name) = $function_pattern AND in.arity = $arity"));
    assert!(seen[0].0.contains("ORDER BY in.module_name, in.name, in.arity, line, out.module_name, out.name, out.arity"));
    assert_eq!(param(&seen[0].1, "arity"), Some("int:2"));
    assert_eq!(param(&seen[0].1, "function_pattern"), Some("str:index"));
}

#[test]
fn test_find_calls_to_regex_query() {
    let db = scripted(vec![]);
    find_calls_to(&db, "MyApp\\..*", None, None, true, 5).unwrap();
    let seen = db.seen.borrow();
    assert!(seen[0].0.contains("WHERE string::matches(out.module_name, $module_pattern)\n"));
    assert_eq!(param(&seen[0].1, "limit"), Some("int:5"));
    assert_eq!(seen[0].1.len(), 2);
}

#[test]
fn test_find_calls_skips_rows_without_names() {
    let mut row = call_row(("A", "f", 1), ("B", "g", 0), "def", 1, 2, "local");
    row[2] = Value::Null;
    let db = scripted(vec![Ok(result(&[], vec![row, vec![s("short")]]))]);
    let calls = find_calls(&db, CallDirection::From, "A", None, None, false, 5).unwrap();
    assert!(calls.is_empty());
}

// ---------------------------------------------------------------- sorted lookups

#[test]
fn test_find_locations_sorts_by_module_name_arity_line() {
    let loc = |module: &str, name: &str, arity: i64, line: i64| {
        vec![i(arity), i(line + 3), s("lib/x.ex"), s(""), s("def"), i(line), s(module), s(name), s("[x]"), s("default"), i(line)]
    };
    let db = scripted(vec![Ok(result(&[], vec![
        loc("B", "a", 1, 7), loc("A", "z", 1, 3), loc("A", "a", 2, 9), loc("A", "a", 1, 20), loc("A", "a", 1, 10),
    ]))]);
    let locs = find_locations(&db, None, "a", None, "default", true, 100).unwrap();
    let order: Vec<(String, String, i64, i64)> = locs.iter().map(|l| (l.module.clone(), l.name.clone(), l.arity, l.line)).collect();
    assert_eq!(order, vec![
        ("A".to_string(), "a".to_string(), 1, 10),
        ("A".to_string(), "a".to_string(), 1, 20),
        ("A".to_string(), "a".to_string(), 2, 9),
        ("A".to_string(), "z".to_string(), 1, 3),
        ("B".to_string(), "a".to_string(), 1, 7),
    ]);
    assert_eq!(locs[0].end_line, 13);
    assert_eq!(locs[0].pattern, "[x]");
    let seen = db.seen.borrow();
    assert!(seen[0].0.contains("WHERE 1 = 1\n          AND function_name = <regex>$function_pattern"));
}

#[test]
fn test_find_functions_sorts_and_reads() {
    let db = scripted(vec![Ok(result(&[], vec![
        vec![s(""), i(2), s("M"), s("b"), s("default"), s("t()")],
        vec![s(""), i(1), s("M"), s("b"), s("default"), Value::Null],
        vec![s(""), i(0), s("L"), s("z"), s("default"), s("x")],
    ]))]);
    let sigs = find_functions(&db, "M", "b", None, "default", false, 10).unwrap();
    let order: Vec<(String, String, i64)> = sigs.iter().map(|f| (f.module.clone(), f.name.clone(), f.arity)).collect();
    assert_eq!(order, vec![("L".to_string(), "z".to_string(), 0), ("M".to_string(), "b".to_string(), 1), ("M".to_string(), "b".to_string(), 2)]);
    assert_eq!(sigs[1].return_type, "");
    assert_eq!(sigs[2].return_type, "t()");
}

#[test]
fn test_find_functions_in_module_sorts_by_start_line() {
    let clause = |module: &str, name: &str, start: i64| {
        vec![i(1), i(start + 2), s(name), s(""), s("def"), i(start), s(module), s("x"), s("lib/m.ex"), i(start)]
    };
    let db = scripted(vec![Ok(result(&[], vec![clause("M", "later", 30), clause("M", "first", 3), clause("A", "zz", 50)]))]);
    let defs = find_functions_in_module(&db, "M|A", true, 100).unwrap();
    let names: Vec<&str> = defs.iter().map(|d| d.name.as_str()).collect();
    assert_eq!(names, vec!["zz", "first", "later"]);
    assert_eq!(defs[1].file, "lib/m.ex");
    let seen = db.seen.borrow();
    assert!(seen[0].0.contains("WHERE string::matches(module_name, $module_pattern)"));
}

// ---------------------------------------------------------------- sizes

#[test]
fn test_find_many_clauses_conditions() {
    let db = scripted(vec![Ok(result(&[], vec![
        vec![i(1), i(5), s("lib/a.ex"), i(3), s("handle"), Value::Null, i(40), s("A")],
    ]))]);
    let found = find_many_clauses(&db, 3, Some("A"), "default", false, false, 10).unwrap();
    assert_eq!(found.len(), 1);
    assert_eq!(found[0].clauses, 5);
    assert_eq!(found[0].generated_by, "");
    let seen = db.seen.borrow();
    assert!(seen[0].0.contains("WHERE module_name = $module_pattern AND (generated_by IS NONE OR generated_by = \"\")"));
    assert_eq!(param(&seen[0].1, "min_clauses"), Some("int:3"));
}

#[test]
fn test_find_large_functions_always_filters_by_size() {
    let db = scripted(vec![]);
    find_large_functions(&db, 50, None, "default", false, true, 10).unwrap();
    let seen = db.seen.borrow();
    assert!(seen[0].0.contains("WHERE end_line - start_line + 1 >= $min_lines\n"));
}

#[test]
fn test_find_complexity_metrics_computes_lines() {
    let db = scripted(vec![Ok(result(&[], vec![
        vec![i(1), i(12), i(20), s("f"), i(10), i(3), s("M"), i(10)],
        vec![i(1), i(12), i(5), s("g"), i(10), i(3), s("M"), i(10)],
    ]))]);
    let found = find_complexity_metrics(&db, 10, 2, None, "default", false, false, 10).unwrap();
    assert_eq!(found[0].lines, 11);
    assert_eq!(found[1].lines, 0);
    assert_eq!(found[0].generated_by, "");
}

// ---------------------------------------------------------------- hotspots

fn hotspot_db() -> ScriptedDb {
    let incoming = result(&["cnt", "out"], vec![
        vec![i(5), thing(vec![s("A"), s("f"), i(1)])],
        vec![i(2), thing(vec![s("B"), s("g"), i(0)])],
        vec![i(7), thing(vec![s("B"), s("g"), i(0)])],
    ]);
    let outgoing = result(&["cnt", "in"], vec![
        vec![i(1), thing(vec![s("A"), s("f"), i(1)])],
        vec![i(9), thing(vec![s("C"), s("h"), i(2)])],
    ]);
    let functions = result(&["function", "module"], vec![
        vec![s("f"), s("A")],
        vec![s("g"), s("B")],
        vec![s("h"), s("C")],
        vec![s("k"), s("C")],
    ]);
    scripted(vec![Ok(incoming), Ok(outgoing), Ok(functions)])
}

#[test]
fn test_find_hotspots_incoming_ranking() {
    let db = hotspot_db();
    let hs = find_hotspots(&db, HotspotKind::Incoming, None, "default", false, 10, false, false).unwrap();
    let order: Vec<(&str, i64, i64, i64)> = hs.iter().map(|h| (h.function.as_str(), h.incoming, h.outgoing, h.total)).collect();
    assert_eq!(order, vec![("g", 7, 0, 7), ("f", 5, 1, 6), ("h", 0, 9, 9), ("k", 0, 0, 0)]);
}

#[test]
fn test_find_hotspots_total_with_limit() {
    let db = hotspot_db();
    let hs = find_hotspots(&db, HotspotKind::Total, None, "default", false, 2, false, false).unwrap();
    let names: Vec<&str> = hs.iter().map(|h| h.function.as_str()).collect();
    assert_eq!(names, vec!["h", "g"]);
}

#[test]
fn test_find_hotspots_require_outgoing_and_module_filter() {
    let db = hotspot_db();
    let hs = find_hotspots(&db, HotspotKind::Outgoing, Some("^[AC]$"), "default", true, 10, false, true).unwrap();
    let names: Vec<&str> = hs.iter().map(|h| h.function.as_str()).collect();
    assert_eq!(names, vec!["h", "f"]);
}

#[test]
fn test_find_hotspots_ratio_keeps_listing_order() {
    let db = hotspot_db();
    let hs = find_hotspots(&db, HotspotKind::Ratio, None, "default", false, 1, false, false).unwrap();
    let names: Vec<&str> = hs.iter().map(|h| h.function.as_str()).collect();
    assert_eq!(names, vec!["f", "g", "h", "k"]);
}

#[test]
fn test_find_hotspots_reports_which_query_failed() {
    let db = scripted(vec![Ok(result(&[], vec![])), Err(DbError::QueryFailed { message: "x".to_string() })]);
    match find_hotspots(&db, HotspotKind::Incoming, None, "default", false, 10, false, false) {
        Err(HotspotsError::QueryFailed { message }) => assert_eq!(message, "Failed to get outgoing calls: Query failed: x"),
        other => panic!("unexpected {:?}", other),
    }
}

#[test]
fn test_hotspot_kind_default_is_incoming() {
    assert_eq!(HotspotKind::default(), HotspotKind::Incoming);
}

// ---------------------------------------------------------------- cycles

#[test]
fn test_find_cycle_edges_reports_each_cycle_edge_once_sorted() {
    let db = scripted(vec![Ok(result(&["from_module", "to_module"], vec![
        vec![s("B"), s("C")],
        vec![s("A"), s("B")],
        vec![s("C"), s("A")],
        vec![s("A"), s("B")],
        vec![s("C"), s("D")],
        vec![s("E"), s("F")],
        vec![s("F"), s("E")],
    ]))]);
    let edges = find_cycle_edges(&db, "default", None).unwrap();
    let pairs: Vec<(&str, &str)> = edges.iter().map(|e| (e.from.as_str(), e.to.as_str())).collect();
    assert_eq!(pairs, vec![("A", "B"), ("B", "C"), ("C", "A"), ("E", "F"), ("F", "E")]);
}

#[test]
fn test_find_cycle_edges_module_filter_and_no_cycles() {
    let db = scripted(vec![Ok(result(&[], vec![
        vec![s("App.A"), s("App.B")],
        vec![s("App.B"), s("App.A")],
        vec![s("Lib.X"), s("Lib.Y")],
        vec![s("Lib.Y"), s("Lib.X")],
    ]))]);
    let edges = find_cycle_edges(&db, "default", Some("Lib")).unwrap();
    let pairs: Vec<(&str, &str)> = edges.iter().map(|e| (e.from.as_str(), e.to.as_str())).collect();
    assert_eq!(pairs, vec![("Lib.X", "Lib.Y"), ("Lib.Y", "Lib.X")]);
    let db = scripted(vec![Ok(result(&[], vec![vec![s("A"), s("B")], vec![s("B"), s("C")]]))]);
    assert!(find_cycle_edges(&db, "default", None).unwrap().is_empty());
}

// ---------------------------------------------------------------- duplicates

#[test]
fn test_find_duplicates_keeps_repeated_hashes() {
    let db = scripted(vec![Ok(result(&["arity", "file", "hash", "line", "module", "name"], vec![
        vec![i(1), s("a.ex"), s("h1"), i(3), s("App.A"), s("f")],
        vec![i(1), s("b.ex"), s("h2"), i(4), s("App.B"), s("g")],
        vec![i(2), s("c.ex"), s("h1"), i(5), s("Lib.C"), s("f")],
        vec![i(2), s(""), s("h2"), i(6), s("App.D"), s("g")],
    ]))]);
    let dups = find_duplicates(&db, "default", None, false, false, true).unwrap();
    let names: Vec<(&str, &str)> = dups.iter().map(|d| (d.module.as_str(), d.hash.as_str())).collect();
    assert_eq!(names, vec![("App.A", "h1"), ("Lib.C", "h1")]);
    let seen = db.seen.borrow();
    assert_eq!(seen[0].0, "SELECT ast_sha as hash, module_name as module, function_name as name, arity, line, source_file as file FROM clauses WHERE ast_sha != \"\" AND (generated_by IS NONE) ORDER BY hash, module, name, arity");
}

#[test]
fn test_find_duplicates_module_filters() {
    let rows = || vec![
        vec![s("h1"), s("App.A"), s("f"), i(1), i(3), s("a.ex")],
        vec![s("h1"), s("Lib.C"), s("f"), i(2), i(5), s("c.ex")],
    ];
    let db = scripted(vec![Ok(result(&[], rows()))]);
    let dups = find_duplicates(&db, "default", Some("App"), false, true, false).unwrap();
    assert_eq!(dups.len(), 1);
    assert_eq!(dups[0].module, "App.A");
    assert!(db.seen.borrow()[0].0.starts_with("SELECT source_sha as hash"));
    let db = scripted(vec![Ok(result(&[], rows()))]);
    let dups = find_duplicates(&db, "default", Some("^Lib\\."), true, false, false).unwrap();
    assert_eq!(dups.len(), 1);
    assert_eq!(dups[0].module, "Lib.C");
    let db = scripted(vec![]);
    match find_duplicates(&db, "default", Some("("), true, false, false) {
        Err(DuplicatesError::InvalidRegex { pattern }) => assert_eq!(pattern, "("),
        other => panic!("unexpected {:?}", other),
    }
}

// ---------------------------------------------------------------- dependencies

#[test]
fn test_find_dependencies_reads_record_references() {
    let db = scripted(vec![Ok(result(&["in", "line", "out"], vec![
        vec![thing(vec![s("A"), s("f"), i(1)]), i(14), thing(vec![s("B"), s("g"), i(2)])],
        vec![thing(vec![s("A"), s("f")]), i(15), thing(vec![s("B"), s("g"), i(2)])],
    ]))]);
    let calls = find_dependencies(&db, DependencyDirection::Outgoing, "A", "default", false, 10).unwrap();
    assert_eq!(calls.len(), 1);
    assert_eq!(calls[0].caller.module, "A");
    assert_eq!(calls[0].callee.arity, 2);
    assert_eq!(calls[0].line, 14);
    assert!(db.seen.borrow()[0].0.contains("WHERE in.module_name = $module_pattern AND in.module_name != out.module_name"));
    let db = scripted(vec![]);
    find_dependents(&db, "B", "default", true, 10).unwrap();
    assert!(db.seen.borrow()[0].0.contains("WHERE string::matches(out.module_name, $module_pattern) AND"));
}

#[test]
fn test_dependency_direction_fields() {
    assert_eq!(DependencyDirection::Outgoing.filter_field(), "caller_module");
    assert_eq!(DependencyDirection::Incoming.filter_field(), "callee_module");
    assert!(DependencyDirection::Incoming.order_clause().starts_with("caller_module"));
}

// ---------------------------------------------------------------- clusters, reverse trace

#[test]
fn test_get_module_calls_reads_pairs() {
    let db = scripted(vec![Ok(result(&["callee_module", "caller_module"], vec![
        vec![s("B"), s("A")],
        vec![Value::Null, s("A")],
    ]))]);
    let calls = get_module_calls(&db, "default").unwrap();
    assert_eq!(calls.len(), 1);
    assert_eq!(calls[0].caller_module, "A");
    assert_eq!(calls[0].callee_module, "B");
}

#[test]
fn test_steps_from_calls_converts_in_order() {
    let caller = FunctionRef::with_definition("A".into(), "f".into(), 1, "def".into(), "a.ex".into(), 3, 9);
    let callee = FunctionRef::new("B".into(), "g".into(), 2);
    let call = Call { caller, callee, line: 5, call_type: None, depth: Some(2) };
    let plain = Call {
        caller: FunctionRef::new("C".into(), "h".into(), 0),
        callee: FunctionRef::new("A".into(), "f".into(), 1),
        line: 7,
        call_type: None,
        depth: None,
    };
    let steps = steps_from_calls(vec![call, plain]);
    assert_eq!(steps.len(), 2);
    assert_eq!(steps[0].depth, 2);
    assert_eq!(steps[0].caller_kind, "def");
    assert_eq!(steps[0].caller_start_line, 3);
    assert_eq!(steps[0].file, "");
    assert_eq!(steps[1].depth, 0);
    assert_eq!(steps[1].caller_kind, "");
    assert_eq!(steps[1].line, 7);
}

#[test]
fn test_caller_site_dropped_whole_when_start_line_is_zero() {
    let db = scripted(vec![Ok(result(&[], vec![
        call_row(("A", "f", 1), ("B", "g", 0), "def", 0, 9, "remote"),
        call_row(("A", "h", 1), ("B", "g", 0), "def", 4, 9, "remote"),
    ]))]);
    let calls = find_calls(&db, CallDirection::From, "A", None, None, false, 5).unwrap();
    assert_eq!(calls.len(), 2);
    assert!(calls[0].caller.kind.is_none());
    assert!(calls[0].caller.file.is_none());
    assert!(calls[0].caller.start_line.is_none());
    assert!(calls[0].caller.end_line.is_none());
    assert_eq!(calls[1].caller.kind.as_deref(), Some("def"));
    assert_eq!(calls[1].caller.start_line, Some(4));
    assert_eq!(calls[1].caller.end_line, Some(9));
    assert!(calls[1].caller.file.is_some());
}
