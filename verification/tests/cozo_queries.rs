use db::backend::cozo::CozoDatabase;
use db::backend::{Database, QueryParams};
use db::queries::accepts::{find_accepts_cozo, AcceptsError};
use db::queries::clusters::get_module_calls_cozo;
use db::queries::complexity::find_complexity_metrics_cozo;
use db::queries::cycles::find_cycle_edges_cozo;
use db::queries::dependencies::{find_dependencies_cozo, DependencyDirection, DependencyError};
use db::queries::depended_by::find_dependents_cozo;
use db::queries::depends_on::find_dependencies_cozo as find_module_dependencies_cozo;
use db::queries::duplicates::find_duplicates_cozo;
use db::queries::function::find_functions_cozo;
use db::queries::large_functions::find_large_functions_cozo;
use db::queries::location::{find_locations_cozo, LocationError};
use db::queries::many_clauses::find_many_clauses_cozo;
use db::queries::reverse_trace::reverse_trace_calls;

fn run(db: &CozoDatabase, script: &str) {
    db.execute_query(script, QueryParams::new()).expect("setup script should run");
}

/// An in-memory CozoDB holding a small project "p": modules A <-> B, C <-> D,
/// A -> C, D -> E, with function locations, specs and functions.
fn project_db() -> CozoDatabase {
    let db = CozoDatabase::open_mem().unwrap();
    run(&db, ":create calls {project: String, caller_module: String, caller_function: String, callee_module: String, callee_function: String, callee_arity: Int, file: String, line: Int}");
    run(&db, ":create function_locations {project: String, module: String, name: String, arity: Int, line: Int => file: String, kind: String, start_line: Int, end_line: Int, pattern: String, guard: String, complexity: Int, max_nesting_depth: Int, generated_by: String, source_sha: String, ast_sha: String}");
    run(&db, ":create specs {project: String, module: String, name: String, arity: Int => inputs_string: String, return_string: String, line: Int}");
    run(&db, ":create functions {project: String, module: String, name: String, arity: Int => args: String, return_type: String}");
    run(
        &db,
        r#"?[project, caller_module, caller_function, callee_module, callee_function, callee_arity, file, line] <- [
            ["p", "A", "a1/0", "B", "b1", 0, "a.ex", 3],
            ["p", "B", "b1/0", "A", "a1", 0, "b.ex", 12],
            ["p", "C", "c1/1", "D", "d1", 1, "c.ex", 22],
            ["p", "D", "d1/1", "C", "c1", 1, "d.ex", 32],
            ["p", "A", "a1/0", "C", "c1", 1, "a.ex", 4],
            ["p", "D", "d1/1", "E", "e1", 0, "d.ex", 33],
            ["p", "A", "a1/0", "A", "a2", 0, "a.ex", 5],
            ["q", "X", "x1/0", "Y", "y1", 0, "x.ex", 1]
        ] :put calls {project, caller_module, caller_function, callee_module, callee_function, callee_arity, file, line}"#,
    );
    run(
        &db,
        r#"?[project, module, name, arity, line, file, kind, start_line, end_line, pattern, guard, complexity, max_nesting_depth, generated_by, source_sha, ast_sha] <- [
            ["p", "A", "a1", 0, 2, "a.ex", "def", 2, 9, "", "", 3, 1, "", "s1", "h1"],
            ["p", "A", "a2", 0, 10, "a.ex", "defp", 10, 11, "", "", 1, 0, "", "s2", "h2"],
            ["p", "B", "b1", 0, 11, "b.ex", "def", 11, 14, "", "", 2, 1, "", "s3", "h1"],
            ["p", "C", "c1", 1, 20, "c.ex", "def", 20, 40, "x", "", 7, 3, "", "s4", "h3"],
            ["p", "C", "c1", 1, 41, "c.ex", "def", 41, 45, "y", "", 2, 1, "", "s5", "h4"],
            ["p", "D", "d1", 1, 30, "d.ex", "def", 30, 35, "", "", 5, 2, "macro", "s6", "h3"],
            ["p", "E", "e1", 0, 1, "e.ex", "def", 1, 2, "", "", 1, 0, "", "s7", "h5"]
        ] :put function_locations {project, module, name, arity, line, file, kind, start_line, end_line, pattern, guard, complexity, max_nesting_depth, generated_by, source_sha, ast_sha}"#,
    );
    run(
        &db,
        r#"?[project, module, name, arity, inputs_string, return_string, line] <- [
            ["p", "A", "a1", 0, "integer()", "atom()", 1],
            ["p", "B", "b1", 0, "String.t()", "atom()", 10],
            ["p", "C", "c1", 1, "integer()", "map()", 19]
        ] :put specs {project, module, name, arity, inputs_string, return_string, line}"#,
    );
    run(
        &db,
        r#"?[project, module, name, arity, args, return_type] <- [
            ["p", "A", "a1", 0, "", "atom()"],
            ["p", "A", "a2", 0, "", "atom()"],
            ["p", "C", "c1", 1, "x", "map()"]
        ] :put functions {project, module, name, arity, args, return_type}"#,
    );
    db
}

fn pairs(v: Vec<(String, String)>) -> Vec<(String, String)> {
    v
}

#[test]
fn cozo_cycle_edges_keep_edges_between_modules_on_cycles() {
    let db = project_db();
    let edges = find_cycle_edges_cozo(&db, "p", None).unwrap();
    let got = pairs(edges.iter().map(|e| (e.from.clone(), e.to.clone())).collect());
    let want: Vec<(String, String)> = [("A", "B"), ("A", "C"), ("B", "A"), ("C", "D"), ("D", "C")]
        .iter()
        .map(|(f, t)| (f.to_string(), t.to_string()))
        .collect();
    assert_eq!(got, want);
    let filtered = find_cycle_edges_cozo(&db, "p", Some("D")).unwrap();
    assert_eq!(filtered.len(), 2);
    assert!(find_cycle_edges_cozo(&db, "q", None).unwrap().is_empty());
}

#[test]
fn cozo_module_calls_exclude_calls_within_a_module() {
    let db = project_db();
    let calls = get_module_calls_cozo(&db, "p").unwrap();
    assert_eq!(calls.len(), 6);
    assert!(calls.iter().all(|c| c.caller_module != c.callee_module));
}

#[test]
fn cozo_accepts_exact_and_regex() {
    let db = project_db();
    let exact = find_accepts_cozo(&db, "integer()", "p", false, None, 10).unwrap();
    let names: Vec<&str> = exact.iter().map(|e| e.name.as_str()).collect();
    assert_eq!(names, vec!["a1", "c1"]);
    let regex = find_accepts_cozo(&db, "^String", "p", true, None, 10).unwrap();
    assert_eq!(regex.len(), 1);
    assert_eq!(regex[0].module, "B");
    let in_module = find_accepts_cozo(&db, "integer()", "p", false, Some("C"), 10).unwrap();
    assert_eq!(in_module.len(), 1);
    assert_eq!(in_module[0].line, 19);
    assert!(matches!(find_accepts_cozo(&db, "[bad", "p", true, None, 10), Err(AcceptsError::InvalidRegex { .. })));
}

#[test]
fn cozo_locations_ordered_and_limited() {
    let db = project_db();
    let locs = find_locations_cozo(&db, Some("C"), "c1", Some(1), "p", false, 10).unwrap();
    let lines: Vec<i64> = locs.iter().map(|l| l.line).collect();
    assert_eq!(lines, vec![20, 41]);
    assert_eq!(locs[0].pattern, "x");
    let limited = find_locations_cozo(&db, None, "^[a-z]1$", None, "p", true, 2).unwrap();
    assert_eq!(limited.len(), 2);
    assert_eq!(limited[0].module, "A");
    assert!(matches!(find_locations_cozo(&db, Some("(x"), "c1", None, "p", true, 10), Err(LocationError::InvalidRegex { .. })));
}

#[test]
fn cozo_duplicates_share_a_hash() {
    let db = project_db();
    let ast = find_duplicates_cozo(&db, "p", None, false, false, false).unwrap();
    let hashes: Vec<(&str, &str)> = ast.iter().map(|d| (d.hash.as_str(), d.module.as_str())).collect();
    assert_eq!(hashes, vec![("h1", "A"), ("h1", "B"), ("h3", "C"), ("h3", "D")]);
    let no_generated = find_duplicates_cozo(&db, "p", None, false, false, true).unwrap();
    assert_eq!(no_generated.len(), 2);
    assert!(find_duplicates_cozo(&db, "p", None, false, true, false).unwrap().is_empty());
}

#[test]
fn cozo_many_clauses_counts_clauses() {
    let db = project_db();
    let many = find_many_clauses_cozo(&db, 2, None, "p", false, true, 10).unwrap();
    assert_eq!(many.len(), 1);
    assert_eq!(many[0].name, "c1");
    assert_eq!(many[0].clauses, 2);
    assert_eq!(many[0].first_line, 20);
    assert_eq!(many[0].last_line, 45);
}

#[test]
fn cozo_complexity_and_large_functions() {
    let db = project_db();
    let complex = find_complexity_metrics_cozo(&db, 3, 1, None, "p", false, false, 10).unwrap();
    let names: Vec<(&str, i64)> = complex.iter().map(|c| (c.name.as_str(), c.complexity)).collect();
    assert_eq!(names, vec![("c1", 7), ("d1", 5), ("a1", 3)]);
    assert_eq!(complex[0].lines, 21);
    let without_generated = find_complexity_metrics_cozo(&db, 3, 1, None, "p", false, true, 10).unwrap();
    assert_eq!(without_generated.len(), 2);
    let large = find_large_functions_cozo(&db, 6, None, "p", false, true, 10).unwrap();
    let sizes: Vec<(&str, i64)> = large.iter().map(|l| (l.name.as_str(), l.lines)).collect();
    assert_eq!(sizes, vec![("c1", 21), ("a1", 8), ("d1", 6)]);
    assert_eq!(find_large_functions_cozo(&db, 6, None, "p", false, false, 10).unwrap().len(), 2);
}

#[test]
fn cozo_functions_by_module_and_name() {
    let db = project_db();
    let fns = find_functions_cozo(&db, "A", "^a", None, "p", true, 10).unwrap();
    let names: Vec<&str> = fns.iter().map(|f| f.name.as_str()).collect();
    assert_eq!(names, vec!["a1", "a2"]);
    let exact = find_functions_cozo(&db, "C", "c1", Some(1), "p", false, 10).unwrap();
    assert_eq!(exact.len(), 1);
    assert_eq!(exact[0].return_type, "map()");
}

#[test]
fn cozo_dependencies_in_both_directions() {
    let db = project_db();
    let out = find_dependencies_cozo(&db, DependencyDirection::Outgoing, "A", "p", false, 10).unwrap();
    let callees: Vec<&str> = out.iter().map(|c| c.callee.module.as_str()).collect();
    assert_eq!(callees, vec!["B", "C"]);
    assert_eq!(out[0].caller.name.as_str(), "a1");
    let incoming = find_dependencies_cozo(&db, DependencyDirection::Incoming, "C", "p", false, 10).unwrap();
    let callers: Vec<&str> = incoming.iter().map(|c| c.caller.module.as_str()).collect();
    assert_eq!(callers, vec!["A", "D"]);
}

#[test]
fn cozo_reverse_trace_walks_back_from_the_target() {
    let db = project_db();
    let steps = reverse_trace_calls(&db, "E", "e1", None, "p", false, 5, 50).unwrap();
    assert!(!steps.is_empty());
    assert_eq!(steps[0].depth, 1);
    assert_eq!(steps[0].caller_module, "D");
    assert_eq!(steps[0].callee_function, "e1");
    assert!(steps.iter().any(|s| s.depth == 2 && s.caller_module == "C"));
    let shallow = reverse_trace_calls(&db, "E", "e1", None, "p", false, 1, 50).unwrap();
    assert!(shallow.iter().all(|s| s.depth == 1));
}

#[test]
fn test_reverse_trace_calls_invalid_regex() {
    let db = project_db();
    let result = reverse_trace_calls(&db, "[invalid", "index", None, "default", true, 10, 100);
    assert!(result.is_err(), "Should reject invalid regex pattern");
    let msg = result.unwrap_err().to_string();
    assert!(msg.contains("Invalid regex pattern") || msg.contains("regex"), "Error should mention regex validation: {}", msg);
}

#[test]
fn cozo_depends_on_and_depended_by() {
    let db = project_db();
    let deps = find_module_dependencies_cozo(&db, "D", "p", false, 10).unwrap();
    let callees: Vec<&str> = deps.iter().map(|c| c.callee.module.as_str()).collect();
    assert_eq!(callees, vec!["C", "E"]);
    let dependents = find_dependents_cozo(&db, "A", "p", false, 10).unwrap();
    let callers: Vec<&str> = dependents.iter().map(|c| c.caller.module.as_str()).collect();
    assert_eq!(callers, vec!["B"]);
    assert!(matches!(find_dependents_cozo(&db, "[x", "p", true, 10), Err(DependencyError::InvalidRegex { .. })));
    assert!(matches!(find_module_dependencies_cozo(&db, "(", "p", true, 10), Err(DependencyError::InvalidRegex { .. })));
}
