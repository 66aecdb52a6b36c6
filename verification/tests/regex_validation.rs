use std::cell::Cell;

use db::backend::{Database, QueryParams, QueryResult};
use db::queries::calls::{find_calls, find_calls_from, find_calls_to, CallDirection};
use db::queries::complexity::find_complexity_metrics;
use db::queries::connectivity::get_module_connectivity;
use db::queries::depended_by::find_dependents;
use db::queries::dependencies::{find_dependencies, DependencyDirection};
use db::queries::depends_on::find_dependencies as find_module_dependencies;
use db::queries::file::find_functions_in_module;
use db::queries::function::find_functions;
use db::queries::hotspots::{find_hotspots, get_function_counts, get_module_loc, HotspotKind};
use db::queries::large_functions::find_large_functions;
use db::queries::location::find_locations;
use db::queries::many_clauses::find_many_clauses;
use db::queries::return_types::find_returns;
use db::DbError;

/// A database that counts the queries it is sent and answers each with an
/// empty result: a pattern that does not compile must be refused before any
/// query goes out.
struct CountingDb {
    sent: Cell<usize>,
}

impl Database for CountingDb {
    fn execute_query(&self, _query: &str, _params: QueryParams) -> Result<QueryResult, DbError> {
        self.sent.set(self.sent.get() + 1);
        Ok(QueryResult { headers: vec![], rows: vec![] })
    }
}

fn counting_db() -> CountingDb {
    CountingDb { sent: Cell::new(0) }
}

#[test]
fn test_find_calls_invalid_regex_pattern() {
    let db = counting_db();
    let result = find_calls(&db, CallDirection::From, "[invalid", None, None, true, 100);
    assert!(result.is_err(), "Should reject invalid regex pattern");
    let msg = result.unwrap_err().to_string();
    assert!(msg.contains("Invalid regex pattern"));
    assert_eq!(db.sent.get(), 0);
}

#[test]
fn test_find_calls_from_with_invalid_regex() {
    let db = counting_db();
    let result = find_calls_from(&db, "[invalid", None, None, "default", true, 100);
    assert!(result.is_err(), "Should reject invalid regex");
    assert_eq!(db.sent.get(), 0);
}

#[test]
fn test_find_calls_to_with_invalid_regex() {
    let db = counting_db();
    let result = find_calls_to(&db, "[invalid", None, None, true, 100);
    assert!(result.is_err(), "Should reject invalid regex");
    assert_eq!(db.sent.get(), 0);
}

#[test]
fn test_find_complexity_metrics_regex_pattern_invalid() {
    let db = counting_db();
    let result = find_complexity_metrics(&db, 0, 0, Some("[invalid"), "default", true, false, 100);
    assert!(result.is_err(), "Should reject invalid regex pattern");
    assert_eq!(db.sent.get(), 0);
}

#[test]
fn test_find_dependents_invalid_regex() {
    let db = counting_db();
    let result = find_dependents(&db, "[invalid", "default", true, 100);
    assert!(result.is_err(), "Should reject invalid regex");
    let err = result.unwrap_err();
    assert!(err.to_string().contains("Invalid regex"), "Error should mention invalid regex: {}", err.to_string());
    assert_eq!(db.sent.get(), 0);
}

#[test]
fn dependencies_test_find_dependencies_invalid_regex() {
    let db = counting_db();
    let result = find_dependencies(&db, DependencyDirection::Outgoing, "[invalid", "default", true, 100);
    assert!(result.is_err(), "Should reject invalid regex pattern");
    assert_eq!(db.sent.get(), 0);
}

#[test]
fn depends_on_test_find_dependencies_invalid_regex() {
    let db = counting_db();
    let result = find_module_dependencies(&db, "[invalid", "default", true, 100);
    assert!(result.is_err(), "Should reject invalid regex");
    let err = result.unwrap_err();
    assert!(err.to_string().contains("Invalid regex"), "Error should mention invalid regex: {}", err.to_string());
    assert_eq!(db.sent.get(), 0);
}

#[test]
fn test_find_functions_in_module_invalid_regex() {
    let db = counting_db();
    let result = find_functions_in_module(&db, "[invalid", true, 100);
    assert!(result.is_err(), "Should reject invalid regex");
    let msg = result.unwrap_err().to_string();
    assert!(msg.contains("Invalid regex pattern"), "Error should mention invalid regex: {}", msg);
    assert!(msg.contains("[invalid"), "Error should show the pattern: {}", msg);
    assert_eq!(db.sent.get(), 0);
}

#[test]
fn test_find_functions_invalid_regex() {
    let db = counting_db();
    let result = find_functions(&db, "[invalid", "foo", None, "default", true, 100);
    assert!(result.is_err(), "Should reject invalid regex");
    let msg = result.unwrap_err().to_string();
    assert!(msg.contains("Invalid regex pattern"), "Error should mention invalid regex: {}", msg);
    assert_eq!(db.sent.get(), 0);
}

#[test]
fn test_find_functions_invalid_regex_function_pattern() {
    let db = counting_db();
    let result = find_functions(&db, "module_a", "*invalid", None, "default", true, 100);
    assert!(result.is_err(), "Should reject invalid regex");
    let msg = result.unwrap_err().to_string();
    assert!(msg.contains("Invalid regex pattern"), "Error should mention invalid regex: {}", msg);
    assert_eq!(db.sent.get(), 0);
}

#[test]
fn test_get_function_counts_invalid_regex() {
    let db = counting_db();
    let result = get_function_counts(&db, "default", Some("[invalid"), true);
    assert!(result.is_err(), "Should reject invalid regex pattern");
    let err = result.unwrap_err();
    assert!(err.to_string().contains("Invalid regex"), "Error should mention invalid regex: {}", err.to_string());
    assert_eq!(db.sent.get(), 0);
}

#[test]
fn test_get_module_loc_invalid_regex() {
    let db = counting_db();
    let result = get_module_loc(&db, "default", Some("[invalid"), true);
    assert!(result.is_err(), "Should reject invalid regex pattern");
    assert_eq!(db.sent.get(), 0);
}

#[test]
fn test_get_module_connectivity_invalid_regex() {
    let db = counting_db();
    let result = get_module_connectivity(&db, "default", Some("[invalid"), true);
    assert!(result.is_err(), "Should reject invalid regex pattern");
    assert_eq!(db.sent.get(), 0);
}

#[test]
fn test_find_hotspots_with_invalid_regex() {
    let db = counting_db();
    let result = find_hotspots(&db, HotspotKind::Incoming, Some("[invalid"), "default", true, 100, false, false);
    assert!(result.is_err(), "Should reject invalid regex pattern");
    assert_eq!(db.sent.get(), 0);
}

#[test]
fn test_find_large_functions_regex_pattern_invalid() {
    let db = counting_db();
    let result = find_large_functions(&db, 0, Some("[invalid"), "default", true, true, 100);
    assert!(result.is_err(), "Should reject invalid regex pattern");
    assert_eq!(db.sent.get(), 0);
}

#[test]
fn test_find_locations_invalid_regex() {
    let db = counting_db();
    let result = find_locations(&db, None, "[invalid", None, "default", true, 100);
    assert!(result.is_err(), "Should reject invalid regex");
    let msg = result.unwrap_err().to_string();
    assert!(msg.contains("Invalid regex pattern"), "Error should mention invalid regex: {}", msg);
    assert_eq!(db.sent.get(), 0);
}

#[test]
fn test_find_locations_invalid_regex_module_pattern() {
    let db = counting_db();
    let result = find_locations(&db, Some("[invalid"), "foo", None, "default", true, 100);
    assert!(result.is_err(), "Should reject invalid regex");
    let msg = result.unwrap_err().to_string();
    assert!(msg.contains("Invalid regex pattern"), "Error should mention invalid regex: {}", msg);
    assert_eq!(db.sent.get(), 0);
}

#[test]
fn test_find_many_clauses_regex_pattern_invalid() {
    let db = counting_db();
    let result = find_many_clauses(&db, 0, Some("[invalid"), "default", true, true, 100);
    assert!(result.is_err(), "Should reject invalid regex pattern");
    assert_eq!(db.sent.get(), 0);
}

#[test]
fn test_find_returns_invalid_regex() {
    let db = counting_db();
    let result = find_returns(&db, "[invalid", true, None, 100);
    assert!(result.is_err(), "Should reject invalid regex pattern");
    assert_eq!(db.sent.get(), 0);
}
