use db::backend::cozo::CozoDatabase;
use db::backend::{Database, QueryParams, Row, Value};
use db::DbError;

#[test]
fn cozo_test_open_mem() {
    let _db = CozoDatabase::open_mem();
    // If we got here, open succeeded
}

#[test]
fn test_execute_query_no_params() {
    let db = CozoDatabase::open_mem().unwrap();
    let result = db.execute_query("?[x] := x = 1", QueryParams::new()).expect("Query should succeed");

    assert_eq!(result.headers(), &["x"]);
    assert_eq!(result.rows().len(), 1);
}

#[test]
fn test_query_result_structure() {
    let db = CozoDatabase::open_mem().unwrap();
    let result = db.execute_query("?[x, y] := x = 1, y = 2", QueryParams::new()).expect("Query should succeed");

    assert_eq!(result.headers(), &["x", "y"]);
    assert_eq!(result.rows().len(), 1);

    let row = &result.rows()[0];
    assert_eq!(row.len(), 2);
    assert_eq!(row.get(0).and_then(|v| v.as_i64()), Some(1));
    assert_eq!(row.get(1).and_then(|v| v.as_i64()), Some(2));
}

#[test]
fn test_query_with_parameters() {
    let db = CozoDatabase::open_mem().unwrap();
    let params = QueryParams::new().with_int("val", 99);
    let result = db.execute_query("?[x] := x = $val", params).expect("Query should succeed");

    assert_eq!(result.rows()[0].get(0).and_then(|v| v.as_i64()), Some(99));
}

#[test]
fn cozo_parameters_of_each_kind_reach_the_engine() {
    let db = CozoDatabase::open_mem().unwrap();
    let params = QueryParams::new()
        .with_str("name", "test")
        .with_int("count", 42)
        .with_bool("flag", true)
        .with_str_array("xs", vec!["a".to_string(), "b".to_string()]);
    let result = db
        .execute_query("?[n, c, f, l] := n = $name, c = $count, f = $flag, l = length($xs)", params)
        .expect("Query should succeed");
    let row = &result.rows()[0];
    assert_eq!(row.get(0).and_then(|v| v.as_str()), Some("test"));
    assert_eq!(row.get(1).and_then(|v| v.as_i64()), Some(42));
    assert_eq!(row.get(2).and_then(|v| v.as_bool()), Some(true));
    assert_eq!(row.get(3).and_then(|v| v.as_i64()), Some(2));
}

#[test]
fn cozo_reads_a_fraction_as_its_integer_part() {
    let db = CozoDatabase::open_mem().unwrap();
    let result = db.execute_query("?[x] := x = 3.75", QueryParams::new()).expect("Query should succeed");
    assert_eq!(result.rows()[0].get(0).and_then(|v| v.as_i64()), Some(3));
}

#[test]
fn cozo_reports_a_bad_script_as_a_query_failure() {
    let db = CozoDatabase::open_mem().unwrap();
    let result = db.execute_query("this is not a script", QueryParams::new());
    assert!(matches!(result, Err(DbError::QueryFailed { .. })));
}

#[test]
fn test_row_access() {
    let values = vec![Value::Str("test".to_string()), Value::Int(123), Value::Bool(true)];
    let row = Row::new(values);

    assert_eq!(row.len(), 3);
    assert!(!row.is_empty());
    assert!(row.get(0).is_some());
    assert!(row.get(3).is_none());
}
