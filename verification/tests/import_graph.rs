use std::cell::RefCell;

use db::backend::{Database, QueryParams, QueryResult, ValueType};
use db::queries::import::{
    clear_project_data, create_defines_relationships, create_has_clause_relationships,
    create_has_field_relationships, create_schema, import_calls, import_function_locations,
    import_functions, import_graph, import_modules, import_specs, import_structs, import_types,
    update_call_counts, ImportError,
};
use db::queries::import_models::{
    CallGraph, CallRecord, CalleeRef, CallerRef, FunctionLocationDef, SpecClause, SpecDef,
    StructDef, StructField, TypeDef,
};
use db::DbError;

/// A database that accepts every statement, remembers each with its
/// parameters, and fails the statement at `fail_at` (counted from 0).
struct RecordingDb {
    seen: RefCell<Vec<(String, Vec<(String, ValueType)>)>>,
    fail_at: Option<usize>,
    existing: bool,
}

impl Database for RecordingDb {
    fn execute_query(&self, query: &str, params: QueryParams) -> Result<QueryResult, DbError> {
        let n = self.seen.borrow().len();
        self.seen.borrow_mut().push((query.to_string(), params.params().clone()));
        if self.existing && query.contains("DEFINE TABLE") {
            return Err(DbError::QueryFailed { message: "table already exists".to_string() });
        }
        if self.fail_at == Some(n) {
            return Err(DbError::QueryFailed { message: "disk full".to_string() });
        }
        Ok(QueryResult { headers: vec![], rows: vec![] })
    }
}

fn recording() -> RecordingDb {
    RecordingDb { seen: RefCell::new(vec![]), fail_at: None, existing: false }
}

fn failing_at(n: usize) -> RecordingDb {
    RecordingDb { seen: RefCell::new(vec![]), fail_at: Some(n), existing: false }
}

impl RecordingDb {
    fn statements(&self) -> Vec<(String, Vec<(String, ValueType)>)> {
        self.seen.borrow().clone()
    }

    fn clear(&self) {
        self.seen.borrow_mut().clear();
    }
}

fn str_param(params: &[(String, ValueType)], key: &str) -> Option<String> {
    params.iter().find(|(k, _)| k == key).and_then(|(_, v)| match v {
        ValueType::Str(s) => Some(s.clone()),
        _ => None,
    })
}

fn int_param(params: &[(String, ValueType)], key: &str) -> Option<i64> {
    params.iter().find(|(k, _)| k == key).and_then(|(_, v)| match v {
        ValueType::Int(n) => Some(*n),
        _ => None,
    })
}

fn empty_graph() -> CallGraph {
    CallGraph { specs: vec![], function_locations: vec![], structs: vec![], types: vec![], calls: vec![] }
}

fn clause(full: &str, inputs: &[&str], returns: &[&str]) -> SpecClause {
    SpecClause {
        input_strings: inputs.iter().map(|s| s.to_string()).collect(),
        return_strings: returns.iter().map(|s| s.to_string()).collect(),
        full: full.to_string(),
    }
}

fn spec(name: &str, arity: i64, line: i64, kind: &str, clauses: Vec<SpecClause>) -> SpecDef {
    SpecDef { name: name.to_string(), arity, kind: kind.to_string(), line, clauses }
}

fn location(name: &str, arity: i64, line: i64, start: i64, end: i64, file: Option<&str>) -> FunctionLocationDef {
    FunctionLocationDef {
        name: name.to_string(),
        arity,
        line,
        file: file.map(|f| f.to_string()),
        source_file_absolute: None,
        kind: "def".to_string(),
        start_line: start,
        end_line: end,
        pattern: None,
        guard: None,
        source_sha: None,
        ast_sha: None,
        complexity: 1,
        max_nesting_depth: 0,
        generated_by: None,
        macro_source: None,
    }
}

fn field(name: &str, default: &str, required: bool) -> StructField {
    StructField { field: name.to_string(), default: default.to_string(), required }
}

fn type_def(name: &str, params: &[&str], line: i64, definition: &str) -> TypeDef {
    TypeDef {
        name: name.to_string(),
        kind: "type".to_string(),
        params: params.iter().map(|s| s.to_string()).collect(),
        line,
        definition: definition.to_string(),
    }
}

fn accounts_graph() -> CallGraph {
    let mut g = empty_graph();
    g.specs = vec![(
        "MyApp.Accounts".to_string(),
        vec![spec("get_user", 1, 10, "spec", vec![clause("@spec", &[], &[])])],
    )];
    g.function_locations = vec![(
        "MyApp.Accounts".to_string(),
        vec![location("get_user", 1, 10, 10, 15, Some("lib/accounts.ex"))],
    )];
    g
}

#[test]
fn test_import_modules_creates_nodes() {
    let db = recording();
    db::queries::schema::create_schema(&db).unwrap();
    db.clear();
    let mut g = empty_graph();
    g.specs = vec![
        (
            "MyApp.Accounts".to_string(),
            vec![spec("get_user", 1, 10, "spec", vec![clause("@spec get_user(integer()) :: user()", &["integer()"], &["user()"])])],
        ),
        (
            "MyApp.Repo".to_string(),
            vec![spec("get", 2, 20, "spec", vec![clause("@spec get(atom(), any()) :: any()", &["atom()", "any()"], &["any()"])])],
        ),
    ];
    let result = import_modules(&db, &g);
    assert!(result.is_ok(), "Import should succeed: {:?}", result.err());
    assert_eq!(result.unwrap(), 2, "Should import exactly 2 modules");

    let names: Vec<String> = db.statements().iter().filter_map(|(_, p)| str_param(p, "name")).collect();
    assert_eq!(names.len(), 2);
    assert!(names.contains(&"MyApp.Accounts".to_string()));
    assert!(names.contains(&"MyApp.Repo".to_string()));
}

#[test]
fn import_modules_creates_each_module_once_in_first_mention_order() {
    let db = recording();
    let mut g = empty_graph();
    g.specs = vec![("B".to_string(), vec![]), ("A".to_string(), vec![])];
    g.function_locations = vec![("A".to_string(), vec![]), ("C".to_string(), vec![])];
    g.structs = vec![("B".to_string(), StructDef { fields: vec![] })];
    g.types = vec![("D".to_string(), vec![])];
    assert_eq!(import_modules(&db, &g).unwrap(), 4);
    let names: Vec<String> = db.statements().iter().filter_map(|(_, p)| str_param(p, "name")).collect();
    assert_eq!(names, vec!["B", "A", "C", "D"]);
    assert!(db.statements()[0].0.contains("CREATE modules:[$name]"));
}

#[test]
fn test_import_functions_creates_nodes() {
    let db = recording();
    let mut g = empty_graph();
    g.function_locations = vec![(
        "MyApp.Accounts".to_string(),
        vec![
            location("get_user", 1, 10, 10, 15, Some("lib/accounts.ex")),
            location("get_user", 2, 16, 16, 21, Some("lib/accounts.ex")),
            location("list_users", 0, 22, 22, 26, Some("lib/accounts.ex")),
        ],
    )];
    import_modules(&db, &g).unwrap();
    db.clear();
    let result = import_functions(&db, &g);
    assert!(result.is_ok());
    assert_eq!(result.unwrap(), 3, "Should import 3 functions (get_user/1, get_user/2, list_users/0)");
    let arities: Vec<i64> = db.statements().iter().filter_map(|(_, p)| int_param(p, "arity")).collect();
    assert_eq!(arities, vec![1, 2, 0]);
}

#[test]
fn import_functions_skips_a_repeated_function() {
    let db = recording();
    let mut g = empty_graph();
    g.function_locations = vec![(
        "M".to_string(),
        vec![location("f", 1, 10, 10, 12, None), location("f", 1, 13, 13, 14, None), location("f", 2, 20, 20, 22, None)],
    )];
    assert_eq!(import_functions(&db, &g).unwrap(), 2);
    let first = &db.statements()[0].1;
    assert_eq!(int_param(first, "start_line"), Some(10));
    assert_eq!(str_param(first, "file"), Some(String::new()));
}

#[test]
fn test_import_specs_preserves_arrays() {
    let db = recording();
    let mut g = empty_graph();
    g.specs = vec![(
        "MyApp.Accounts".to_string(),
        vec![spec(
            "my_func",
            2,
            10,
            "spec",
            vec![clause("@spec my_func(integer(), String.t()) :: :ok", &["integer()", "String.t()"], &[":ok"])],
        )],
    )];
    import_modules(&db, &g).unwrap();
    import_functions(&db, &g).unwrap();
    db.clear();
    let result = import_specs(&db, &g);
    assert!(result.is_ok(), "Import specs should succeed: {:?}", result.err());
    assert_eq!(result.unwrap(), 1, "Should import 1 spec");

    let statements = db.statements();
    let params = &statements[0].1;
    let input_arr = params.iter().find(|(k, _)| k == "input_strings").map(|(_, v)| v.clone());
    let return_arr = params.iter().find(|(k, _)| k == "return_strings").map(|(_, v)| v.clone());
    let inputs = match input_arr {
        Some(ValueType::StrArray(a)) => a,
        _ => panic!("input_strings should be stored as array"),
    };
    let returns = match return_arr {
        Some(ValueType::StrArray(a)) => a,
        _ => panic!("return_strings should be stored as array"),
    };
    assert_eq!(inputs.len(), 2, "Should have 2 input types");
    assert_eq!(inputs[0], "integer()");
    assert_eq!(inputs[1], "String.t()");
    assert_eq!(returns.len(), 1, "Should have 1 return type");
    assert_eq!(returns[0], ":ok");
}

#[test]
fn import_specs_numbers_clauses_within_each_spec() {
    let db = recording();
    let mut g = empty_graph();
    g.specs = vec![(
        "M".to_string(),
        vec![
            spec("f", 1, 3, "spec", vec![clause("a", &[], &[]), clause("b", &[], &[])]),
            spec("g", 0, 9, "callback", vec![clause("c", &[], &[])]),
        ],
    )];
    assert_eq!(import_specs(&db, &g).unwrap(), 3);
    let indexes: Vec<i64> = db.statements().iter().filter_map(|(_, p)| int_param(p, "clause_index")).collect();
    assert_eq!(indexes, vec![0, 1, 0]);
    let fulls: Vec<String> = db.statements().iter().filter_map(|(_, p)| str_param(p, "full")).collect();
    assert_eq!(fulls, vec!["a", "b", "c"]);
}

#[test]
fn test_import_function_locations_creates_clauses() {
    let db = recording();
    let mut g = empty_graph();
    let mut loc = location("process_data", 2, 20, 20, 25, Some("lib/accounts.ex"));
    loc.complexity = 5;
    loc.max_nesting_depth = 2;
    g.function_locations = vec![("MyApp.Accounts".to_string(), vec![loc])];
    let result = import_function_locations(&db, &g);
    assert!(result.is_ok());
    assert_eq!(result.unwrap(), 1, "Should import 1 clause");
    let statements = db.statements();
    assert_eq!(statements.len(), 1);
    let p = &statements[0].1;
    assert_eq!(int_param(p, "complexity"), Some(5));
    assert_eq!(int_param(p, "max_nesting_depth"), Some(2));
    assert_eq!(str_param(p, "source_file"), Some("lib/accounts.ex".to_string()));
    assert_eq!(str_param(p, "pattern"), Some(String::new()));
}

#[test]
fn test_import_structs_creates_fields() {
    let db = recording();
    let mut g = empty_graph();
    g.structs = vec![(
        "MyApp.User".to_string(),
        StructDef { fields: vec![field("id", "nil", true), field("name", "nil", false)] },
    )];
    import_modules(&db, &g).unwrap();
    db.clear();
    let result = import_structs(&db, &g);
    assert!(result.is_ok());
    assert_eq!(result.unwrap(), 2, "Should import 2 fields");
    let statements = db.statements();
    assert_eq!(statements.len(), 2);
    assert!(statements[0].1.iter().any(|(k, v)| k == "required" && matches!(v, ValueType::Bool(true))));
    assert!(statements[1].1.iter().any(|(k, v)| k == "required" && matches!(v, ValueType::Bool(false))));
}

#[test]
fn test_import_types_creates_nodes() {
    let db = recording();
    let mut g = empty_graph();
    g.types = vec![(
        "MyModule".to_string(),
        vec![
            type_def("status", &[], 5, "@type status() :: :pending | :active"),
            type_def("config", &["t"], 10, "@type config(t) :: %{key: t}"),
        ],
    )];
    import_modules(&db, &g).unwrap();
    db.clear();
    let result = import_types(&db, &g);
    assert!(result.is_ok());
    assert_eq!(result.unwrap(), 2, "Should import 2 types");
    assert_eq!(db.statements().len(), 2);
}

#[test]
fn import_types_joins_parameters() {
    let db = recording();
    let mut g = empty_graph();
    g.types = vec![("M".to_string(), vec![type_def("pair", &["a", "b"], 1, "@type pair(a, b) :: {a, b}")])];
    import_types(&db, &g).unwrap();
    assert_eq!(str_param(&db.statements()[0].1, "params"), Some("a, b".to_string()));
}

#[test]
fn test_create_defines_relationships() {
    let mut g = empty_graph();
    g.specs = vec![("MyModule".to_string(), vec![spec("func1", 1, 10, "spec", vec![clause("@spec", &[], &[])])])];
    g.types = vec![("MyModule".to_string(), vec![type_def("my_type", &[], 5, "@type")])];

    let db_fresh = recording();
    db::queries::schema::create_schema(&db_fresh).unwrap();
    import_modules(&db_fresh, &g).unwrap();
    import_functions(&db_fresh, &g).unwrap();
    import_types(&db_fresh, &g).unwrap();
    db_fresh.clear();

    let result = create_defines_relationships(&db_fresh, &g);
    assert!(result.is_ok(), "Creating relationships should succeed: {:?}", result.err());
    let count = result.unwrap();
    assert!(count >= 3, "Should create at least 3 relationships");
    assert_eq!(count, 3);
    let statements = db_fresh.statements();
    assert!(statements[0].0.contains("functions:[$module_name, $name, $arity]"));
    assert!(statements[1].0.contains("types:[$module_name, $name]"));
    assert!(statements[2].0.contains("specs:[$module_name, $function_name, $arity, $clause_index]"));
}

#[test]
fn test_create_has_clause_relationships() {
    let db = recording();
    let g = accounts_graph();
    import_modules(&db, &g).unwrap();
    import_functions(&db, &g).unwrap();
    import_function_locations(&db, &g).unwrap();
    db.clear();
    let result = create_has_clause_relationships(&db, &g);
    assert!(result.is_ok());
    assert_eq!(result.unwrap(), 1, "Should create 1 has_clause relationship");
    assert_eq!(int_param(&db.statements()[0].1, "line"), Some(10));
}

#[test]
fn test_create_has_field_relationships() {
    let db = recording();
    let mut g = empty_graph();
    g.structs = vec![(
        "MyApp.User".to_string(),
        StructDef { fields: vec![field("id", "nil", true), field("name", "nil", false)] },
    )];
    import_modules(&db, &g).unwrap();
    import_structs(&db, &g).unwrap();
    db.clear();
    let result = create_has_field_relationships(&db, &g);
    assert!(result.is_ok());
    assert_eq!(result.unwrap(), 2, "Should create 2 has_field relationships");
    let names: Vec<String> = db.statements().iter().filter_map(|(_, p)| str_param(p, "field_name")).collect();
    assert_eq!(names, vec!["id", "name"]);
}

#[test]
fn test_clear_project_data() {
    let db = recording();
    let g = accounts_graph();
    import_modules(&db, &g).unwrap();
    import_functions(&db, &g).unwrap();
    import_function_locations(&db, &g).unwrap();
    assert!(!db.statements().is_empty(), "Should have modules before clear");
    db.clear();

    let clear_result = clear_project_data(&db);
    assert!(clear_result.is_ok(), "Clear should succeed: {:?}", clear_result.err());
    let scripts: Vec<String> = db.statements().into_iter().map(|(q, _)| q).collect();
    assert_eq!(
        scripts,
        vec![
            "DELETE FROM modules;",
            "DELETE FROM functions;",
            "DELETE FROM clauses;",
            "DELETE FROM specs;",
            "DELETE FROM types;",
            "DELETE FROM fields;",
            "DELETE FROM defines;",
            "DELETE FROM has_clause;",
            "DELETE FROM calls;",
            "DELETE FROM has_field;",
        ]
    );
}

#[test]
fn clear_project_data_names_the_table_that_failed() {
    let db = failing_at(2);
    match clear_project_data(&db) {
        Err(ImportError::ClearFailed { message }) => {
            assert_eq!(message, "Failed to clear clauses: Query failed: disk full");
        },
        other => panic!("expected a clear failure, got {:?}", other),
    }
    assert_eq!(db.statements().len(), 3);
    let err = ImportError::ClearFailed { message: "x".to_string() };
    assert_eq!(err.to_string(), "Failed to clear data: x");
}

#[test]
fn test_import_calls_creates_relationships() {
    let db = recording();
    let mut g = accounts_graph();
    g.calls = vec![CallRecord {
        caller: CallerRef {
            module: "MyApp.Accounts".to_string(),
            function: Some("get_user/1".to_string()),
            kind: Some("def".to_string()),
            line: Some(12),
            file: "/home/user/my_app/lib/my_app/accounts.ex".to_string(),
        },
        callee: CalleeRef { module: "MyApp.Repo".to_string(), function: "get".to_string(), arity: 2 },
        call_type: "remote".to_string(),
    }];
    import_modules(&db, &g).unwrap();
    import_functions(&db, &g).unwrap();
    import_function_locations(&db, &g).unwrap();
    db.clear();

    let result = import_calls(&db, &g);
    assert!(result.is_ok(), "Import calls should succeed: {:?}", result.err());
    assert_eq!(result.unwrap(), 1, "Should import 1 call relationship");
    let statements = db.statements();
    assert_eq!(statements.len(), 1, "Should have 1 call");
    let p = &statements[0].1;
    assert_eq!(str_param(p, "caller_name"), Some("get_user".to_string()));
    assert_eq!(int_param(p, "caller_arity"), Some(1));
    assert_eq!(int_param(p, "call_line"), Some(12));
    assert_eq!(int_param(p, "line"), Some(12));
    assert_eq!(str_param(p, "call_type"), Some("remote".to_string()));
    assert!(statements[0].0.contains("caller_clause_id = $clause[0].id"));
}

#[test]
fn import_calls_reads_a_module_level_caller() {
    let db = recording();
    let mut g = empty_graph();
    g.calls = vec![CallRecord {
        caller: CallerRef { module: "M".to_string(), function: None, kind: None, line: None, file: "m.ex".to_string() },
        callee: CalleeRef { module: "N".to_string(), function: "f".to_string(), arity: 0 },
        call_type: "remote".to_string(),
    }];
    assert_eq!(import_calls(&db, &g).unwrap(), 1);
    let p = &db.statements()[0].1;
    assert_eq!(str_param(p, "caller_name"), Some("<module>".to_string()));
    assert_eq!(int_param(p, "caller_arity"), Some(0));
    assert_eq!(int_param(p, "call_line"), Some(0));
    assert_eq!(str_param(p, "caller_kind"), Some(String::new()));
}

#[test]
fn test_import_graph_full_flow() {
    let db = recording();
    let mut g = accounts_graph();
    g.specs = vec![(
        "MyApp.Accounts".to_string(),
        vec![spec("get_user", 1, 10, "spec", vec![clause("@spec get_user(integer()) :: user()", &["integer()"], &["user()"])])],
    )];
    let result = import_graph(&db, &g);
    assert!(result.is_ok(), "Import should succeed: {:?}", result.err());
    let import_result = result.unwrap();
    assert!(import_result.modules_imported > 0, "Should import modules");
    assert!(import_result.functions_imported > 0, "Should import functions");
    assert!(import_result.function_locations_imported > 0, "Should import clauses");
    assert!(import_result.specs_imported > 0, "Should import specs");
    assert_eq!(import_result.schemas.created.len(), 10);
    assert!(!import_result.cleared);
    // schemas, module, function, clause, spec, three relations, two count updates
    assert_eq!(db.statements().len(), 10 + 1 + 1 + 1 + 1 + 3 + 2);
    let last = &db.statements()[db.statements().len() - 1].0;
    assert!(last.contains("outgoing_call_count"));
}

#[test]
fn import_graph_stops_at_the_first_failure() {
    // the eleventh statement is the first of the import after the schemas
    let db = failing_at(10);
    let result = import_graph(&db, &accounts_graph());
    assert!(matches!(result, Err(DbError::QueryFailed { .. })));
    assert_eq!(db.statements().len(), 11);
}

#[test]
fn import_graph_counts_relations_that_existed() {
    let db = RecordingDb { seen: RefCell::new(vec![]), fail_at: None, existing: true };
    let schemas = create_schema(&db).unwrap();
    assert!(schemas.created.is_empty());
    assert_eq!(schemas.already_existed.len(), 10);
    assert_eq!(schemas.already_existed[0], "modules");
}

#[test]
fn update_call_counts_runs_incoming_then_outgoing() {
    let db = recording();
    assert!(update_call_counts(&db).is_ok());
    let statements = db.statements();
    assert_eq!(statements.len(), 2);
    assert!(statements[0].0.contains("incoming_call_count"));
    assert!(statements[1].0.contains("outgoing_call_count"));
    assert!(statements[0].1.is_empty());
    let failing = failing_at(1);
    assert!(update_call_counts(&failing).is_err());
}
