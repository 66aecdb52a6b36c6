use db::backend::surrealdb_schema::{node_tables, relationship_tables, schema_for_table};


#[test]
fn test_all_tables_have_schemas() {
    let all_tables = [
        "module", "function", "clause", "spec", "type", "field",
        "defines", "has_clause", "calls", "has_field",
    ];

    for table in all_tables {
        assert!(
            schema_for_table(table).is_some(),
            "Missing schema for table: {}",
            table
        );
    }
}

#[test]
fn test_schema_strings_are_valid_sql() {
    let all_tables = [
        "module", "function", "clause", "spec", "type", "field",
        "defines", "has_clause", "calls", "has_field",
    ];

    for table in all_tables {
        let schema = schema_for_table(table).expect(&format!("Missing schema for {}", table));
        assert!(!schema.is_empty(), "Empty schema for table: {}", table);
        assert!(
            schema.contains("DEFINE TABLE"),
            "Schema for {} doesn't contain DEFINE TABLE",
            table
        );
    }
}

#[test]
fn test_all_schemas_use_schemafull() {
    let all_tables = [
        "module", "function", "clause", "spec", "type", "field",
        "defines", "has_clause", "calls", "has_field",
    ];

    for table in all_tables {
        let schema = schema_for_table(table).expect(&format!("Missing schema for {}", table));
        assert!(
            schema.contains("SCHEMAFULL"),
            "Schema for {} doesn't use SCHEMAFULL",
            table
        );
    }
}

#[test]
fn test_node_and_relationship_tables_partition_all_tables() {
    let mut all_from_functions = std::collections::HashSet::new();

    for table in node_tables() {
        all_from_functions.insert(*table);
    }

    for table in relationship_tables() {
        all_from_functions.insert(*table);
    }

    assert_eq!(all_from_functions.len(), 10, "Should have 10 total tables");
}

#[test]
fn test_natural_key_uniqueness_indexes() {
    // Verify that each table has appropriate unique indexes on natural keys

    // module: name
    let module_schema = schema_for_table("module").unwrap();
    assert!(module_schema.contains("UNIQUE"), "module should have UNIQUE index");

    // function: (module_name, name, arity)
    let function_schema = schema_for_table("function").unwrap();
    assert!(function_schema.contains("natural_key"), "function should have natural_key index");
    assert!(function_schema.contains("UNIQUE"), "function should have UNIQUE index");

    // type: (module_name, name)
    let type_schema = schema_for_table("type").unwrap();
    assert!(type_schema.contains("natural_key"), "type should have natural_key index");
    assert!(type_schema.contains("UNIQUE"), "type should have UNIQUE index");
}
