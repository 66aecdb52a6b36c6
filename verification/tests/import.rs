use db::queries::import::parse_function_ref;

/// Test parse_function_ref handles both "name" and "name/arity" formats
#[test]
fn test_parse_function_ref() {
    // With arity (fixture format)
    let (name, arity) = parse_function_ref("get_user/1");
    assert_eq!(name, "get_user");
    assert_eq!(arity, 1);

    // With higher arity
    let (name, arity) = parse_function_ref("do_fetch/2");
    assert_eq!(name, "do_fetch");
    assert_eq!(arity, 2);

    // Without arity (test format)
    let (name, arity) = parse_function_ref("get_user");
    assert_eq!(name, "get_user");
    assert_eq!(arity, 0);

    // Module-level call (no function)
    let (name, arity) = parse_function_ref("<module>");
    assert_eq!(name, "<module>");
    assert_eq!(arity, 0);

    // Zero arity
    let (name, arity) = parse_function_ref("list_users/0");
    assert_eq!(name, "list_users");
    assert_eq!(arity, 0);
}

#[test]
fn parse_function_ref_edge_cases() {
    // the last slash splits; the arity must parse or counts as 0
    assert_eq!(parse_function_ref("a/b/3"), ("a/b".to_string(), 3));
    assert_eq!(parse_function_ref("f/x"), ("f".to_string(), 0));
    assert_eq!(parse_function_ref("f/"), ("f".to_string(), 0));
    assert_eq!(parse_function_ref("f/-2"), ("f".to_string(), -2));
    assert_eq!(parse_function_ref("f/+7"), ("f".to_string(), 7));
    assert_eq!(parse_function_ref("f/99999999999999999999"), ("f".to_string(), 0));
    assert_eq!(parse_function_ref("f/9223372036854775807"), ("f".to_string(), i64::MAX));
    assert_eq!(parse_function_ref("f/-9223372036854775808"), ("f".to_string(), i64::MIN));
    assert_eq!(parse_function_ref(""), ("".to_string(), 0));
}
