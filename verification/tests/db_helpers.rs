use db::backend::{Row, Value};
use db::{
    escape_string, escape_string_for_quote, escape_string_single, extract_bool, extract_call_from_row_trait,
    CallRowLayout, DbError,
};

// =========================================================================
// escape_string tests (existing)
// =========================================================================

#[test]
fn test_escape_string_basic() {
    assert_eq!(escape_string("hello"), "hello");
}

#[test]
fn test_escape_string_with_quotes() {
    assert_eq!(escape_string(r#"say "hello""#), r#"say \"hello\""#);
}

#[test]
fn test_escape_string_with_backslash() {
    assert_eq!(escape_string(r"path\to\file"), r"path\\to\\file");
}

// =========================================================================
// escape_string_for_quote tests
// =========================================================================

#[test]
fn test_escape_string_for_quote_normal_string_unchanged() {
    // Normal ASCII text should pass through unchanged
    assert_eq!(escape_string_for_quote("hello world", '"'), "hello world");
}

#[test]
fn test_escape_string_for_quote_escapes_quote_char() {
    // The specified quote character must be escaped
    assert_eq!(
        escape_string_for_quote(r#"say "hi""#, '"'),
        r#"say \"hi\""#
    );
    assert_eq!(
        escape_string_for_quote("it's here", '\''),
        r"it\'s here"
    );
}

#[test]
fn test_escape_string_for_quote_null_byte() {
    // Null byte (\0) must be escaped as \u0000
    let input = "before\0after";
    let result = escape_string_for_quote(input, '"');
    assert_eq!(result, "before\\u0000after");
}

#[test]
fn test_escape_string_for_quote_control_chars() {
    // Control characters (other than \n, \r, \t) must be escaped as \uXXXX.
    // BEL (0x07) is a control char that is not \n, \r, or \t.
    let bel = '\x07';
    let input = format!("a{}b", bel);
    let result = escape_string_for_quote(&input, '"');
    assert_eq!(result, "a\\u0007b");
}

#[test]
fn test_escape_string_for_quote_control_char_or_null_both_branches() {
    // This tests that the `||` in `c.is_control() || c == '\0'` works:
    // \x01 is a control char AND is not '\0' -- exercises `is_control()` path
    // \0 is both a control char and the explicit '\0' check
    let input_ctrl = "\x01";
    assert_eq!(
        escape_string_for_quote(input_ctrl, '"'),
        "\\u0001",
        "Control char (SOH) should be escaped"
    );

    let input_null = "\0";
    assert_eq!(
        escape_string_for_quote(input_null, '"'),
        "\\u0000",
        "Null byte should be escaped"
    );
}

#[test]
fn test_escape_string_for_quote_newline_tab_cr() {
    // \n, \r, \t have their own dedicated escape sequences
    assert_eq!(escape_string_for_quote("a\nb", '"'), "a\\nb");
    assert_eq!(escape_string_for_quote("a\rb", '"'), "a\\rb");
    assert_eq!(escape_string_for_quote("a\tb", '"'), "a\\tb");
}

#[test]
fn test_escape_string_for_quote_mixed_content() {
    // Mix of normal chars, quote chars, backslashes, control chars
    let input = "path\\to\x00\"file\"\n";
    let result = escape_string_for_quote(input, '"');
    assert_eq!(result, "path\\\\to\\u0000\\\"file\\\"\\n");
}

#[test]
fn test_escape_string_for_quote_empty_string() {
    assert_eq!(escape_string_for_quote("", '"'), "");
    assert_eq!(escape_string_for_quote("", '\''), "");
}

// =========================================================================
// escape_string_single tests
// =========================================================================

#[test]
fn test_escape_string_single_normal_text() {
    // Normal text should pass through unchanged
    assert_eq!(escape_string_single("hello world"), "hello world");
}

#[test]
fn test_escape_string_single_escapes_single_quotes() {
    // Single quotes must be escaped
    assert_eq!(escape_string_single("it's"), r"it\'s");
}

#[test]
fn test_escape_string_single_preserves_double_quotes() {
    // Double quotes should NOT be escaped (only single quotes are)
    assert_eq!(escape_string_single(r#"say "hi""#), r#"say "hi""#);
}

#[test]
fn test_escape_string_single_backslash() {
    assert_eq!(escape_string_single(r"a\b"), r"a\\b");
}

#[test]
fn test_escape_string_single_control_chars() {
    assert_eq!(escape_string_single("a\nb"), "a\\nb");
    assert_eq!(escape_string_single("a\x07b"), "a\\u0007b");
}

#[test]
fn test_escape_string_single_empty() {
    assert_eq!(escape_string_single(""), "");
}

#[test]
fn test_escape_string_single_mixed() {
    // Mix of single quotes, backslashes, newlines
    let input = "it's a \\path\n";
    let result = escape_string_single(input);
    assert_eq!(result, r"it\'s a \\path\n");
}

// =========================================================================
// extract_bool tests
// =========================================================================

#[test]
fn test_extract_bool_true_value() {
    let val = Value::Bool(true);
    assert_eq!(extract_bool(&val, false), true);
}

#[test]
fn test_extract_bool_false_value() {
    let val = Value::Bool(false);
    assert_eq!(extract_bool(&val, true), false);
}

#[test]
fn test_extract_bool_missing_returns_default_true() {
    // When value is not a bool, default should be returned
    let val = Value::Null;
    assert_eq!(extract_bool(&val, true), true);
}

#[test]
fn test_extract_bool_missing_returns_default_false() {
    let val = Value::Null;
    assert_eq!(extract_bool(&val, false), false);
}

#[test]
fn test_extract_bool_wrong_type_returns_default() {
    // A string value is not a bool, should return default
    let val = Value::Str("true".to_string());
    assert_eq!(extract_bool(&val, false), false);
}

// =========================================================================
// extract_call_from_row_trait tests
// =========================================================================

/// Build a standard layout matching the standard_headers() column order.
fn standard_layout() -> CallRowLayout {
    CallRowLayout::from_headers(&standard_headers()).unwrap()
}

/// Build a MockRow with all 11 required fields populated for a valid call.
fn valid_call_row() -> Row {
    // Column order: caller_module(0), caller_name(1), caller_arity(2),
    //   caller_kind(3), caller_start_line(4), caller_end_line(5),
    //   callee_module(6), callee_function(7), callee_arity(8),
    //   file(9), call_line(10)
    Row::new(vec![
        Value::Str("MyApp.Controller".to_string()), // caller_module
        Value::Str("index".to_string()),            // caller_name
        Value::Int(2),                              // caller_arity
        Value::Str("def".to_string()),              // caller_kind
        Value::Int(10),                             // caller_start_line
        Value::Int(30),                             // caller_end_line
        Value::Str("MyApp.Repo".to_string()),       // callee_module
        Value::Str("get".to_string()),              // callee_function
        Value::Int(1),                              // callee_arity
        Value::Str("lib/my_app/controller.ex".to_string()), // file
        Value::Int(25),                             // call_line
    ])
}

#[test]
fn test_extract_call_from_row_trait_valid_row() {
    let layout = standard_layout();
    let row = valid_call_row();

    let call = extract_call_from_row_trait(&row, &layout);
    assert!(call.is_some(), "Valid row should produce Some(Call)");

    let call = call.unwrap();
    assert_eq!(call.caller.module.as_str(), "MyApp.Controller");
    assert_eq!(call.caller.name.as_str(), "index");
    assert_eq!(call.caller.arity, 2);
    assert_eq!(call.caller.kind.as_deref(), Some("def"));
    assert_eq!(call.caller.start_line, Some(10));
    assert_eq!(call.caller.end_line, Some(30));
    assert_eq!(
        call.caller.file.as_deref(),
        Some("lib/my_app/controller.ex")
    );

    assert_eq!(call.callee.module.as_str(), "MyApp.Repo");
    assert_eq!(call.callee.name.as_str(), "get");
    assert_eq!(call.callee.arity, 1);

    assert_eq!(call.line, 25);
    assert!(call.call_type.is_none());
    assert!(call.depth.is_none());
}

#[test]
fn test_extract_call_from_row_trait_missing_caller_module_returns_none() {
    let layout = standard_layout();
    // Replace caller_module (index 0) with None to simulate missing required field
    let row = Row::new(vec![
        Value::Null,                                // caller_module - missing
        Value::Str("index".to_string()),            // caller_name
        Value::Int(2),                              // caller_arity
        Value::Str("def".to_string()),              // caller_kind
        Value::Int(10),                             // caller_start_line
        Value::Int(30),                             // caller_end_line
        Value::Str("MyApp.Repo".to_string()),       // callee_module
        Value::Str("get".to_string()),              // callee_function
        Value::Int(1),                              // callee_arity
        Value::Str("lib/controller.ex".to_string()), // file
        Value::Int(25),                             // call_line
    ]);

    let call = extract_call_from_row_trait(&row, &layout);
    assert!(call.is_none(), "Missing caller_module should return None");
}

#[test]
fn test_extract_call_from_row_trait_missing_callee_name_returns_none() {
    let layout = standard_layout();
    let row = Row::new(vec![
        Value::Str("MyApp.Controller".to_string()), // caller_module
        Value::Str("index".to_string()),            // caller_name
        Value::Int(2),                              // caller_arity
        Value::Str("def".to_string()),              // caller_kind
        Value::Int(10),                             // caller_start_line
        Value::Int(30),                             // caller_end_line
        Value::Str("MyApp.Repo".to_string()),       // callee_module
        Value::Null,                                // callee_function - missing
        Value::Int(1),                              // callee_arity
        Value::Str("lib/controller.ex".to_string()), // file
        Value::Int(25),                             // call_line
    ]);

    let call = extract_call_from_row_trait(&row, &layout);
    assert!(
        call.is_none(),
        "Missing callee function name should return None"
    );
}

#[test]
fn test_extract_call_from_row_trait_missing_file_returns_none() {
    let layout = standard_layout();
    let row = Row::new(vec![
        Value::Str("MyApp.Controller".to_string()),
        Value::Str("index".to_string()),
        Value::Int(2),
        Value::Str("def".to_string()),
        Value::Int(10),
        Value::Int(30),
        Value::Str("MyApp.Repo".to_string()),
        Value::Str("get".to_string()),
        Value::Int(1),
        Value::Null, // file - missing
        Value::Int(25),
    ]);

    let call = extract_call_from_row_trait(&row, &layout);
    assert!(call.is_none(), "Missing file should return None");
}

#[test]
fn test_extract_call_from_row_trait_empty_row_returns_none() {
    let layout = standard_layout();
    let row = Row::new(vec![]);

    let call = extract_call_from_row_trait(&row, &layout);
    assert!(call.is_none(), "Empty row should return None");
}

// CallRowLayout::from_headers tests

fn standard_headers() -> Vec<String> {
    vec![
        "caller_module",
        "caller_name",
        "caller_arity",
        "caller_kind",
        "caller_start_line",
        "caller_end_line",
        "callee_module",
        "callee_function",
        "callee_arity",
        "file",
        "call_line",
    ]
    .into_iter()
    .map(String::from)
    .collect()
}

#[test]
fn test_from_headers_all_required_columns() {
    let headers = standard_headers();
    let layout = CallRowLayout::from_headers(&headers).unwrap();

    assert_eq!(layout.caller_module_idx, 0);
    assert_eq!(layout.caller_name_idx, 1);
    assert_eq!(layout.caller_arity_idx, 2);
    assert_eq!(layout.caller_kind_idx, 3);
    assert_eq!(layout.caller_start_line_idx, 4);
    assert_eq!(layout.caller_end_line_idx, 5);
    assert_eq!(layout.callee_module_idx, 6);
    assert_eq!(layout.callee_name_idx, 7);
    assert_eq!(layout.callee_arity_idx, 8);
    assert_eq!(layout.file_idx, 9);
    assert_eq!(layout.line_idx, 10);
    assert_eq!(layout.call_type_idx, None);
}

#[test]
fn test_from_headers_with_optional_call_type() {
    let mut headers = standard_headers();
    headers.push("call_type".to_string());

    let layout = CallRowLayout::from_headers(&headers).unwrap();
    assert_eq!(layout.call_type_idx, Some(11));
}

#[test]
fn test_from_headers_different_column_order() {
    // Columns in different order - the key benefit of dynamic lookup
    let headers: Vec<String> = vec![
        "file",
        "callee_module",
        "caller_module",
        "call_line",
        "caller_name",
        "callee_function",
        "caller_arity",
        "callee_arity",
        "caller_kind",
        "caller_start_line",
        "caller_end_line",
        "call_type",
    ]
    .into_iter()
    .map(String::from)
    .collect();

    let layout = CallRowLayout::from_headers(&headers).unwrap();

    assert_eq!(layout.file_idx, 0);
    assert_eq!(layout.callee_module_idx, 1);
    assert_eq!(layout.caller_module_idx, 2);
    assert_eq!(layout.line_idx, 3);
    assert_eq!(layout.caller_name_idx, 4);
    assert_eq!(layout.callee_name_idx, 5);
    assert_eq!(layout.caller_arity_idx, 6);
    assert_eq!(layout.callee_arity_idx, 7);
    assert_eq!(layout.caller_kind_idx, 8);
    assert_eq!(layout.caller_start_line_idx, 9);
    assert_eq!(layout.caller_end_line_idx, 10);
    assert_eq!(layout.call_type_idx, Some(11));
}

#[test]
fn test_from_headers_missing_required_column() {
    let headers: Vec<String> = vec![
        "caller_module",
        "caller_name",
        // missing caller_arity
        "caller_kind",
    ]
    .into_iter()
    .map(String::from)
    .collect();

    let result = CallRowLayout::from_headers(&headers);
    assert!(result.is_err());

    let err = result.unwrap_err();
    assert!(matches!(err, DbError::MissingColumn { ref name } if name == "caller_arity"));
}

#[test]
fn test_from_headers_error_message() {
    let headers: Vec<String> = vec!["caller_module".to_string()];

    let err = CallRowLayout::from_headers(&headers).unwrap_err();
    assert_eq!(
        err.to_string(),
        "Missing column 'caller_name' in query result"
    );
}

