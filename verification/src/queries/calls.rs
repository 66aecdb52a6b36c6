//! Unified call graph queries for finding function calls.
//!
//! A single query finds calls in either direction:
//! - `From`: all calls made BY the matched functions (outgoing calls)
//! - `To`: all calls made TO the matched functions (incoming calls)

use vstd::prelude::*;
use crate::backend::{Database, QueryParams, QueryResult, Row, Value, ParamView};
use crate::db::{DbError, cell_text, cell_text_or, cell_int_or, get_string, get_string_or, get_i64_or};
use crate::query_builders::{validate_regex_patterns, first_invalid_pattern, opt_str_view, pattern_views};
use crate::queries::rows::{views, distinct_names, int_in_column, text_in_column, text_at_column, lemma_named_cell};
use crate::types::{Call, CallView, FunctionRef, FunctionRefView};

use crate::backend::surreal_rows::{names_ascending, lemma_names_ascending_from_adjacent};
use crate::text::{lex_order, lemma_lex_less};

verus! {


/// Errors of the query.
#[derive(Debug)]
pub enum CallsError {
    QueryFailed { message: String },
    InvalidRegex { pattern: String },
}

impl CallsError {
    /// The error's text.
    pub open spec fn message(&self) -> Seq<char> {
        match self {
            CallsError::QueryFailed { message } => "Calls query failed: "@ + message@,
            CallsError::InvalidRegex { pattern } => "Invalid regex pattern: "@ + pattern@,
        }
    }

    /// The error's text (what `Display` writes).
    pub fn to_string(&self) -> (r: String)
        ensures
            r@ == self.message(),
    {
        let mut r = String::new();
        match self {
            CallsError::QueryFailed { message } => {
                r.append("Calls query failed: ");
                r.append(message.as_str());
            },
            CallsError::InvalidRegex { pattern } => {
                r.append("Invalid regex pattern: ");
                r.append(pattern.as_str());
            },
        }
        r
    }
}

/// Direction of call graph traversal
#[derive(Debug, Clone, Copy, PartialEq, Eq)]
pub enum CallDirection {
    /// Find calls FROM the matched functions (what does this function call?)
    From,
    /// Find calls TO the matched functions (who calls this function?)
    To,
}

/// The side of the edge the filters apply to, and the ordering, per direction.
pub open spec fn calls_endpoint(direction: CallDirection) -> Seq<char> {
    match direction {
        CallDirection::From => "in"@,
        CallDirection::To => "out"@,
    }
}

pub open spec fn calls_order_by(direction: CallDirection) -> Seq<char> {
    match direction {
        CallDirection::From => "in.module_name, in.name, in.arity, line, out.module_name, out.name, out.arity"@,
        CallDirection::To => "out.module_name, out.name, out.arity, in.module_name, in.name, in.arity"@,
    }
}

/// The filter of the query: on the module (regex or exact), then on the
/// function name when one is given, then on the arity when one is given.
pub open spec fn calls_filter_text(direction: CallDirection, has_function: bool, has_arity: bool, use_regex: bool) -> Seq<char> {
    let e = calls_endpoint(direction);
    let where_module = if use_regex {
        "string::matches("@ + e + ".module_name"@ + ", $module_pattern)"@
    } else {
        e + ".module_name"@ + " = $module_pattern"@
    };
    let fn_field = if use_regex && has_function {
        " AND string::matches("@ + e + ".name, $function_pattern)"@
    } else if has_function {
        " AND type::string("@ + e + ".name) = $function_pattern"@
    } else {
        Seq::empty()
    };
    let ar_field = if has_arity { " AND "@ + e + ".arity = $arity"@ } else { Seq::empty() };
    where_module + fn_field + ar_field
}

/// The query text for the given direction and filters.
pub open spec fn calls_query_text(direction: CallDirection, function_pattern: Option<Seq<char>>, arity: Option<i64>, use_regex: bool) -> Seq<char> {
    r#"
        SELECT
            "default" as project,
            in.name as caller_name,
            in.module_name as caller_module,
            in.arity as caller_arity,
            in.kind as caller_kind,
            caller_clause_id.start_line as caller_start_line,
            caller_clause_id.end_line as caller_end_line,
            out.module_name as callee_module,
            out.name as callee_function,
            out.arity as callee_arity,
            in.file as file,
            line as callee_line,
            call_type
        FROM calls
        WHERE "#@ + calls_filter_text(direction, function_pattern is Some, arity is Some, use_regex) + r#"
        ORDER BY "#@ + calls_order_by(direction) + r#"
        LIMIT $limit
        "#@
}

fn calls_filter(direction: CallDirection, has_function: bool, has_arity: bool, use_regex: bool) -> (r: String)
    ensures
        r@ == calls_filter_text(direction, has_function, has_arity, use_regex),
{
    let e = match direction {
        CallDirection::From => "in",
        CallDirection::To => "out",
    };
    let mut query = String::new();
    if use_regex {
        query.append("string::matches(");
        query.append(e);
        query.append(".module_name");
        query.append(", $module_pattern)");
    } else {
        query.append(e);
        query.append(".module_name");
        query.append(" = $module_pattern");
    }
    if use_regex && has_function {
        query.append(" AND string::matches(");
        query.append(e);
        query.append(".name, $function_pattern)");
    } else if has_function {
        query.append(" AND type::string(");
        query.append(e);
        query.append(".name) = $function_pattern");
    }
    if has_arity {
        query.append(" AND ");
        query.append(e);
        query.append(".arity = $arity");
    }
    query
}

/// The parameters: the module pattern and limit, then the function pattern
/// and the arity when given.
pub open spec fn calls_params(module_pattern: Seq<char>, function_pattern: Option<Seq<char>>, arity: Option<i64>, limit: u32) -> Map<Seq<char>, ParamView> {
    let m = Map::empty().insert("module_pattern"@, ParamView::Str(module_pattern)).insert("limit"@, ParamView::Int(limit as i64));
    let m = match function_pattern {
        Some(f) => m.insert("function_pattern"@, ParamView::Str(f)),
        None => m,
    };
    match arity {
        Some(a) => m.insert("arity"@, ParamView::Int(a)),
        None => m,
    }
}

/// Builds the query text and parameters.
pub fn calls_query(
    direction: CallDirection,
    module_pattern: &str,
    function_pattern: Option<&str>,
    arity: Option<i64>,
    use_regex: bool,
    limit: u32,
) -> (r: (String, QueryParams))
    ensures
        r.0@ == calls_query_text(direction, opt_str_view(function_pattern), arity, use_regex),
        r.1.binds_exactly(calls_params(module_pattern@, opt_str_view(function_pattern), arity, limit)),
{
    let order_by = match direction {
        CallDirection::From => "in.module_name, in.name, in.arity, line, out.module_name, out.name, out.arity",
        CallDirection::To => "out.module_name, out.name, out.arity, in.module_name, in.name, in.arity",
    };
    let filter = calls_filter(direction, function_pattern.is_some(), arity.is_some(), use_regex);
    let mut query = String::new();
    query.append(r#"
        SELECT
            "default" as project,
            in.name as caller_name,
            in.module_name as caller_module,
            in.arity as caller_arity,
            in.kind as caller_kind,
            caller_clause_id.start_line as caller_start_line,
            caller_clause_id.end_line as caller_end_line,
            out.module_name as callee_module,
            out.name as callee_function,
            out.arity as callee_arity,
            in.file as file,
            line as callee_line,
            call_type
        FROM calls
        WHERE "#);
    query.append(filter.as_str());
    query.append(r#"
        ORDER BY "#);
    query.append(order_by);
    query.append(r#"
        LIMIT $limit
        "#);
    let mut params = QueryParams::new().with_str("module_pattern", module_pattern).with_int("limit", limit as i64);
    match function_pattern {
        Some(fn_pat) => {
            params = params.with_str("function_pattern", fn_pat);
        },
        None => {},
    }
    match arity {
        Some(a) => {
            params = params.with_int("arity", a);
        },
        None => {},
    }
    (query, params)
}

/// The call a result row describes (columns in alphabetical order of their
/// names: call_type, callee_arity, callee_function, callee_line,
/// callee_module, caller_arity, caller_end_line, caller_kind, caller_module,
/// caller_name, caller_start_line, file, project). The caller carries its
/// definition site when the row gives positive start and end lines and a
/// kind; an empty call type is none.
pub open spec fn calls_row_call(row: Seq<Value>) -> Option<CallView> {
    if row.len() >= 13 {
        match (cell_text(row, 2), cell_text(row, 4), cell_text(row, 8), cell_text(row, 9)) {
            (Some(callee_function), Some(callee_module), Some(caller_module), Some(caller_name)) => {
                let start = cell_int_or(row, 10, 0);
                let end = cell_int_or(row, 6, 0);
                let kind = cell_text_or(row, 7, ""@);
                let file = cell_text_or(row, 11, ""@);
                let arity = cell_int_or(row, 5, 0);
                let call_type = cell_text_or(row, 0, ""@);
                Some(CallView {
                    caller: if start > 0 && end > 0 && kind.len() > 0 {
                        FunctionRefView {
                            module: caller_module,
                            name: caller_name,
                            arity,
                            kind: Some(kind),
                            file: Some(file),
                            start_line: Some(start),
                            end_line: Some(end),
                        }
                    } else {
                        FunctionRefView {
                            module: caller_module,
                            name: caller_name,
                            arity,
                            kind: None,
                            file: None,
                            start_line: None,
                            end_line: None,
                        }
                    },
                    callee: FunctionRefView {
                        module: callee_module,
                        name: callee_function,
                        arity: cell_int_or(row, 1, 0),
                        kind: None,
                        file: None,
                        start_line: None,
                        end_line: None,
                    },
                    line: cell_int_or(row, 3, 0),
                    call_type: if call_type.len() == 0 { None } else { Some(call_type) },
                    depth: None,
                })
            },
            _ => None,
        }
    } else {
        None
    }
}

/// The caller of a call carries its definition site whole or not at all:
/// kind, file, start line and end line are all there, with positive lines
/// and a non-empty kind, or none of them is.
pub proof fn lemma_caller_site_whole_or_absent(row: Seq<Value>)
    ensures
        calls_row_call(row) matches Some(c) ==> {
            ||| (c.caller.kind is Some && c.caller.kind->0.len() > 0 && c.caller.file is Some
                && c.caller.start_line is Some && c.caller.start_line->0 > 0
                && c.caller.end_line is Some && c.caller.end_line->0 > 0)
            ||| (c.caller.kind is None && c.caller.file is None && c.caller.start_line is None
                && c.caller.end_line is None)
        },
{
}

/// Reads the call a result row describes.
pub fn call_from_calls_row(row: &Row) -> (r: Option<Call>)
    ensures
        match r {
            Some(c) => calls_row_call(row.values@) == Some(c@),
            None => calls_row_call(row.values@) is None,
        },
{
    if row.len() < 13 {
        return None;
    }
    let call_type_str = get_string_or(row, 0, "");
    let callee_arity = get_i64_or(row, 1, 0);
    let callee_function = get_string(row, 2)?;
    let callee_line = get_i64_or(row, 3, 0);
    let callee_module = get_string(row, 4)?;
    let caller_arity = get_i64_or(row, 5, 0);
    let caller_end_line = get_i64_or(row, 6, 0);
    let caller_kind = get_string_or(row, 7, "");
    let caller_module = get_string(row, 8)?;
    let caller_name = get_string(row, 9)?;
    let caller_start_line = get_i64_or(row, 10, 0);
    let file = get_string_or(row, 11, "");
    let caller = if caller_start_line > 0 && caller_end_line > 0 && !caller_kind.as_str().is_empty() {
        FunctionRef::with_definition(caller_module, caller_name, caller_arity, caller_kind, file, caller_start_line, caller_end_line)
    } else {
        FunctionRef::new(caller_module, caller_name, caller_arity)
    };
    let callee = FunctionRef::new(callee_module, callee_function, callee_arity);
    let call_type = if call_type_str.as_str().is_empty() {
        None
    } else {
        Some(call_type_str)
    };
    Some(Call { caller, callee, line: callee_line, call_type, depth: None })
}

/// The calls the rows describe, in row order.
pub open spec fn calls_of_rows(rows: Seq<Row>) -> Seq<CallView> {
    rows.filter_map(|r: Row| calls_row_call(r.values@))
}

/// Reads every row that describes a call, in row order.
pub fn decode_calls(rows: &Vec<Row>) -> (r: Vec<Call>)
    ensures
        views(r@) == calls_of_rows(rows@),
{
    let mut out: Vec<Call> = Vec::new();
    let mut i: usize = 0;
    while i < rows.len()
        invariant
            i <= rows@.len(),
            views(out@) == calls_of_rows(rows@.take(i as int)),
        decreases rows@.len() - i,
    {
        let ghost before = out@;
        let c = call_from_calls_row(&rows[i]);
        let ghost t = rows@.take(i + 1);
        assert(t.drop_last() =~= rows@.take(i as int));
        assert(t.last() == rows@[i as int]);
        match c {
            Some(x) => {
                out.push(x);
                assert(views(out@) =~= views(before) + seq![x@]);
            },
            None => {},
        }
        i = i + 1;
    }
    assert(rows@.take(rows@.len() as int) =~= rows@);
    out
}


/// Find calls in the specified direction: `From` gives the calls made by the
/// functions matching the patterns, `To` the calls made to them; at most
/// `limit` of them, in the direction's order.
pub fn find_calls<D: Database + ?Sized>(db: &D, direction: CallDirection, module_pattern: &str, function_pattern: Option<&str>, arity: Option<i64>, use_regex: bool, limit: u32) -> (r: Result<Vec<Call>, CallsError>)
    ensures
        match r {
            Err(CallsError::InvalidRegex { pattern: bad }) => first_invalid_pattern(use_regex, seq![Some(module_pattern@), opt_str_view(function_pattern)]) == Some(bad@),
            Err(CallsError::QueryFailed { message }) => first_invalid_pattern(use_regex, seq![Some(module_pattern@), opt_str_view(function_pattern)]) is None
                && exists|p: QueryParams, e: DbError| p.binds_exactly(calls_params(module_pattern@, opt_str_view(function_pattern), arity, limit))
                    && #[trigger] db.answers(calls_query_text(direction, opt_str_view(function_pattern), arity, use_regex), p, Err(e)) && message@ == e.message(),
            Ok(v) => first_invalid_pattern(use_regex, seq![Some(module_pattern@), opt_str_view(function_pattern)]) is None
                && exists|p: QueryParams, res: QueryResult| p.binds_exactly(calls_params(module_pattern@, opt_str_view(function_pattern), arity, limit))
                    && #[trigger] db.answers(calls_query_text(direction, opt_str_view(function_pattern), arity, use_regex), p, Ok(res))
                    && ({ let d = calls_of_rows(res.rows@); views(v@) == d }),
        },
{
    let pats: [Option<&str>; 2] = [Some(module_pattern), function_pattern];
    assert(pattern_views(pats@) =~= seq![Some(module_pattern@), opt_str_view(function_pattern)]);
    match validate_regex_patterns(use_regex, &pats) {
        Err(p) => {
            return Err(CallsError::InvalidRegex { pattern: p });
        },
        Ok(()) => {},
    }
    let (query, params) = calls_query(direction, module_pattern, function_pattern, arity, use_regex, limit);
    let ghost gp = params;
    match db.execute_query(query.as_str(), params) {
        Ok(res) => {
            let v = decode_calls(&res.rows);
            let out = v;
            assert(db.answers(query@, gp, Ok(res)));
            Ok(out)
        },
        Err(e) => {
            let ghost ge = e;
            let message = e.to_string();
            assert(db.answers(query@, gp, Err(ge)));
            Err(CallsError::QueryFailed { message })
        },
    }
}

/// Find the calls made by the functions matching the patterns (the `From`
/// direction of `find_calls`).
pub fn find_calls_from<D: Database + ?Sized>(db: &D, module_pattern: &str, function_pattern: Option<&str>, arity: Option<i64>, _project: &str, use_regex: bool, limit: u32) -> (r: Result<Vec<Call>, CallsError>)
    ensures
        match r {
            Err(CallsError::InvalidRegex { pattern: bad }) => first_invalid_pattern(use_regex, seq![Some(module_pattern@), opt_str_view(function_pattern)]) == Some(bad@),
            Err(CallsError::QueryFailed { message }) => first_invalid_pattern(use_regex, seq![Some(module_pattern@), opt_str_view(function_pattern)]) is None
                && exists|p: QueryParams, e: DbError| p.binds_exactly(calls_params(module_pattern@, opt_str_view(function_pattern), arity, limit))
                    && #[trigger] db.answers(calls_query_text(CallDirection::From, opt_str_view(function_pattern), arity, use_regex), p, Err(e)) && message@ == e.message(),
            Ok(v) => first_invalid_pattern(use_regex, seq![Some(module_pattern@), opt_str_view(function_pattern)]) is None
                && exists|p: QueryParams, res: QueryResult| p.binds_exactly(calls_params(module_pattern@, opt_str_view(function_pattern), arity, limit))
                    && #[trigger] db.answers(calls_query_text(CallDirection::From, opt_str_view(function_pattern), arity, use_regex), p, Ok(res))
                    && ({ let d = calls_of_rows(res.rows@); views(v@) == d }),
        },
{
    let pats: [Option<&str>; 2] = [Some(module_pattern), function_pattern];
    assert(pattern_views(pats@) =~= seq![Some(module_pattern@), opt_str_view(function_pattern)]);
    match validate_regex_patterns(use_regex, &pats) {
        Err(p) => {
            return Err(CallsError::InvalidRegex { pattern: p });
        },
        Ok(()) => {},
    }
    let (query, params) = calls_query(CallDirection::From, module_pattern, function_pattern, arity, use_regex, limit);
    let ghost gp = params;
    match db.execute_query(query.as_str(), params) {
        Ok(res) => {
            let v = decode_calls(&res.rows);
            let out = v;
            assert(db.answers(query@, gp, Ok(res)));
            Ok(out)
        },
        Err(e) => {
            let ghost ge = e;
            let message = e.to_string();
            assert(db.answers(query@, gp, Err(ge)));
            Err(CallsError::QueryFailed { message })
        },
    }
}

/// Find the calls made to the functions matching the patterns (the `To`
/// direction of `find_calls`).
pub fn find_calls_to<D: Database + ?Sized>(db: &D, module_pattern: &str, function_pattern: Option<&str>, arity: Option<i64>, use_regex: bool, limit: u32) -> (r: Result<Vec<Call>, CallsError>)
    ensures
        match r {
            Err(CallsError::InvalidRegex { pattern: bad }) => first_invalid_pattern(use_regex, seq![Some(module_pattern@), opt_str_view(function_pattern)]) == Some(bad@),
            Err(CallsError::QueryFailed { message }) => first_invalid_pattern(use_regex, seq![Some(module_pattern@), opt_str_view(function_pattern)]) is None
                && exists|p: QueryParams, e: DbError| p.binds_exactly(calls_params(module_pattern@, opt_str_view(function_pattern), arity, limit))
                    && #[trigger] db.answers(calls_query_text(CallDirection::To, opt_str_view(function_pattern), arity, use_regex), p, Err(e)) && message@ == e.message(),
            Ok(v) => first_invalid_pattern(use_regex, seq![Some(module_pattern@), opt_str_view(function_pattern)]) is None
                && exists|p: QueryParams, res: QueryResult| p.binds_exactly(calls_params(module_pattern@, opt_str_view(function_pattern), arity, limit))
                    && #[trigger] db.answers(calls_query_text(CallDirection::To, opt_str_view(function_pattern), arity, use_regex), p, Ok(res))
                    && ({ let d = calls_of_rows(res.rows@); views(v@) == d }),
        },
{
    let pats: [Option<&str>; 2] = [Some(module_pattern), function_pattern];
    assert(pattern_views(pats@) =~= seq![Some(module_pattern@), opt_str_view(function_pattern)]);
    match validate_regex_patterns(use_regex, &pats) {
        Err(p) => {
            return Err(CallsError::InvalidRegex { pattern: p });
        },
        Ok(()) => {},
    }
    let (query, params) = calls_query(CallDirection::To, module_pattern, function_pattern, arity, use_regex, limit);
    let ghost gp = params;
    match db.execute_query(query.as_str(), params) {
        Ok(res) => {
            let v = decode_calls(&res.rows);
            let out = v;
            assert(db.answers(query@, gp, Ok(res)));
            Ok(out)
        },
        Err(e) => {
            let ghost ge = e;
            let message = e.to_string();
            assert(db.answers(query@, gp, Err(ge)));
            Err(CallsError::QueryFailed { message })
        },
    }
}

/// The query binds each of its parameters to the input of that name, and binds an optional one exactly when it is given.
pub proof fn lemma_calls_params_bind_inputs(module_pattern: Seq<char>, function_pattern: Option<Seq<char>>, arity: Option<i64>, limit: u32)
    ensures
        ({
            let m = calls_params(module_pattern, function_pattern, arity, limit);
            &&& m.dom().contains("module_pattern"@) && m["module_pattern"@] == ParamView::Str(module_pattern)
            &&& match function_pattern { Some(v) => m.dom().contains("function_pattern"@) && m["function_pattern"@] == ParamView::Str(v), None => !m.dom().contains("function_pattern"@) }
            &&& match arity { Some(v) => m.dom().contains("arity"@) && m["arity"@] == ParamView::Int(v), None => !m.dom().contains("arity"@) }
            &&& m.dom().contains("limit"@) && m["limit"@] == ParamView::Int(limit as i64)
        }),
{
    reveal_strlit("module_pattern");
    reveal_strlit("function_pattern");
    reveal_strlit("arity");
    reveal_strlit("limit");
    assert("module_pattern"@.len() != "function_pattern"@.len());
    assert("module_pattern"@.len() != "arity"@.len());
    assert("module_pattern"@.len() != "limit"@.len());
    assert("function_pattern"@.len() != "arity"@.len());
    assert("function_pattern"@.len() != "limit"@.len());
    assert("arity"@[0] != "limit"@[0]);
}

/// The columns of the query's answer, as SurrealDB gives them: the names
/// the query selects, in alphabetical order.
pub open spec fn calls_columns() -> Seq<Seq<char>> {
    seq!["call_type"@, "callee_arity"@, "callee_function"@, "callee_line"@, "callee_module"@, "caller_arity"@, "caller_end_line"@, "caller_kind"@, "caller_module"@, "caller_name"@, "caller_start_line"@, "file"@, "project"@]
}

proof fn lemma_calls_columns_distinct()
    ensures
        distinct_names(calls_columns()),
{
    let c = calls_columns();
    reveal_strlit("call_type");
    reveal_strlit("callee_arity");
    reveal_strlit("callee_function");
    reveal_strlit("callee_line");
    reveal_strlit("callee_module");
    reveal_strlit("caller_arity");
    reveal_strlit("caller_end_line");
    reveal_strlit("caller_kind");
    reveal_strlit("caller_module");
    reveal_strlit("caller_name");
    reveal_strlit("caller_start_line");
    reveal_strlit("file");
    reveal_strlit("project");
    assert(c[0] == "call_type"@);
    assert(c[1] == "callee_arity"@);
    assert(c[2] == "callee_function"@);
    assert(c[3] == "callee_line"@);
    assert(c[4] == "callee_module"@);
    assert(c[5] == "caller_arity"@);
    assert(c[6] == "caller_end_line"@);
    assert(c[7] == "caller_kind"@);
    assert(c[8] == "caller_module"@);
    assert(c[9] == "caller_name"@);
    assert(c[10] == "caller_start_line"@);
    assert(c[11] == "file"@);
    assert(c[12] == "project"@);
    assert(c[0].len() != c[1].len());
    assert(c[0] != c[1]);
    assert(c[0].len() != c[2].len());
    assert(c[0] != c[2]);
    assert(c[0].len() != c[3].len());
    assert(c[0] != c[3]);
    assert(c[0].len() != c[4].len());
    assert(c[0] != c[4]);
    assert(c[0].len() != c[5].len());
    assert(c[0] != c[5]);
    assert(c[0].len() != c[6].len());
    assert(c[0] != c[6]);
    assert(c[0].len() != c[7].len());
    assert(c[0] != c[7]);
    assert(c[0].len() != c[8].len());
    assert(c[0] != c[8]);
    assert(c[0].len() != c[9].len());
    assert(c[0] != c[9]);
    assert(c[0].len() != c[10].len());
    assert(c[0] != c[10]);
    assert(c[0].len() != c[11].len());
    assert(c[0] != c[11]);
    assert(c[0].len() != c[12].len());
    assert(c[0] != c[12]);
    assert(c[1].len() != c[2].len());
    assert(c[1] != c[2]);
    assert(c[1].len() != c[3].len());
    assert(c[1] != c[3]);
    assert(c[1].len() != c[4].len());
    assert(c[1] != c[4]);
    assert(c[1][5] != c[5][5]);
    assert(c[1] != c[5]);
    assert(c[1].len() != c[6].len());
    assert(c[1] != c[6]);
    assert(c[1].len() != c[7].len());
    assert(c[1] != c[7]);
    assert(c[1].len() != c[8].len());
    assert(c[1] != c[8]);
    assert(c[1].len() != c[9].len());
    assert(c[1] != c[9]);
    assert(c[1].len() != c[10].len());
    assert(c[1] != c[10]);
    assert(c[1].len() != c[11].len());
    assert(c[1] != c[11]);
    assert(c[1].len() != c[12].len());
    assert(c[1] != c[12]);
    assert(c[2].len() != c[3].len());
    assert(c[2] != c[3]);
    assert(c[2].len() != c[4].len());
    assert(c[2] != c[4]);
    assert(c[2].len() != c[5].len());
    assert(c[2] != c[5]);
    assert(c[2][5] != c[6][5]);
    assert(c[2] != c[6]);
    assert(c[2].len() != c[7].len());
    assert(c[2] != c[7]);
    assert(c[2].len() != c[8].len());
    assert(c[2] != c[8]);
    assert(c[2].len() != c[9].len());
    assert(c[2] != c[9]);
    assert(c[2].len() != c[10].len());
    assert(c[2] != c[10]);
    assert(c[2].len() != c[11].len());
    assert(c[2] != c[11]);
    assert(c[2].len() != c[12].len());
    assert(c[2] != c[12]);
    assert(c[3].len() != c[4].len());
    assert(c[3] != c[4]);
    assert(c[3].len() != c[5].len());
    assert(c[3] != c[5]);
    assert(c[3].len() != c[6].len());
    assert(c[3] != c[6]);
    assert(c[3][5] != c[7][5]);
    assert(c[3] != c[7]);
    assert(c[3].len() != c[8].len());
    assert(c[3] != c[8]);
    assert(c[3][5] != c[9][5]);
    assert(c[3] != c[9]);
    assert(c[3].len() != c[10].len());
    assert(c[3] != c[10]);
    assert(c[3].len() != c[11].len());
    assert(c[3] != c[11]);
    assert(c[3].len() != c[12].len());
    assert(c[3] != c[12]);
    assert(c[4].len() != c[5].len());
    assert(c[4] != c[5]);
    assert(c[4].len() != c[6].len());
    assert(c[4] != c[6]);
    assert(c[4].len() != c[7].len());
    assert(c[4] != c[7]);
    assert(c[4][5] != c[8][5]);
    assert(c[4] != c[8]);
    assert(c[4].len() != c[9].len());
    assert(c[4] != c[9]);
    assert(c[4].len() != c[10].len());
    assert(c[4] != c[10]);
    assert(c[4].len() != c[11].len());
    assert(c[4] != c[11]);
    assert(c[4].len() != c[12].len());
    assert(c[4] != c[12]);
    assert(c[5].len() != c[6].len());
    assert(c[5] != c[6]);
    assert(c[5].len() != c[7].len());
    assert(c[5] != c[7]);
    assert(c[5].len() != c[8].len());
    assert(c[5] != c[8]);
    assert(c[5].len() != c[9].len());
    assert(c[5] != c[9]);
    assert(c[5].len() != c[10].len());
    assert(c[5] != c[10]);
    assert(c[5].len() != c[11].len());
    assert(c[5] != c[11]);
    assert(c[5].len() != c[12].len());
    assert(c[5] != c[12]);
    assert(c[6].len() != c[7].len());
    assert(c[6] != c[7]);
    assert(c[6].len() != c[8].len());
    assert(c[6] != c[8]);
    assert(c[6].len() != c[9].len());
    assert(c[6] != c[9]);
    assert(c[6].len() != c[10].len());
    assert(c[6] != c[10]);
    assert(c[6].len() != c[11].len());
    assert(c[6] != c[11]);
    assert(c[6].len() != c[12].len());
    assert(c[6] != c[12]);
    assert(c[7].len() != c[8].len());
    assert(c[7] != c[8]);
    assert(c[7][7] != c[9][7]);
    assert(c[7] != c[9]);
    assert(c[7].len() != c[10].len());
    assert(c[7] != c[10]);
    assert(c[7].len() != c[11].len());
    assert(c[7] != c[11]);
    assert(c[7].len() != c[12].len());
    assert(c[7] != c[12]);
    assert(c[8].len() != c[9].len());
    assert(c[8] != c[9]);
    assert(c[8].len() != c[10].len());
    assert(c[8] != c[10]);
    assert(c[8].len() != c[11].len());
    assert(c[8] != c[11]);
    assert(c[8].len() != c[12].len());
    assert(c[8] != c[12]);
    assert(c[9].len() != c[10].len());
    assert(c[9] != c[10]);
    assert(c[9].len() != c[11].len());
    assert(c[9] != c[11]);
    assert(c[9].len() != c[12].len());
    assert(c[9] != c[12]);
    assert(c[10].len() != c[11].len());
    assert(c[10] != c[11]);
    assert(c[10].len() != c[12].len());
    assert(c[10] != c[12]);
    assert(c[11].len() != c[12].len());
    assert(c[11] != c[12]);
    assert forall|i: int, j: int| 0 <= i < c.len() && 0 <= j < c.len() && i != j implies #[trigger] c[i] != #[trigger] c[j] by {
        assert(i == 0 || i == 1 || i == 2 || i == 3 || i == 4 || i == 5 || i == 6 || i == 7 || i == 8 || i == 9 || i == 10 || i == 11 || i == 12);
        assert(j == 0 || j == 1 || j == 2 || j == 3 || j == 4 || j == 5 || j == 6 || j == 7 || j == 8 || j == 9 || j == 10 || j == 11 || j == 12);
    }
}

/// Each part of a call read from a row of the answer is the value in the
/// column of its name: the caller from `caller_module`, `caller_name` and
/// `caller_arity` (and, when present, its site from `caller_kind`, `file`,
/// `caller_start_line` and `caller_end_line`), the callee from
/// `callee_module`, `callee_function` and `callee_arity`, the line from
/// `callee_line` and the call type from `call_type`; a row gives a call
/// exactly when it has every column and text in the caller's and callee's
/// module and name columns.
pub proof fn lemma_calls_row_named_columns(row: Seq<Value>)
    ensures
        calls_row_call(row) is Some <==> (row.len() >= calls_columns().len()
            && text_at_column(calls_columns(), row, "caller_module"@) && text_at_column(calls_columns(), row, "caller_name"@)
            && text_at_column(calls_columns(), row, "callee_module"@) && text_at_column(calls_columns(), row, "callee_function"@)),
        calls_row_call(row) matches Some(c) ==> {
            &&& text_in_column(calls_columns(), row, "caller_module"@, c.caller.module, ""@)
            &&& text_in_column(calls_columns(), row, "caller_name"@, c.caller.name, ""@)
            &&& int_in_column(calls_columns(), row, "caller_arity"@, c.caller.arity, 0)
            &&& (c.caller.kind is Some ==> text_in_column(calls_columns(), row, "caller_kind"@, c.caller.kind->0, ""@))
            &&& (c.caller.file is Some ==> text_in_column(calls_columns(), row, "file"@, c.caller.file->0, ""@))
            &&& (c.caller.start_line is Some ==> int_in_column(calls_columns(), row, "caller_start_line"@, c.caller.start_line->0, 0))
            &&& (c.caller.end_line is Some ==> int_in_column(calls_columns(), row, "caller_end_line"@, c.caller.end_line->0, 0))
            &&& text_in_column(calls_columns(), row, "callee_module"@, c.callee.module, ""@)
            &&& text_in_column(calls_columns(), row, "callee_function"@, c.callee.name, ""@)
            &&& int_in_column(calls_columns(), row, "callee_arity"@, c.callee.arity, 0)
            &&& int_in_column(calls_columns(), row, "callee_line"@, c.line, 0)
            &&& text_in_column(calls_columns(), row, "call_type"@, match c.call_type { Some(t) => t, None => ""@ }, ""@)
        },
{
    lemma_calls_columns_distinct();
    let c = calls_columns();
    reveal_strlit("");
    assert(cell_text_or(row, 0, ""@).len() == 0 ==> cell_text_or(row, 0, ""@) =~= ""@);
    assert(c[0] == "call_type"@);
    lemma_named_cell(c, row, 0);
    assert(c[1] == "callee_arity"@);
    lemma_named_cell(c, row, 1);
    assert(c[2] == "callee_function"@);
    lemma_named_cell(c, row, 2);
    assert(c[3] == "callee_line"@);
    lemma_named_cell(c, row, 3);
    assert(c[4] == "callee_module"@);
    lemma_named_cell(c, row, 4);
    assert(c[5] == "caller_arity"@);
    lemma_named_cell(c, row, 5);
    assert(c[6] == "caller_end_line"@);
    lemma_named_cell(c, row, 6);
    assert(c[7] == "caller_kind"@);
    lemma_named_cell(c, row, 7);
    assert(c[8] == "caller_module"@);
    lemma_named_cell(c, row, 8);
    assert(c[9] == "caller_name"@);
    lemma_named_cell(c, row, 9);
    assert(c[10] == "caller_start_line"@);
    lemma_named_cell(c, row, 10);
    assert(c[11] == "file"@);
    lemma_named_cell(c, row, 11);
    assert(c[12] == "project"@);
    lemma_named_cell(c, row, 12);
}

/// Calls from the matched functions are filtered on the calling end (`in`),
/// calls to them on the called end (`out`).
pub proof fn lemma_calls_filter_endpoint()
    ensures
        calls_endpoint(CallDirection::From) == "in"@,
        calls_endpoint(CallDirection::To) == "out"@,
{
}

/// The columns are in ascending order of their names, as SurrealDB gives them.
pub proof fn lemma_calls_columns_ascending()
    ensures
        names_ascending(calls_columns()),
{
    let c = calls_columns();
    reveal_strlit("call_type");
    reveal_strlit("callee_arity");
    reveal_strlit("callee_function");
    reveal_strlit("callee_line");
    reveal_strlit("callee_module");
    reveal_strlit("caller_arity");
    reveal_strlit("caller_end_line");
    reveal_strlit("caller_kind");
    reveal_strlit("caller_module");
    reveal_strlit("caller_name");
    reveal_strlit("caller_start_line");
    reveal_strlit("file");
    reveal_strlit("project");
    assert(c[0] == "call_type"@ && c[1] == "callee_arity"@);
    assert(c[0].subrange(0, 4) =~= c[1].subrange(0, 4));
    assert forall|i: int| 0 <= i < 4 implies c[0][i] == c[1][i] by { assert(c[0][i] == c[0].subrange(0, 4)[i]); assert(c[1][i] == c[1].subrange(0, 4)[i]); }
    assert((c[0][4] as int) < (c[1][4] as int));
    lemma_lex_less(c[0], c[1], 4);
    assert(c[1] == "callee_arity"@ && c[2] == "callee_function"@);
    assert(c[1].subrange(0, 7) =~= c[2].subrange(0, 7));
    assert forall|i: int| 0 <= i < 7 implies c[1][i] == c[2][i] by { assert(c[1][i] == c[1].subrange(0, 7)[i]); assert(c[2][i] == c[2].subrange(0, 7)[i]); }
    assert((c[1][7] as int) < (c[2][7] as int));
    lemma_lex_less(c[1], c[2], 7);
    assert(c[2] == "callee_function"@ && c[3] == "callee_line"@);
    assert(c[2].subrange(0, 7) =~= c[3].subrange(0, 7));
    assert forall|i: int| 0 <= i < 7 implies c[2][i] == c[3][i] by { assert(c[2][i] == c[2].subrange(0, 7)[i]); assert(c[3][i] == c[3].subrange(0, 7)[i]); }
    assert((c[2][7] as int) < (c[3][7] as int));
    lemma_lex_less(c[2], c[3], 7);
    assert(c[3] == "callee_line"@ && c[4] == "callee_module"@);
    assert(c[3].subrange(0, 7) =~= c[4].subrange(0, 7));
    assert forall|i: int| 0 <= i < 7 implies c[3][i] == c[4][i] by { assert(c[3][i] == c[3].subrange(0, 7)[i]); assert(c[4][i] == c[4].subrange(0, 7)[i]); }
    assert((c[3][7] as int) < (c[4][7] as int));
    lemma_lex_less(c[3], c[4], 7);
    assert(c[4] == "callee_module"@ && c[5] == "caller_arity"@);
    assert(c[4].subrange(0, 5) =~= c[5].subrange(0, 5));
    assert forall|i: int| 0 <= i < 5 implies c[4][i] == c[5][i] by { assert(c[4][i] == c[4].subrange(0, 5)[i]); assert(c[5][i] == c[5].subrange(0, 5)[i]); }
    assert((c[4][5] as int) < (c[5][5] as int));
    lemma_lex_less(c[4], c[5], 5);
    assert(c[5] == "caller_arity"@ && c[6] == "caller_end_line"@);
    assert(c[5].subrange(0, 7) =~= c[6].subrange(0, 7));
    assert forall|i: int| 0 <= i < 7 implies c[5][i] == c[6][i] by { assert(c[5][i] == c[5].subrange(0, 7)[i]); assert(c[6][i] == c[6].subrange(0, 7)[i]); }
    assert((c[5][7] as int) < (c[6][7] as int));
    lemma_lex_less(c[5], c[6], 7);
    assert(c[6] == "caller_end_line"@ && c[7] == "caller_kind"@);
    assert(c[6].subrange(0, 7) =~= c[7].subrange(0, 7));
    assert forall|i: int| 0 <= i < 7 implies c[6][i] == c[7][i] by { assert(c[6][i] == c[6].subrange(0, 7)[i]); assert(c[7][i] == c[7].subrange(0, 7)[i]); }
    assert((c[6][7] as int) < (c[7][7] as int));
    lemma_lex_less(c[6], c[7], 7);
    assert(c[7] == "caller_kind"@ && c[8] == "caller_module"@);
    assert(c[7].subrange(0, 7) =~= c[8].subrange(0, 7));
    assert forall|i: int| 0 <= i < 7 implies c[7][i] == c[8][i] by { assert(c[7][i] == c[7].subrange(0, 7)[i]); assert(c[8][i] == c[8].subrange(0, 7)[i]); }
    assert((c[7][7] as int) < (c[8][7] as int));
    lemma_lex_less(c[7], c[8], 7);
    assert(c[8] == "caller_module"@ && c[9] == "caller_name"@);
    assert(c[8].subrange(0, 7) =~= c[9].subrange(0, 7));
    assert forall|i: int| 0 <= i < 7 implies c[8][i] == c[9][i] by { assert(c[8][i] == c[8].subrange(0, 7)[i]); assert(c[9][i] == c[9].subrange(0, 7)[i]); }
    assert((c[8][7] as int) < (c[9][7] as int));
    lemma_lex_less(c[8], c[9], 7);
    assert(c[9] == "caller_name"@ && c[10] == "caller_start_line"@);
    assert(c[9].subrange(0, 7) =~= c[10].subrange(0, 7));
    assert forall|i: int| 0 <= i < 7 implies c[9][i] == c[10][i] by { assert(c[9][i] == c[9].subrange(0, 7)[i]); assert(c[10][i] == c[10].subrange(0, 7)[i]); }
    assert((c[9][7] as int) < (c[10][7] as int));
    lemma_lex_less(c[9], c[10], 7);
    assert(c[10] == "caller_start_line"@ && c[11] == "file"@);
    assert((c[10][0] as int) < (c[11][0] as int));
    lemma_lex_less(c[10], c[11], 0);
    assert(c[11] == "file"@ && c[12] == "project"@);
    assert((c[11][0] as int) < (c[12][0] as int));
    lemma_lex_less(c[11], c[12], 0);
    assert forall|k: int| 0 <= k < c.len() - 1 implies lex_order(#[trigger] c[k], c[k + 1]) < 0 by {
        assert(k == 0 || k == 1 || k == 2 || k == 3 || k == 4 || k == 5 || k == 6 || k == 7 || k == 8 || k == 9 || k == 10 || k == 11);
    }
    lemma_names_ascending_from_adjacent(c);
}

} // verus!
