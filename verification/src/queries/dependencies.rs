//! Unified module dependency queries.
//!
//! A single query finds dependencies in either direction:
//! - `Outgoing`: the calls from the matched module into other modules
//! - `Incoming`: the calls from other modules into the matched module

use vstd::prelude::*;
use crate::backend::{Database, QueryParams, QueryResult, Row, Value, ParamView};
use crate::db::{DbError, CallRowLayout, call_from_row, extract_call_from_row_trait, header_names, layout_from_headers};
use crate::query_builders::{cozo_match, push_cozo_match};
use crate::text::{decimal_int, push_decimal, contains_seq, lemma_contains_piece};
use crate::query_builders::{validate_regex_patterns, first_invalid_pattern, opt_str_view, pattern_views};
use crate::queries::rows::{views, distinct_names, int_in_column, lemma_named_cell};
use crate::types::{Call, CallView, FunctionRef, FunctionRefView};

use crate::backend::surreal_rows::{names_ascending, lemma_names_ascending_from_adjacent};
use crate::text::{lex_order, lemma_lex_less};

verus! {


/// Errors of the query.
#[derive(Debug)]
pub enum DependencyError {
    QueryFailed { message: String },
    InvalidRegex { pattern: String },
}

impl DependencyError {
    /// The error's text.
    pub open spec fn message(&self) -> Seq<char> {
        match self {
            DependencyError::QueryFailed { message } => "Dependency query failed: "@ + message@,
            DependencyError::InvalidRegex { pattern } => "Invalid regex pattern: "@ + pattern@,
        }
    }

    /// The error's text (what `Display` writes).
    pub fn to_string(&self) -> (r: String)
        ensures
            r@ == self.message(),
    {
        let mut r = String::new();
        match self {
            DependencyError::QueryFailed { message } => {
                r.append("Dependency query failed: ");
                r.append(message.as_str());
            },
            DependencyError::InvalidRegex { pattern } => {
                r.append("Invalid regex pattern: ");
                r.append(pattern.as_str());
            },
        }
        r
    }
}

/// Direction of dependency analysis
#[derive(Debug, Clone, Copy, PartialEq, Eq)]
pub enum DependencyDirection {
    /// Find modules that the matched module depends ON (outgoing dependencies)
    Outgoing,
    /// Find modules that depend on the matched module (incoming dependencies)
    Incoming,
}

impl DependencyDirection {
    /// The call field the module filter applies to.
    pub fn filter_field(&self) -> (r: &'static str)
        ensures
            r@ == (match *self {
                DependencyDirection::Outgoing => "caller_module"@,
                DependencyDirection::Incoming => "callee_module"@,
            }),
    {
        match self {
            DependencyDirection::Outgoing => "caller_module",
            DependencyDirection::Incoming => "callee_module",
        }
    }

    /// The ordering of the results for the direction.
    pub fn order_clause(&self) -> (r: &'static str)
        ensures
            r@ == (match *self {
                DependencyDirection::Outgoing => "callee_module, callee_function, callee_arity, caller_module, caller_name, caller_arity, call_line"@,
                DependencyDirection::Incoming => "caller_module, caller_name, caller_arity, callee_function, callee_arity, call_line"@,
            }),
    {
        match self {
            DependencyDirection::Outgoing => "callee_module, callee_function, callee_arity, caller_module, caller_name, caller_arity, call_line",
            DependencyDirection::Incoming => "caller_module, caller_name, caller_arity, callee_function, callee_arity, call_line",
        }
    }
}

/// The module condition for a direction: on the caller's module for
/// outgoing dependencies, on the callee's for incoming ones.
pub open spec fn dependency_condition(direction: DependencyDirection, use_regex: bool) -> Seq<char> {
    match (direction, use_regex) {
        (DependencyDirection::Outgoing, false) => "in.module_name = $module_pattern"@,
        (DependencyDirection::Outgoing, true) => "string::matches(in.module_name, $module_pattern)"@,
        (DependencyDirection::Incoming, false) => "out.module_name = $module_pattern"@,
        (DependencyDirection::Incoming, true) => "string::matches(out.module_name, $module_pattern)"@,
    }
}

/// The query text for a direction.
pub open spec fn dependencies_query_text(direction: DependencyDirection, use_regex: bool) -> Seq<char> {
    r#"
        SELECT in, out, line FROM calls
        WHERE "#@ + dependency_condition(direction, use_regex) + r#" AND in.module_name != out.module_name
        LIMIT $limit;
        "#@
}

/// The parameters of the query.
pub open spec fn dependencies_params(module_pattern: Seq<char>, limit: u32) -> Map<Seq<char>, ParamView> {
    Map::empty().insert("module_pattern"@, ParamView::Str(module_pattern)).insert("limit"@, ParamView::Int(limit as i64))
}

/// Builds the query text and parameters.
pub fn dependencies_query(direction: DependencyDirection, module_pattern: &str, use_regex: bool, limit: u32) -> (r: (String, QueryParams))
    ensures
        r.0@ == dependencies_query_text(direction, use_regex),
        r.1.binds_exactly(dependencies_params(module_pattern@, limit)),
{
    let module_condition = match (direction, use_regex) {
        (DependencyDirection::Outgoing, false) => "in.module_name = $module_pattern",
        (DependencyDirection::Outgoing, true) => "string::matches(in.module_name, $module_pattern)",
        (DependencyDirection::Incoming, false) => "out.module_name = $module_pattern",
        (DependencyDirection::Incoming, true) => "string::matches(out.module_name, $module_pattern)",
    };
    let mut query = String::new();
    query.append(r#"
        SELECT in, out, line FROM calls
        WHERE "#);
    query.append(module_condition);
    query.append(r#" AND in.module_name != out.module_name
        LIMIT $limit;
        "#);
    let params = QueryParams::new().with_str("module_pattern", module_pattern).with_int("limit", limit as i64);
    (query, params)
}

/// The (module, name, arity) of a function record reference, whose id is
/// the array `[module, name, arity]`.
pub open spec fn function_ref_of(v: Value) -> Option<(Seq<char>, Seq<char>, i64)> {
    match v {
        Value::Thing(id) => match *id {
            Value::Array(parts) => if parts@.len() >= 3 {
                match (parts@[0], parts@[1], parts@[2]) {
                    (Value::Str(m), Value::Str(n), Value::Int(a)) => Some((m@, n@, a)),
                    _ => None,
                }
            } else {
                None
            },
            _ => None,
        },
        _ => None,
    }
}

/// Extract (module, name, arity) from a function record reference.
pub fn extract_function_ref_from_value(value: &Value) -> (r: Option<(String, String, i64)>)
    ensures
        match r {
            Some(t) => function_ref_of(*value) == Some((t.0@, t.1@, t.2)),
            None => function_ref_of(*value) is None,
        },
{
    let id = value.as_thing_id()?;
    let parts = id.as_array()?;
    if parts.len() < 3 {
        return None;
    }
    let module = parts[0].as_str()?;
    let name = parts[1].as_str()?;
    let arity = parts[2].as_i64()?;
    Some((module.to_owned(), name.to_owned(), arity))
}

/// The call a row describes: caller in the first column, line in the
/// second (0 when not a number), callee in the third.
pub open spec fn dependency_row_call(row: Seq<Value>) -> Option<CallView> {
    let caller = if row.len() > 0 { function_ref_of(row[0]) } else { None };
    let callee = if row.len() > 2 { function_ref_of(row[2]) } else { None };
    match (caller, callee) {
        (Some(a), Some(b)) => Some(CallView {
            caller: FunctionRefView { module: a.0, name: a.1, arity: a.2, kind: None, file: None, start_line: None, end_line: None },
            callee: FunctionRefView { module: b.0, name: b.1, arity: b.2, kind: None, file: None, start_line: None, end_line: None },
            line: if row.len() > 1 { match row[1] { Value::Int(n) => n, _ => 0 } } else { 0 },
            call_type: None,
            depth: None,
        }),
        _ => None,
    }
}

fn call_from_dependency_row(row: &Row) -> (r: Option<Call>)
    ensures
        match r {
            Some(c) => dependency_row_call(row.values@) == Some(c@),
            None => dependency_row_call(row.values@) is None,
        },
{
    let caller_ref = match row.get(0) {
        Some(v) => extract_function_ref_from_value(v),
        None => None,
    }?;
    let callee_ref = match row.get(2) {
        Some(v) => extract_function_ref_from_value(v),
        None => None,
    }?;
    let line = match row.get(1) {
        Some(v) => match v.as_i64() {
            Some(n) => n,
            None => 0,
        },
        None => 0,
    };
    let caller = FunctionRef::new(caller_ref.0, caller_ref.1, caller_ref.2);
    let callee = FunctionRef::new(callee_ref.0, callee_ref.1, callee_ref.2);
    Some(Call { caller, callee, line, call_type: None, depth: None })
}

/// The calls the rows describe, in row order.
pub open spec fn dependency_calls(rows: Seq<Row>) -> Seq<CallView> {
    rows.filter_map(|r: Row| dependency_row_call(r.values@))
}

pub fn decode_dependency_calls(rows: &Vec<Row>) -> (r: Vec<Call>)
    ensures
        views(r@) == dependency_calls(rows@),
{
    let mut out: Vec<Call> = Vec::new();
    let mut i: usize = 0;
    while i < rows.len()
        invariant
            i <= rows@.len(),
            views(out@) == dependency_calls(rows@.take(i as int)),
        decreases rows@.len() - i,
    {
        let ghost before = out@;
        let ghost t = rows@.take(i + 1);
        assert(t.drop_last() =~= rows@.take(i as int));
        assert(t.last() == rows@[i as int]);
        match call_from_dependency_row(&rows[i]) {
            Some(c) => {
                out.push(c);
                assert(views(out@) =~= views(before) + seq![c@]);
            },
            None => {},
        }
        i = i + 1;
    }
    assert(rows@.take(rows@.len() as int) =~= rows@);
    out
}


/// Find module dependencies in the specified direction: the calls between
/// functions of different modules whose caller (`Outgoing`) or callee
/// (`Incoming`) module matches the pattern, at most `limit` of them.
pub fn find_dependencies<D: Database + ?Sized>(db: &D, direction: DependencyDirection, module_pattern: &str, _project: &str, use_regex: bool, limit: u32) -> (r: Result<Vec<Call>, DependencyError>)
    ensures
        match r {
            Err(DependencyError::InvalidRegex { pattern: bad }) => first_invalid_pattern(use_regex, seq![Some(module_pattern@)]) == Some(bad@),
            Err(DependencyError::QueryFailed { message }) => first_invalid_pattern(use_regex, seq![Some(module_pattern@)]) is None
                && exists|p: QueryParams, e: DbError| p.binds_exactly(dependencies_params(module_pattern@, limit))
                    && #[trigger] db.answers(dependencies_query_text(direction, use_regex), p, Err(e)) && message@ == e.message(),
            Ok(v) => first_invalid_pattern(use_regex, seq![Some(module_pattern@)]) is None
                && exists|p: QueryParams, res: QueryResult| p.binds_exactly(dependencies_params(module_pattern@, limit))
                    && #[trigger] db.answers(dependencies_query_text(direction, use_regex), p, Ok(res))
                    && ({ let d = dependency_calls(res.rows@); views(v@) == d }),
        },
{
    let pats: [Option<&str>; 1] = [Some(module_pattern)];
    assert(pattern_views(pats@) =~= seq![Some(module_pattern@)]);
    match validate_regex_patterns(use_regex, &pats) {
        Err(p) => {
            return Err(DependencyError::InvalidRegex { pattern: p });
        },
        Ok(()) => {},
    }
    let (query, params) = dependencies_query(direction, module_pattern, use_regex, limit);
    let ghost gp = params;
    match db.execute_query(query.as_str(), params) {
        Ok(res) => {
            let v = decode_dependency_calls(&res.rows);
            let out = v;
            assert(db.answers(query@, gp, Ok(res)));
            Ok(out)
        },
        Err(e) => {
            let ghost ge = e;
            let message = e.to_string();
            assert(db.answers(query@, gp, Err(ge)));
            Err(DependencyError::QueryFailed { message })
        },
    }
}


/// The parameters of the CozoDB script.
pub open spec fn dependencies_cozo_params(module_pattern: Seq<char>, project: Seq<char>) -> Map<Seq<char>, ParamView> {
    Map::<Seq<char>, ParamView>::empty().insert("module_pattern"@, ParamView::Str(module_pattern)).insert("project"@, ParamView::Str(project))
}

/// The column a direction filters on.
pub open spec fn filter_field_of(direction: DependencyDirection) -> Seq<char> {
    match direction {
        DependencyDirection::Outgoing => "caller_module"@,
        DependencyDirection::Incoming => "callee_module"@,
    }
}

/// The order of a direction's results.
pub open spec fn order_clause_of(direction: DependencyDirection) -> Seq<char> {
    match direction {
        DependencyDirection::Outgoing => "callee_module, callee_function, callee_arity, caller_module, caller_name, caller_arity, call_line"@,
        DependencyDirection::Incoming => "caller_module, caller_name, caller_arity, callee_function, callee_arity, call_line"@,
    }
}

/// The CozoDB script for the direction.
pub open spec fn dependencies_cozo_text(direction: DependencyDirection, use_regex: bool, limit: u32) -> Seq<char> {
    r#"
        ?[caller_module, caller_name, caller_arity, caller_kind, caller_start_line, caller_end_line, callee_module, callee_function, callee_arity, file, call_line] :=
            *calls{project, caller_module, caller_function, callee_module, callee_function, callee_arity, file, line: call_line},
            *function_locations{project, module: caller_module, name: caller_name, arity: caller_arity, kind: caller_kind, start_line: caller_start_line, end_line: caller_end_line},
            starts_with(caller_function, caller_name),
            call_line >= caller_start_line,
            call_line <= caller_end_line,
            callee_function != '%',
            "#@
        + (cozo_match(filter_field_of(direction), "module_pattern"@, use_regex))
        + r#",
            caller_module != callee_module,
            project == $project
        :order "#@
        + (order_clause_of(direction))
        + r#"
        :limit "#@
        + (decimal_int(limit as int))
        + r#"
        "#@
}

/// Builds the CozoDB script and its parameters.
pub fn dependencies_cozo_script(direction: DependencyDirection, module_pattern: &str, project: &str, use_regex: bool, limit: u32) -> (r: (String, QueryParams))
    ensures
        r.0@ == dependencies_cozo_text(direction, use_regex, limit),
        r.1.binds_exactly(dependencies_cozo_params(module_pattern@, project@)),
{
    let mut query = String::new();
    query.append(r#"
        ?[caller_module, caller_name, caller_arity, caller_kind, caller_start_line, caller_end_line, callee_module, callee_function, callee_arity, file, call_line] :=
            *calls{project, caller_module, caller_function, callee_module, callee_function, callee_arity, file, line: call_line},
            *function_locations{project, module: caller_module, name: caller_name, arity: caller_arity, kind: caller_kind, start_line: caller_start_line, end_line: caller_end_line},
            starts_with(caller_function, caller_name),
            call_line >= caller_start_line,
            call_line <= caller_end_line,
            callee_function != '%',
            "#);
    push_cozo_match(&mut query, direction.filter_field(), "module_pattern", use_regex);
    query.append(r#",
            caller_module != callee_module,
            project == $project
        :order "#);
    query.append(direction.order_clause());
    query.append(r#"
        :limit "#);
    push_decimal(&mut query, limit as i64);
    query.append(r#"
        "#);
    let mut params = QueryParams::new();
    params = params.with_str("module_pattern", module_pattern);
    params = params.with_str("project", project);
    assert(query@ =~= dependencies_cozo_text(direction, use_regex, limit));
    (query, params)
}

/// The calls CozoDB's rows describe under a column layout, in row order.
pub open spec fn calls_of_cozo_rows(rows: Seq<Row>, l: CallRowLayout) -> Seq<CallView> {
    rows.filter_map(|r: Row| call_from_row(r.values@, l))
}

/// What the CozoDB dependencies query can give back, whatever CozoDB
/// answered the script with its parameters: CozoDB's error; a column it
/// lacks; or the calls its rows describe.
pub open spec fn cozo_dependencies_outcome<D: Database + ?Sized>(
    db: &D,
    direction: DependencyDirection,
    module_pattern: Seq<char>,
    project: Seq<char>,
    use_regex: bool,
    limit: u32,
    r: Result<Vec<Call>, DbError>,
) -> bool {
    match r {
        Err(e) => (exists|p: QueryParams| p.binds_exactly(dependencies_cozo_params(module_pattern, project))
            && #[trigger] db.answers(dependencies_cozo_text(direction, use_regex, limit), p, Err(e)))
            || (e matches DbError::MissingColumn { name } && exists|p: QueryParams, res: QueryResult|
            p.binds_exactly(dependencies_cozo_params(module_pattern, project))
            && #[trigger] db.answers(dependencies_cozo_text(direction, use_regex, limit), p, Ok(res))
            && layout_from_headers(header_names(res.headers@)) == Err::<CallRowLayout, Seq<char>>(name@)),
        Ok(v) => exists|p: QueryParams, res: QueryResult|
            p.binds_exactly(dependencies_cozo_params(module_pattern, project))
            && #[trigger] db.answers(dependencies_cozo_text(direction, use_regex, limit), p, Ok(res))
            && layout_from_headers(header_names(res.headers@)) is Ok
            && views(v@) == calls_of_cozo_rows(res.rows@, layout_from_headers(header_names(res.headers@))->Ok_0),
    }
}

/// Find module dependencies in the given direction on CozoDB: the calls of
/// the project between different modules whose filter module (the caller's
/// for outgoing, the callee's for incoming) matches the pattern, with the
/// caller's definition, in the direction's order, at most `limit` of them;
/// the columns are found by name.
pub fn find_dependencies_cozo<D: Database + ?Sized>(db: &D, direction: DependencyDirection, module_pattern: &str, project: &str, use_regex: bool, limit: u32) -> (r: Result<Vec<Call>, DbError>)
    ensures
        cozo_dependencies_outcome(db, direction, module_pattern@, project@, use_regex, limit, r),
{
    let (query, params) = dependencies_cozo_script(direction, module_pattern, project, use_regex, limit);
    let ghost gp = params;
    let result = match db.execute_query(query.as_str(), params) {
        Ok(res) => res,
        Err(e) => {
            assert(db.answers(query@, gp, Err(e)));
            return Err(e);
        },
    };
    assert(db.answers(query@, gp, Ok(result)));
    let layout = match CallRowLayout::from_headers(result.headers.as_slice()) {
        Ok(l) => l,
        Err(e) => {
            return Err(e);
        },
    };
    let rows = &result.rows;
    let mut calls: Vec<Call> = Vec::new();
    let mut i: usize = 0;
    while i < rows.len()
        invariant
            i <= rows@.len(),
            rows@ == result.rows@,
            views(calls@) == calls_of_cozo_rows(rows@.take(i as int), layout),
        decreases rows@.len() - i,
    {
        let ghost before = views(calls@);
        let ghost t = rows@.take(i + 1);
        assert(t.drop_last() =~= rows@.take(i as int));
        assert(t.last() == rows@[i as int]);
        match extract_call_from_row_trait(&rows[i], &layout) {
            Some(c) => {
                calls.push(c);
                assert(views(calls@) =~= before + seq![c@]);
            },
            None => {},
        }
        i = i + 1;
    }
    assert(rows@.take(rows@.len() as int) =~= rows@);
    Ok(calls)
}

/// The query binds each of its parameters to the input of that name, and binds an optional one exactly when it is given.
pub proof fn lemma_dependencies_params_bind_inputs(module_pattern: Seq<char>, limit: u32)
    ensures
        ({
            let m = dependencies_params(module_pattern, limit);
            &&& m.dom().contains("module_pattern"@) && m["module_pattern"@] == ParamView::Str(module_pattern)
            &&& m.dom().contains("limit"@) && m["limit"@] == ParamView::Int(limit as i64)
        }),
{
    reveal_strlit("module_pattern");
    reveal_strlit("limit");
    assert("module_pattern"@.len() != "limit"@.len());
}

/// The query binds each of its parameters to the input of that name, and binds an optional one exactly when it is given.
pub proof fn lemma_dependencies_cozo_params_bind_inputs(module_pattern: Seq<char>, project: Seq<char>)
    ensures
        ({
            let m = dependencies_cozo_params(module_pattern, project);
            &&& m.dom().contains("module_pattern"@) && m["module_pattern"@] == ParamView::Str(module_pattern)
            &&& m.dom().contains("project"@) && m["project"@] == ParamView::Str(project)
        }),
{
    reveal_strlit("module_pattern");
    reveal_strlit("project");
    assert("module_pattern"@.len() != "project"@.len());
}

/// Outgoing dependencies are filtered on the calling module (`in`),
/// incoming ones on the called module (`out`), with or without a regex.
pub proof fn lemma_dependency_condition_endpoint()
    ensures
        contains_seq(dependency_condition(DependencyDirection::Outgoing, false), "in.module_name"@),
        contains_seq(dependency_condition(DependencyDirection::Outgoing, true), "in.module_name"@),
        contains_seq(dependency_condition(DependencyDirection::Incoming, false), "out.module_name"@),
        contains_seq(dependency_condition(DependencyDirection::Incoming, true), "out.module_name"@),
{
    reveal_strlit("in.module_name = $module_pattern");
    reveal_strlit("in.module_name");
    assert("in.module_name = $module_pattern"@.subrange(0, 14) =~= "in.module_name"@);
    assert(dependency_condition(DependencyDirection::Outgoing, false) =~= Seq::<char>::empty() + "in.module_name = $module_pattern"@ + Seq::<char>::empty());
    lemma_contains_piece(Seq::<char>::empty(), "in.module_name = $module_pattern"@, Seq::<char>::empty(), 0, "in.module_name"@);
    reveal_strlit("string::matches(in.module_name, $module_pattern)");
    reveal_strlit("in.module_name");
    assert("string::matches(in.module_name, $module_pattern)"@.subrange(16, 30) =~= "in.module_name"@);
    assert(dependency_condition(DependencyDirection::Outgoing, true) =~= Seq::<char>::empty() + "string::matches(in.module_name, $module_pattern)"@ + Seq::<char>::empty());
    lemma_contains_piece(Seq::<char>::empty(), "string::matches(in.module_name, $module_pattern)"@, Seq::<char>::empty(), 16, "in.module_name"@);
    reveal_strlit("out.module_name = $module_pattern");
    reveal_strlit("out.module_name");
    assert("out.module_name = $module_pattern"@.subrange(0, 15) =~= "out.module_name"@);
    assert(dependency_condition(DependencyDirection::Incoming, false) =~= Seq::<char>::empty() + "out.module_name = $module_pattern"@ + Seq::<char>::empty());
    lemma_contains_piece(Seq::<char>::empty(), "out.module_name = $module_pattern"@, Seq::<char>::empty(), 0, "out.module_name"@);
    reveal_strlit("string::matches(out.module_name, $module_pattern)");
    reveal_strlit("out.module_name");
    assert("string::matches(out.module_name, $module_pattern)"@.subrange(16, 31) =~= "out.module_name"@);
    assert(dependency_condition(DependencyDirection::Incoming, true) =~= Seq::<char>::empty() + "string::matches(out.module_name, $module_pattern)"@ + Seq::<char>::empty());
    lemma_contains_piece(Seq::<char>::empty(), "string::matches(out.module_name, $module_pattern)"@, Seq::<char>::empty(), 16, "out.module_name"@);
}

/// The columns of the query's answer, as SurrealDB gives them: the names
/// the query selects, in alphabetical order.
pub open spec fn dependency_columns() -> Seq<Seq<char>> {
    seq!["in"@, "line"@, "out"@]
}

proof fn lemma_dependency_columns_distinct()
    ensures
        distinct_names(dependency_columns()),
{
    let c = dependency_columns();
    reveal_strlit("in");
    reveal_strlit("line");
    reveal_strlit("out");
    assert(c[0] == "in"@);
    assert(c[1] == "line"@);
    assert(c[2] == "out"@);
    assert(c[0].len() != c[1].len());
    assert(c[0] != c[1]);
    assert(c[0].len() != c[2].len());
    assert(c[0] != c[2]);
    assert(c[1].len() != c[2].len());
    assert(c[1] != c[2]);
    assert forall|i: int, j: int| 0 <= i < c.len() && 0 <= j < c.len() && i != j implies #[trigger] c[i] != #[trigger] c[j] by {
        assert(i == 0 || i == 1 || i == 2);
        assert(j == 0 || j == 1 || j == 2);
    }
}

/// A function record's id is `[module, name, arity]`: a reference to it
/// reads as that module, name and arity.
pub proof fn lemma_function_ref_of_id(parts: Vec<Value>, m: String, n: String, a: i64)
    requires
        parts@.len() >= 3,
        parts@[0] == Value::Str(m),
        parts@[1] == Value::Str(n),
        parts@[2] == Value::Int(a),
    ensures
        function_ref_of(Value::Thing(Box::new(Value::Array(parts)))) == Some((m@, n@, a)),
{
}

/// A dependency read from a row of the answer is the call from the function
/// the `in` column refers to, to the function the `out` column refers to, at
/// the line in the `line` column.
pub proof fn lemma_dependency_row_named_columns(row: Seq<Value>)
    ensures
        dependency_row_call(row) matches Some(c) ==> {
            &&& forall|i: int| 0 <= i < dependency_columns().len() && #[trigger] dependency_columns()[i] == "in"@
                ==> i < row.len() && function_ref_of(row[i]) == Some((c.caller.module, c.caller.name, c.caller.arity))
            &&& forall|i: int| 0 <= i < dependency_columns().len() && #[trigger] dependency_columns()[i] == "out"@
                ==> i < row.len() && function_ref_of(row[i]) == Some((c.callee.module, c.callee.name, c.callee.arity))
            &&& int_in_column(dependency_columns(), row, "line"@, c.line, 0)
        },
{
    lemma_dependency_columns_distinct();
    let c = dependency_columns();
    assert(c[0] == "in"@);
    assert(c[1] == "line"@);
    assert(c[2] == "out"@);
    lemma_named_cell(c, row, 1);
    assert(c[0] != c[1] && c[0] != c[2] && c[1] != c[2]);
}

/// The columns are in ascending order of their names, as SurrealDB gives them.
pub proof fn lemma_dependency_columns_ascending()
    ensures
        names_ascending(dependency_columns()),
{
    let c = dependency_columns();
    reveal_strlit("in");
    reveal_strlit("line");
    reveal_strlit("out");
    assert(c[0] == "in"@ && c[1] == "line"@);
    assert((c[0][0] as int) < (c[1][0] as int));
    lemma_lex_less(c[0], c[1], 0);
    assert(c[1] == "line"@ && c[2] == "out"@);
    assert((c[1][0] as int) < (c[2][0] as int));
    lemma_lex_less(c[1], c[2], 0);
    assert forall|k: int| 0 <= k < c.len() - 1 implies lex_order(#[trigger] c[k], c[k + 1]) < 0 by {
        assert(k == 0 || k == 1);
    }
    lemma_names_ascending_from_adjacent(c);
}

} // verus!
