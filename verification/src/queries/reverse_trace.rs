//! Reverse call traces: the chains of callers that lead to a function.
//!
//! A traversal of the call graph towards the callers gives calls with their
//! depth; each becomes a step of the reverse trace.

use vstd::prelude::*;
use crate::backend::{Database, ParamView, QueryParams, QueryResult, Row, Value};
use crate::db::{DbError, cell_text, cell_text_or, cell_int_or, get_string, get_string_or, get_i64_or};
use crate::query_builders::{cozo_match, push_cozo_match};
use crate::queries::rows::{views, CozoRecord, read_cozo_rows, decode_cozo_rows, distinct_names, int_in_column, text_in_column, text_at_column, lemma_named_cell};
use crate::text::{decimal_int, push_decimal};
use crate::types::{Call, CallView};

verus! {

/// Errors of the query.
#[derive(Debug)]
pub enum ReverseTraceError {
    QueryFailed { message: String },
    InvalidRegex { pattern: String },
}

impl ReverseTraceError {
    /// The error's text.
    pub open spec fn message(&self) -> Seq<char> {
        match self {
            ReverseTraceError::QueryFailed { message } => "Reverse trace query failed: "@ + message@,
            ReverseTraceError::InvalidRegex { pattern } => "Invalid regex pattern: "@ + pattern@,
        }
    }

    /// The error's text (what `Display` writes).
    pub fn to_string(&self) -> (r: String)
        ensures
            r@ == self.message(),
    {
        let mut r = String::new();
        match self {
            ReverseTraceError::QueryFailed { message } => {
                r.append("Reverse trace query failed: ");
                r.append(message.as_str());
            },
            ReverseTraceError::InvalidRegex { pattern } => {
                r.append("Invalid regex pattern: ");
                r.append(pattern.as_str());
            },
        }
        r
    }
}

/// A single step in the reverse call chain
#[derive(Debug, Clone)]
pub struct ReverseTraceStep {
    pub depth: i64,
    pub caller_module: String,
    pub caller_function: String,
    pub caller_arity: i64,
    pub caller_kind: String,
    pub caller_start_line: i64,
    pub caller_end_line: i64,
    pub callee_module: String,
    pub callee_function: String,
    pub callee_arity: i64,
    pub file: String,
    pub line: i64,
}

/// What a `ReverseTraceStep` holds, as plain values.
pub struct ReverseTraceStepView {
    pub depth: i64,
    pub caller_module: Seq<char>,
    pub caller_function: Seq<char>,
    pub caller_arity: i64,
    pub caller_kind: Seq<char>,
    pub caller_start_line: i64,
    pub caller_end_line: i64,
    pub callee_module: Seq<char>,
    pub callee_function: Seq<char>,
    pub callee_arity: i64,
    pub file: Seq<char>,
    pub line: i64,
}

impl View for ReverseTraceStep {
    type V = ReverseTraceStepView;

    open spec fn view(&self) -> ReverseTraceStepView {
        ReverseTraceStepView {
            depth: self.depth,
            caller_module: self.caller_module@,
            caller_function: self.caller_function@,
            caller_arity: self.caller_arity,
            caller_kind: self.caller_kind@,
            caller_start_line: self.caller_start_line,
            caller_end_line: self.caller_end_line,
            callee_module: self.callee_module@,
            callee_function: self.callee_function@,
            callee_arity: self.callee_arity,
            file: self.file@,
            line: self.line,
        }
    }
}

/// The step a call of a reverse traversal gives: its depth (0 when none),
/// the caller with its kind and lines (empty and 0 when unknown), the callee,
/// and the call's line; the file is not known from the traversal.
pub open spec fn step_of_call(c: CallView) -> ReverseTraceStepView {
    ReverseTraceStepView {
        depth: match c.depth { Some(d) => d, None => 0 },
        caller_module: c.caller.module,
        caller_function: c.caller.name,
        caller_arity: c.caller.arity,
        caller_kind: match c.caller.kind { Some(k) => k, None => Seq::empty() },
        caller_start_line: match c.caller.start_line { Some(l) => l, None => 0 },
        caller_end_line: match c.caller.end_line { Some(l) => l, None => 0 },
        callee_module: c.callee.module,
        callee_function: c.callee.name,
        callee_arity: c.callee.arity,
        file: Seq::empty(),
        line: c.line,
    }
}

/// Turns a call of a reverse traversal into a step of the trace.
pub fn step_from_call(call: Call) -> (r: ReverseTraceStep)
    ensures
        r@ == step_of_call(call@),
{
    let caller_kind = match call.caller.kind {
        Some(k) => k,
        None => String::new(),
    };
    ReverseTraceStep {
        depth: match call.depth {
            Some(d) => d,
            None => 0,
        },
        caller_module: call.caller.module,
        caller_function: call.caller.name,
        caller_arity: call.caller.arity,
        caller_kind,
        caller_start_line: match call.caller.start_line {
            Some(l) => l,
            None => 0,
        },
        caller_end_line: match call.caller.end_line {
            Some(l) => l,
            None => 0,
        },
        callee_module: call.callee.module,
        callee_function: call.callee.name,
        callee_arity: call.callee.arity,
        file: String::new(),
        line: call.line,
    }
}

/// Turns the calls of a reverse traversal into the steps of the trace, in
/// the same order.
pub fn steps_from_calls(calls: Vec<Call>) -> (r: Vec<ReverseTraceStep>)
    ensures
        views(r@) == views(calls@).map_values(|c: CallView| step_of_call(c)),
{
    let ghost all = views(calls@);
    let mut rest = calls;
    let mut out: Vec<ReverseTraceStep> = Vec::new();
    let ghost mut k: int = 0;
    assert(all.skip(0) =~= all);
    while rest.len() > 0
        invariant
            0 <= k <= all.len(),
            views(rest@) == all.skip(k),
            views(out@) == all.take(k).map_values(|c: CallView| step_of_call(c)),
        decreases rest@.len(),
    {
        let ghost old_rest = rest@;
        let call = rest.remove(0);
        proof {
            assert(rest@ =~= old_rest.drop_first());
            assert(views(old_rest).len() == old_rest.len());
            assert(k < all.len());
            assert(call == old_rest[0]);
            assert(views(old_rest)[0] == call@);
            assert(all.skip(k)[0] == all[k]);
            assert(call@ == all[k]);
            assert(views(rest@) =~= views(old_rest).drop_first());
            assert(views(rest@) =~= all.skip(k + 1));
        }
        let ghost before = views(out@);
        let s = step_from_call(call);
        out.push(s);
        proof {
            assert(views(out@) =~= before.push(step_of_call(all[k])));
            assert(all.take(k + 1).map_values(|c: CallView| step_of_call(c)) =~= all.take(k).map_values(|c: CallView| step_of_call(c)).push(step_of_call(all[k])));
            k = k + 1;
        }
    }
    assert(all.take(k) =~= all);
    out
}


/// The parameters of the CozoDB script.
pub open spec fn reverse_trace_cozo_params(module_pattern: Seq<char>, function_pattern: Seq<char>, project: Seq<char>, arity: Option<i64>) -> Map<Seq<char>, ParamView> {
    let m = Map::<Seq<char>, ParamView>::empty();
    let m = m.insert("module_pattern"@, ParamView::Str(module_pattern));
    let m = m.insert("function_pattern"@, ParamView::Str(function_pattern));
    let m = m.insert("project"@, ParamView::Str(project));
    match arity { Some(a) => m.insert("arity"@, ParamView::Int(a)), None => m }
}

/// The CozoDB script tracing calls back from the target, at most `max_depth` calls deep.
pub open spec fn reverse_trace_cozo_text(arity: Option<i64>, use_regex: bool, max_depth: u32, limit: u32) -> Seq<char> {
    r#"
        # Base case: calls to the target function, joined with function_locations
        trace[depth, caller_module, caller_name, caller_arity, caller_kind, caller_start_line, caller_end_line, callee_module, callee_function, callee_arity, file, call_line] :=
            *calls{project, caller_module, caller_function, callee_module, callee_function, callee_arity, file, line: call_line},
            *function_locations{project, module: caller_module, name: caller_name, arity: caller_arity, kind: caller_kind, start_line: caller_start_line, end_line: caller_end_line},
            starts_with(caller_function, caller_name),
            call_line >= caller_start_line,
            call_line <= caller_end_line,
            "#@
        + (cozo_match("callee_module"@, "module_pattern"@, use_regex))
        + r#",
            "#@
        + (cozo_match("callee_function"@, "function_pattern"@, use_regex))
        + r#",
            project == $project,
            "#@
        + (if arity is Some { "callee_arity == $arity"@ } else { "true"@ })
        + r#",
            depth = 1

        # Recursive case: calls to the callers we've found
        # Note: prev_caller_function has arity suffix (e.g., "foo/2") but callee_function doesn't (e.g., "foo")
        # So we use starts_with to match prev_caller_function starting with callee_function
        trace[depth, caller_module, caller_name, caller_arity, caller_kind, caller_start_line, caller_end_line, callee_module, callee_function, callee_arity, file, call_line] :=
            trace[prev_depth, prev_caller_module, prev_caller_name, prev_caller_arity, _, _, _, _, _, _, _, _],
            *calls{project, caller_module, caller_function, callee_module, callee_function, callee_arity, file, line: call_line},
            *function_locations{project, module: caller_module, name: caller_name, arity: caller_arity, kind: caller_kind, start_line: caller_start_line, end_line: caller_end_line},
            callee_module == prev_caller_module,
            callee_function == prev_caller_name,
            callee_arity == prev_caller_arity,
            starts_with(caller_function, caller_name),
            call_line >= caller_start_line,
            call_line <= caller_end_line,
            prev_depth < "#@
        + (decimal_int(max_depth as int))
        + r#",
            depth = prev_depth + 1,
            project == $project

        ?[depth, caller_module, caller_name, caller_arity, caller_kind, caller_start_line, caller_end_line, callee_module, callee_function, callee_arity, file, call_line] :=
            trace[depth, caller_module, caller_name, caller_arity, caller_kind, caller_start_line, caller_end_line, callee_module, callee_function, callee_arity, file, call_line]

        :order depth, caller_module, caller_name, caller_arity, call_line, callee_module, callee_function, callee_arity
        :limit "#@
        + (decimal_int(limit as int))
        + r#"
        "#@
}

/// Builds the CozoDB script and its parameters.
pub fn reverse_trace_cozo_script(module_pattern: &str, function_pattern: &str, arity: Option<i64>, project: &str, use_regex: bool, max_depth: u32, limit: u32) -> (r: (String, QueryParams))
    ensures
        r.0@ == reverse_trace_cozo_text(arity, use_regex, max_depth, limit),
        r.1.binds_exactly(reverse_trace_cozo_params(module_pattern@, function_pattern@, project@, arity)),
{
    let mut query = String::new();
    query.append(r#"
        # Base case: calls to the target function, joined with function_locations
        trace[depth, caller_module, caller_name, caller_arity, caller_kind, caller_start_line, caller_end_line, callee_module, callee_function, callee_arity, file, call_line] :=
            *calls{project, caller_module, caller_function, callee_module, callee_function, callee_arity, file, line: call_line},
            *function_locations{project, module: caller_module, name: caller_name, arity: caller_arity, kind: caller_kind, start_line: caller_start_line, end_line: caller_end_line},
            starts_with(caller_function, caller_name),
            call_line >= caller_start_line,
            call_line <= caller_end_line,
            "#);
    push_cozo_match(&mut query, "callee_module", "module_pattern", use_regex);
    query.append(r#",
            "#);
    push_cozo_match(&mut query, "callee_function", "function_pattern", use_regex);
    query.append(r#",
            project == $project,
            "#);
    query.append(if arity.is_some() { "callee_arity == $arity" } else { "true" });
    query.append(r#",
            depth = 1

        # Recursive case: calls to the callers we've found
        # Note: prev_caller_function has arity suffix (e.g., "foo/2") but callee_function doesn't (e.g., "foo")
        # So we use starts_with to match prev_caller_function starting with callee_function
        trace[depth, caller_module, caller_name, caller_arity, caller_kind, caller_start_line, caller_end_line, callee_module, callee_function, callee_arity, file, call_line] :=
            trace[prev_depth, prev_caller_module, prev_caller_name, prev_caller_arity, _, _, _, _, _, _, _, _],
            *calls{project, caller_module, caller_function, callee_module, callee_function, callee_arity, file, line: call_line},
            *function_locations{project, module: caller_module, name: caller_name, arity: caller_arity, kind: caller_kind, start_line: caller_start_line, end_line: caller_end_line},
            callee_module == prev_caller_module,
            callee_function == prev_caller_name,
            callee_arity == prev_caller_arity,
            starts_with(caller_function, caller_name),
            call_line >= caller_start_line,
            call_line <= caller_end_line,
            prev_depth < "#);
    push_decimal(&mut query, max_depth as i64);
    query.append(r#",
            depth = prev_depth + 1,
            project == $project

        ?[depth, caller_module, caller_name, caller_arity, caller_kind, caller_start_line, caller_end_line, callee_module, callee_function, callee_arity, file, call_line] :=
            trace[depth, caller_module, caller_name, caller_arity, caller_kind, caller_start_line, caller_end_line, callee_module, callee_function, callee_arity, file, call_line]

        :order depth, caller_module, caller_name, caller_arity, call_line, callee_module, callee_function, callee_arity
        :limit "#);
    push_decimal(&mut query, limit as i64);
    query.append(r#"
        "#);
    let mut params = QueryParams::new();
    params = params.with_str("module_pattern", module_pattern);
    params = params.with_str("function_pattern", function_pattern);
    params = params.with_str("project", project);
    match arity {
        Some(a) => {
            params = params.with_int("arity", a);
        },
        None => {},
    }
    assert(query@ =~= reverse_trace_cozo_text(arity, use_regex, max_depth, limit));
    (query, params)
}

impl CozoRecord for ReverseTraceStep {
    open spec fn read_cozo(row: Seq<Value>) -> Option<ReverseTraceStepView> {
        if row.len() >= 12 {
            match (cell_text(row, 1), cell_text(row, 2), cell_text(row, 7), cell_text(row, 8), cell_text(row, 10)) {
                (Some(v_caller_module), Some(v_caller_function), Some(v_callee_module), Some(v_callee_function), Some(v_file)) => Some(ReverseTraceStepView { depth: cell_int_or(row, 0, 0), caller_module: v_caller_module, caller_function: v_caller_function, caller_arity: cell_int_or(row, 3, 0), caller_kind: cell_text_or(row, 4, ""@), caller_start_line: cell_int_or(row, 5, 0), caller_end_line: cell_int_or(row, 6, 0), callee_module: v_callee_module, callee_function: v_callee_function, callee_arity: cell_int_or(row, 9, 0), file: v_file, line: cell_int_or(row, 11, 0) }),
                _ => None,
            }
        } else {
            None
        }
    }

    fn from_cozo_row(row: &Row) -> (r: Option<ReverseTraceStep>) {
        if row.len() < 12 {
            return None;
        }
        let depth = get_i64_or(row, 0, 0);
        let caller_module = get_string(row, 1)?;
        let caller_function = get_string(row, 2)?;
        let caller_arity = get_i64_or(row, 3, 0);
        let caller_kind = get_string_or(row, 4, "");
        let caller_start_line = get_i64_or(row, 5, 0);
        let caller_end_line = get_i64_or(row, 6, 0);
        let callee_module = get_string(row, 7)?;
        let callee_function = get_string(row, 8)?;
        let callee_arity = get_i64_or(row, 9, 0);
        let file = get_string(row, 10)?;
        let line = get_i64_or(row, 11, 0);
        Some(ReverseTraceStep { depth, caller_module, caller_function, caller_arity, caller_kind, caller_start_line, caller_end_line, callee_module, callee_function, callee_arity, file, line })
    }
}

/// Trace the calls back from a target function on CozoDB: the calls to the
/// target (module and function matching the patterns, the arity when given),
/// then the calls to their callers, and so on up to `max_depth` calls deep,
/// each with its depth and the caller's definition, ordered by depth, caller
/// and line, at most `limit` of them, as the script gives them.
pub fn reverse_trace_calls<D: Database + ?Sized>(
    db: &D,
    module_pattern: &str,
    function_pattern: &str,
    arity: Option<i64>,
    project: &str,
    use_regex: bool,
    max_depth: u32,
    limit: u32,
) -> (r: Result<Vec<ReverseTraceStep>, ReverseTraceError>)
    ensures
        match r {
            Err(ReverseTraceError::QueryFailed { message }) => exists|p: QueryParams, e: DbError|
                p.binds_exactly(reverse_trace_cozo_params(module_pattern@, function_pattern@, project@, arity))
                && #[trigger] db.answers(reverse_trace_cozo_text(arity, use_regex, max_depth, limit), p, Err(e))
                && message@ == e.message(),
            Err(ReverseTraceError::InvalidRegex { .. }) => false,
            Ok(v) => exists|p: QueryParams, res: QueryResult|
                p.binds_exactly(reverse_trace_cozo_params(module_pattern@, function_pattern@, project@, arity))
                && #[trigger] db.answers(reverse_trace_cozo_text(arity, use_regex, max_depth, limit), p, Ok(res))
                && views(v@) == read_cozo_rows::<ReverseTraceStep>(res.rows@),
        },
{
    let (query, params) = reverse_trace_cozo_script(module_pattern, function_pattern, arity, project, use_regex, max_depth, limit);
    let ghost gp = params;
    match db.execute_query(query.as_str(), params) {
        Ok(res) => {
            let v = decode_cozo_rows::<ReverseTraceStep>(&res.rows);
            assert(db.answers(query@, gp, Ok(res)));
            Ok(v)
        },
        Err(e) => {
            let ghost ge = e;
            let message = e.to_string();
            assert(db.answers(query@, gp, Err(ge)));
            Err(ReverseTraceError::QueryFailed { message })
        },
    }
}

/// The columns of the script's answer: the head of its query rule, in order.
pub open spec fn reverse_trace_cozo_columns() -> Seq<Seq<char>> {
    seq!["depth"@, "caller_module"@, "caller_name"@, "caller_arity"@, "caller_kind"@, "caller_start_line"@, "caller_end_line"@, "callee_module"@, "callee_function"@, "callee_arity"@, "file"@, "call_line"@]
}

proof fn lemma_reverse_trace_cozo_columns_distinct()
    ensures
        distinct_names(reverse_trace_cozo_columns()),
{
    let c = reverse_trace_cozo_columns();
    reveal_strlit("depth");
    reveal_strlit("caller_module");
    reveal_strlit("caller_name");
    reveal_strlit("caller_arity");
    reveal_strlit("caller_kind");
    reveal_strlit("caller_start_line");
    reveal_strlit("caller_end_line");
    reveal_strlit("callee_module");
    reveal_strlit("callee_function");
    reveal_strlit("callee_arity");
    reveal_strlit("file");
    reveal_strlit("call_line");
    assert(c[0] == "depth"@);
    assert(c[1] == "caller_module"@);
    assert(c[2] == "caller_name"@);
    assert(c[3] == "caller_arity"@);
    assert(c[4] == "caller_kind"@);
    assert(c[5] == "caller_start_line"@);
    assert(c[6] == "caller_end_line"@);
    assert(c[7] == "callee_module"@);
    assert(c[8] == "callee_function"@);
    assert(c[9] == "callee_arity"@);
    assert(c[10] == "file"@);
    assert(c[11] == "call_line"@);
    assert(c[0].len() != c[1].len());
    assert(c[0] != c[1]);
    assert(c[0].len() != c[2].len());
    assert(c[0] != c[2]);
    assert(c[0].len() != c[3].len());
    assert(c[0] != c[3]);
    assert(c[0].len() != c[4].len());
    assert(c[0] != c[4]);
    assert(c[0].len() != c[5].len());
    assert(c[0] != c[5]);
    assert(c[0].len() != c[6].len());
    assert(c[0] != c[6]);
    assert(c[0].len() != c[7].len());
    assert(c[0] != c[7]);
    assert(c[0].len() != c[8].len());
    assert(c[0] != c[8]);
    assert(c[0].len() != c[9].len());
    assert(c[0] != c[9]);
    assert(c[0].len() != c[10].len());
    assert(c[0] != c[10]);
    assert(c[0].len() != c[11].len());
    assert(c[0] != c[11]);
    assert(c[1].len() != c[2].len());
    assert(c[1] != c[2]);
    assert(c[1].len() != c[3].len());
    assert(c[1] != c[3]);
    assert(c[1].len() != c[4].len());
    assert(c[1] != c[4]);
    assert(c[1].len() != c[5].len());
    assert(c[1] != c[5]);
    assert(c[1].len() != c[6].len());
    assert(c[1] != c[6]);
    assert(c[1][5] != c[7][5]);
    assert(c[1] != c[7]);
    assert(c[1].len() != c[8].len());
    assert(c[1] != c[8]);
    assert(c[1].len() != c[9].len());
    assert(c[1] != c[9]);
    assert(c[1].len() != c[10].len());
    assert(c[1] != c[10]);
    assert(c[1].len() != c[11].len());
    assert(c[1] != c[11]);
    assert(c[2].len() != c[3].len());
    assert(c[2] != c[3]);
    assert(c[2][7] != c[4][7]);
    assert(c[2] != c[4]);
    assert(c[2].len() != c[5].len());
    assert(c[2] != c[5]);
    assert(c[2].len() != c[6].len());
    assert(c[2] != c[6]);
    assert(c[2].len() != c[7].len());
    assert(c[2] != c[7]);
    assert(c[2].len() != c[8].len());
    assert(c[2] != c[8]);
    assert(c[2].len() != c[9].len());
    assert(c[2] != c[9]);
    assert(c[2].len() != c[10].len());
    assert(c[2] != c[10]);
    assert(c[2].len() != c[11].len());
    assert(c[2] != c[11]);
    assert(c[3].len() != c[4].len());
    assert(c[3] != c[4]);
    assert(c[3].len() != c[5].len());
    assert(c[3] != c[5]);
    assert(c[3].len() != c[6].len());
    assert(c[3] != c[6]);
    assert(c[3].len() != c[7].len());
    assert(c[3] != c[7]);
    assert(c[3].len() != c[8].len());
    assert(c[3] != c[8]);
    assert(c[3][5] != c[9][5]);
    assert(c[3] != c[9]);
    assert(c[3].len() != c[10].len());
    assert(c[3] != c[10]);
    assert(c[3].len() != c[11].len());
    assert(c[3] != c[11]);
    assert(c[4].len() != c[5].len());
    assert(c[4] != c[5]);
    assert(c[4].len() != c[6].len());
    assert(c[4] != c[6]);
    assert(c[4].len() != c[7].len());
    assert(c[4] != c[7]);
    assert(c[4].len() != c[8].len());
    assert(c[4] != c[8]);
    assert(c[4].len() != c[9].len());
    assert(c[4] != c[9]);
    assert(c[4].len() != c[10].len());
    assert(c[4] != c[10]);
    assert(c[4].len() != c[11].len());
    assert(c[4] != c[11]);
    assert(c[5].len() != c[6].len());
    assert(c[5] != c[6]);
    assert(c[5].len() != c[7].len());
    assert(c[5] != c[7]);
    assert(c[5].len() != c[8].len());
    assert(c[5] != c[8]);
    assert(c[5].len() != c[9].len());
    assert(c[5] != c[9]);
    assert(c[5].len() != c[10].len());
    assert(c[5] != c[10]);
    assert(c[5].len() != c[11].len());
    assert(c[5] != c[11]);
    assert(c[6].len() != c[7].len());
    assert(c[6] != c[7]);
    assert(c[6][5] != c[8][5]);
    assert(c[6] != c[8]);
    assert(c[6].len() != c[9].len());
    assert(c[6] != c[9]);
    assert(c[6].len() != c[10].len());
    assert(c[6] != c[10]);
    assert(c[6].len() != c[11].len());
    assert(c[6] != c[11]);
    assert(c[7].len() != c[8].len());
    assert(c[7] != c[8]);
    assert(c[7].len() != c[9].len());
    assert(c[7] != c[9]);
    assert(c[7].len() != c[10].len());
    assert(c[7] != c[10]);
    assert(c[7].len() != c[11].len());
    assert(c[7] != c[11]);
    assert(c[8].len() != c[9].len());
    assert(c[8] != c[9]);
    assert(c[8].len() != c[10].len());
    assert(c[8] != c[10]);
    assert(c[8].len() != c[11].len());
    assert(c[8] != c[11]);
    assert(c[9].len() != c[10].len());
    assert(c[9] != c[10]);
    assert(c[9].len() != c[11].len());
    assert(c[9] != c[11]);
    assert(c[10].len() != c[11].len());
    assert(c[10] != c[11]);
    assert forall|i: int, j: int| 0 <= i < c.len() && 0 <= j < c.len() && i != j implies #[trigger] c[i] != #[trigger] c[j] by {
        assert(i == 0 || i == 1 || i == 2 || i == 3 || i == 4 || i == 5 || i == 6 || i == 7 || i == 8 || i == 9 || i == 10 || i == 11);
        assert(j == 0 || j == 1 || j == 2 || j == 3 || j == 4 || j == 5 || j == 6 || j == 7 || j == 8 || j == 9 || j == 10 || j == 11);
    }
}

/// Each field of a record read from a row of the answer is the value in the
/// column of that field's name; a row gives a record exactly when it has
/// every column and text in the columns `caller_module`, `caller_name`, `callee_module`, `callee_function`, `file`.
pub proof fn lemma_reverse_trace_step_cozo_named_columns(row: Seq<Value>)
    ensures
        ReverseTraceStep::read_cozo(row) is Some <==> (row.len() >= reverse_trace_cozo_columns().len() && text_at_column(reverse_trace_cozo_columns(), row, "caller_module"@) && text_at_column(reverse_trace_cozo_columns(), row, "caller_name"@) && text_at_column(reverse_trace_cozo_columns(), row, "callee_module"@) && text_at_column(reverse_trace_cozo_columns(), row, "callee_function"@) && text_at_column(reverse_trace_cozo_columns(), row, "file"@)),
        ReverseTraceStep::read_cozo(row) matches Some(m) ==> {
            &&& int_in_column(reverse_trace_cozo_columns(), row, "depth"@, m.depth, 0)
            &&& text_in_column(reverse_trace_cozo_columns(), row, "caller_module"@, m.caller_module, ""@)
            &&& text_in_column(reverse_trace_cozo_columns(), row, "caller_name"@, m.caller_function, ""@)
            &&& int_in_column(reverse_trace_cozo_columns(), row, "caller_arity"@, m.caller_arity, 0)
            &&& text_in_column(reverse_trace_cozo_columns(), row, "caller_kind"@, m.caller_kind, ""@)
            &&& int_in_column(reverse_trace_cozo_columns(), row, "caller_start_line"@, m.caller_start_line, 0)
            &&& int_in_column(reverse_trace_cozo_columns(), row, "caller_end_line"@, m.caller_end_line, 0)
            &&& text_in_column(reverse_trace_cozo_columns(), row, "callee_module"@, m.callee_module, ""@)
            &&& text_in_column(reverse_trace_cozo_columns(), row, "callee_function"@, m.callee_function, ""@)
            &&& int_in_column(reverse_trace_cozo_columns(), row, "callee_arity"@, m.callee_arity, 0)
            &&& text_in_column(reverse_trace_cozo_columns(), row, "file"@, m.file, ""@)
            &&& int_in_column(reverse_trace_cozo_columns(), row, "call_line"@, m.line, 0)
        },
{
    lemma_reverse_trace_cozo_columns_distinct();
    let c = reverse_trace_cozo_columns();
    assert(c[0] == "depth"@);
    lemma_named_cell(c, row, 0);
    assert(c[1] == "caller_module"@);
    lemma_named_cell(c, row, 1);
    assert(c[2] == "caller_name"@);
    lemma_named_cell(c, row, 2);
    assert(c[3] == "caller_arity"@);
    lemma_named_cell(c, row, 3);
    assert(c[4] == "caller_kind"@);
    lemma_named_cell(c, row, 4);
    assert(c[5] == "caller_start_line"@);
    lemma_named_cell(c, row, 5);
    assert(c[6] == "caller_end_line"@);
    lemma_named_cell(c, row, 6);
    assert(c[7] == "callee_module"@);
    lemma_named_cell(c, row, 7);
    assert(c[8] == "callee_function"@);
    lemma_named_cell(c, row, 8);
    assert(c[9] == "callee_arity"@);
    lemma_named_cell(c, row, 9);
    assert(c[10] == "file"@);
    lemma_named_cell(c, row, 10);
    assert(c[11] == "call_line"@);
    lemma_named_cell(c, row, 11);
}

/// The query binds each of its parameters to the input of that name, and binds an optional one exactly when it is given.
pub proof fn lemma_reverse_trace_cozo_params_bind_inputs(module_pattern: Seq<char>, function_pattern: Seq<char>, project: Seq<char>, arity: Option<i64>)
    ensures
        ({
            let m = reverse_trace_cozo_params(module_pattern, function_pattern, project, arity);
            &&& m.dom().contains("module_pattern"@) && m["module_pattern"@] == ParamView::Str(module_pattern)
            &&& m.dom().contains("function_pattern"@) && m["function_pattern"@] == ParamView::Str(function_pattern)
            &&& m.dom().contains("project"@) && m["project"@] == ParamView::Str(project)
            &&& match arity { Some(v) => m.dom().contains("arity"@) && m["arity"@] == ParamView::Int(v), None => !m.dom().contains("arity"@) }
        }),
{
    reveal_strlit("module_pattern");
    reveal_strlit("function_pattern");
    reveal_strlit("project");
    reveal_strlit("arity");
    assert("module_pattern"@.len() != "function_pattern"@.len());
    assert("module_pattern"@.len() != "project"@.len());
    assert("module_pattern"@.len() != "arity"@.len());
    assert("function_pattern"@.len() != "project"@.len());
    assert("function_pattern"@.len() != "arity"@.len());
    assert("project"@.len() != "arity"@.len());
}

/// A step of the trace keeps the call it comes from: the caller's module,
/// name, arity, kind and lines, the callee's module, name and arity, the line
/// of the call and its depth.
pub proof fn lemma_step_keeps_call(c: CallView)
    ensures
        ({
            let s = step_of_call(c);
            &&& s.caller_module == c.caller.module
            &&& s.caller_function == c.caller.name
            &&& s.caller_arity == c.caller.arity
            &&& (c.caller.kind is Some ==> s.caller_kind == c.caller.kind->0)
            &&& (c.caller.start_line is Some ==> s.caller_start_line == c.caller.start_line->0)
            &&& (c.caller.end_line is Some ==> s.caller_end_line == c.caller.end_line->0)
            &&& s.callee_module == c.callee.module
            &&& s.callee_function == c.callee.name
            &&& s.callee_arity == c.callee.arity
            &&& s.line == c.line
            &&& (c.depth is Some ==> s.depth == c.depth->0)
        }),
{
}

} // verus!
