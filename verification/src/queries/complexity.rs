//! Finding complex functions.

use vstd::prelude::*;
use crate::query_builders::{cozo_match, cozo_module_cond, push_cozo_match, push_cozo_module_cond};
use crate::text::{decimal_int, push_decimal};
use crate::text::{string_views, push_text, where_text, where_clause, contains_seq, lemma_contains_piece};
use crate::backend::{Database, QueryParams, QueryResult, Row, Value, ParamView, ValueType};
use crate::db::{DbError, cell_text, cell_text_or, cell_int_or, get_string, get_string_or, get_i64_or};
use crate::query_builders::{validate_regex_patterns, first_invalid_pattern, opt_str_view, pattern_views};
use crate::queries::rows::{CozoRecord, read_cozo_rows, decode_cozo_rows, RowRecord, views, read_rows, decode_rows, distinct_names, int_in_column, text_in_column, text_at_column, lemma_named_cell};


use crate::backend::surreal_rows::{names_ascending, lemma_names_ascending_from_adjacent};
use crate::text::{lex_order, lemma_lex_less, joined};

verus! {

/// Errors of the query.
#[derive(Debug)]
pub enum ComplexityError {
    QueryFailed { message: String },
    InvalidRegex { pattern: String },
}

impl ComplexityError {
    /// The error's text.
    pub open spec fn message(&self) -> Seq<char> {
        match self {
            ComplexityError::QueryFailed { message } => "Complexity query failed: "@ + message@,
            ComplexityError::InvalidRegex { pattern } => "Invalid regex pattern: "@ + pattern@,
        }
    }

    /// The error's text (what `Display` writes).
    pub fn to_string(&self) -> (r: String)
        ensures
            r@ == self.message(),
    {
        let mut r = String::new();
        match self {
            ComplexityError::QueryFailed { message } => {
                r.append("Complexity query failed: ");
                r.append(message.as_str());
            },
            ComplexityError::InvalidRegex { pattern } => {
                r.append("Invalid regex pattern: ");
                r.append(pattern.as_str());
            },
        }
        r
    }
}

/// A function with its complexity figures
#[derive(Debug, Clone)]
pub struct ComplexityMetric {
    pub module: String,
    pub name: String,
    pub arity: i64,
    pub line: i64,
    pub complexity: i64,
    pub max_nesting_depth: i64,
    pub start_line: i64,
    pub end_line: i64,
    pub lines: i64,
    pub generated_by: String,
}

/// What a `ComplexityMetric` holds, as plain values.
pub struct ComplexityMetricView {
    pub module: Seq<char>,
    pub name: Seq<char>,
    pub arity: i64,
    pub line: i64,
    pub complexity: i64,
    pub max_nesting_depth: i64,
    pub start_line: i64,
    pub end_line: i64,
    pub lines: i64,
    pub generated_by: Seq<char>,
}

impl View for ComplexityMetric {
    type V = ComplexityMetricView;

    open spec fn view(&self) -> ComplexityMetricView {
        ComplexityMetricView {
            module: self.module@,
            name: self.name@,
            arity: self.arity,
            line: self.line,
            complexity: self.complexity,
            max_nesting_depth: self.max_nesting_depth,
            start_line: self.start_line,
            end_line: self.end_line,
            lines: self.lines,
            generated_by: self.generated_by@,
        }
    }
}

impl RowRecord for ComplexityMetric {
    open spec fn read(row: Seq<Value>) -> Option<ComplexityMetricView> {
        if row.len() >= 8 {
            match (cell_text(row, 3), cell_text(row, 6)) {
                (Some(v_name), Some(v_module)) => Some(ComplexityMetricView { module: v_module, name: v_name, arity: cell_int_or(row, 0, 0), line: cell_int_or(row, 4, 0), complexity: cell_int_or(row, 1, 0), max_nesting_depth: cell_int_or(row, 5, 0), start_line: cell_int_or(row, 7, 0), end_line: cell_int_or(row, 2, 0), lines: if cell_int_or(row, 2, 0) >= cell_int_or(row, 7, 0) { cell_int_or(row, 2, 0).wrapping_sub(cell_int_or(row, 7, 0)).wrapping_add(1) } else { 0 }, generated_by: Seq::<char>::empty() }),
                _ => None,
            }
        } else {
            None
        }
    }

    fn from_row(row: &Row) -> (r: Option<ComplexityMetric>) {
        if row.len() < 8 {
            return None;
        }
        let module = get_string(row, 6)?;
        let name = get_string(row, 3)?;
        let arity = get_i64_or(row, 0, 0);
        let line = get_i64_or(row, 4, 0);
        let complexity = get_i64_or(row, 1, 0);
        let max_nesting_depth = get_i64_or(row, 5, 0);
        let start_line = get_i64_or(row, 7, 0);
        let end_line = get_i64_or(row, 2, 0);
        let lines = if end_line >= start_line { end_line.wrapping_sub(start_line).wrapping_add(1) } else { 0 };
        let generated_by = String::new();
        Some(ComplexityMetric { module, name, arity, line, complexity, max_nesting_depth, start_line, end_line, lines, generated_by })
    }
}

/// The query text for the given filters.
pub open spec fn complexity_query_text(module_pattern: Option<Seq<char>>, use_regex: bool) -> Seq<char> {
    r#"
        SELECT * FROM (
            SELECT
                module_name,
                function_name,
                arity,
                math::min(line) as line,
                math::sum(complexity) as complexity,
                math::max(max_nesting_depth) as max_nesting_depth,
                math::min(start_line) as start_line,
                math::max(end_line) as end_line
            FROM clauses
            "#@
        + (if module_pattern is Some && use_regex { "WHERE module_name = <regex>$module_pattern"@ } else if module_pattern is Some { "WHERE module_name = $module_pattern"@ } else { ""@ })
        + r#"
            GROUP BY module_name, function_name, arity
        ) WHERE complexity >= $min_complexity AND max_nesting_depth >= $min_depth
        ORDER BY complexity DESC, module_name, function_name, arity
        LIMIT $limit
        "#@
}

/// The parameters of the query.
pub open spec fn complexity_params(min_complexity: i64, min_depth: i64, module_pattern: Option<Seq<char>>, limit: u32) -> Map<Seq<char>, ParamView> {
    let m = Map::<Seq<char>, ParamView>::empty();
    let m = m.insert("min_complexity"@, ParamView::Int(min_complexity));
    let m = m.insert("min_depth"@, ParamView::Int(min_depth));
    let m = m.insert("limit"@, ParamView::Int(limit as i64));
    let m = match module_pattern { Some(mp) => m.insert("module_pattern"@, ParamView::Str(mp)), None => m };
    m
}

/// Builds the query text and parameters.
pub fn complexity_query(min_complexity: i64, min_depth: i64, module_pattern: Option<&str>, use_regex: bool, limit: u32) -> (r: (String, QueryParams))
    ensures
        r.0@ == complexity_query_text(opt_str_view(module_pattern), use_regex),
        r.1.binds_exactly(complexity_params(min_complexity, min_depth, opt_str_view(module_pattern), limit)),
{
    let mut query = String::new();
    query.append(r#"
        SELECT * FROM (
            SELECT
                module_name,
                function_name,
                arity,
                math::min(line) as line,
                math::sum(complexity) as complexity,
                math::max(max_nesting_depth) as max_nesting_depth,
                math::min(start_line) as start_line,
                math::max(end_line) as end_line
            FROM clauses
            "#);
    let part_module_clause: &str = if module_pattern.is_some() && use_regex { "WHERE module_name = <regex>$module_pattern" } else if module_pattern.is_some() { "WHERE module_name = $module_pattern" } else { "" };
    query.append(part_module_clause);
    query.append(r#"
            GROUP BY module_name, function_name, arity
        ) WHERE complexity >= $min_complexity AND max_nesting_depth >= $min_depth
        ORDER BY complexity DESC, module_name, function_name, arity
        LIMIT $limit
        "#);
    let mut params = QueryParams::new();
    params = params.with_int("min_complexity", min_complexity);
    params = params.with_int("min_depth", min_depth);
    params = params.with_int("limit", limit as i64);
    match module_pattern {
        Some(mp) => {
            params = params.with_str("module_pattern", mp);
        },
        None => {},
    }
    (query, params)
}

/// Find the functions whose summed clause complexity and deepest nesting
/// reach the given minimums, most complex first; each with the span of its
/// clauses in lines (0 when the span is inverted).
pub fn find_complexity_metrics<D: Database + ?Sized>(db: &D, min_complexity: i64, min_depth: i64, module_pattern: Option<&str>, _project: &str, use_regex: bool, _exclude_generated: bool, limit: u32) -> (r: Result<Vec<ComplexityMetric>, ComplexityError>)
    ensures
        match r {
            Err(ComplexityError::InvalidRegex { pattern: bad }) => first_invalid_pattern(use_regex, seq![opt_str_view(module_pattern)]) == Some(bad@),
            Err(ComplexityError::QueryFailed { message }) => first_invalid_pattern(use_regex, seq![opt_str_view(module_pattern)]) is None
                && exists|p: QueryParams, e: DbError| p.binds_exactly(complexity_params(min_complexity, min_depth, opt_str_view(module_pattern), limit))
                    && #[trigger] db.answers(complexity_query_text(opt_str_view(module_pattern), use_regex), p, Err(e)) && message@ == e.message(),
            Ok(v) => first_invalid_pattern(use_regex, seq![opt_str_view(module_pattern)]) is None
                && exists|p: QueryParams, res: QueryResult| p.binds_exactly(complexity_params(min_complexity, min_depth, opt_str_view(module_pattern), limit))
                    && #[trigger] db.answers(complexity_query_text(opt_str_view(module_pattern), use_regex), p, Ok(res))
                    && ({ let d = read_rows::<ComplexityMetric>(res.rows@); views(v@) == d }),
        },
{
    let pats: [Option<&str>; 1] = [module_pattern];
    assert(pattern_views(pats@) =~= seq![opt_str_view(module_pattern)]);
    match validate_regex_patterns(use_regex, &pats) {
        Err(p) => {
            return Err(ComplexityError::InvalidRegex { pattern: p });
        },
        Ok(()) => {},
    }
    let (query, params) = complexity_query(min_complexity, min_depth, module_pattern, use_regex, limit);
    let ghost gp = params;
    match db.execute_query(query.as_str(), params) {
        Ok(res) => {
            let v = decode_rows::<ComplexityMetric>(&res.rows);
            let out = v;
            assert(db.answers(query@, gp, Ok(res)));
            Ok(out)
        },
        Err(e) => {
            let ghost ge = e;
            let message = e.to_string();
            assert(db.answers(query@, gp, Err(ge)));
            Err(ComplexityError::QueryFailed { message })
        },
    }
}



/// The parameters of the CozoDB script.
pub open spec fn complexity_cozo_params(project: Seq<char>, min_complexity: i64, min_depth: i64, module_pattern: Option<Seq<char>>) -> Map<Seq<char>, ParamView> {
    let m = Map::<Seq<char>, ParamView>::empty();
    let m = m.insert("project"@, ParamView::Str(project));
    let m = m.insert("min_complexity"@, ParamView::Int(min_complexity));
    let m = m.insert("min_depth"@, ParamView::Int(min_depth));
    match module_pattern { Some(mp) => m.insert("module_pattern"@, ParamView::Str(mp)), None => m }
}

/// The CozoDB script for the given options.
pub open spec fn complexity_cozo_text(module_pattern: Option<Seq<char>>, use_regex: bool, exclude_generated: bool, limit: u32) -> Seq<char> {
    r#"
        ?[module, name, arity, line, complexity, max_nesting_depth, start_line, end_line, lines, generated_by] :=
            *function_locations{project, module, name, arity, line, complexity, max_nesting_depth, start_line, end_line, generated_by},
            project == $project,
            complexity >= $min_complexity,
            max_nesting_depth >= $min_depth,
            lines = end_line - start_line + 1
            "#@
        + (cozo_module_cond(module_pattern is Some, use_regex))
        + r#"
            "#@
        + (if exclude_generated { ", generated_by == \"\""@ } else { ""@ })
        + r#"

        :order -complexity, module, name
        :limit "#@
        + (decimal_int(limit as int))
        + r#"
        "#@
}

/// Builds the CozoDB script and its parameters.
pub fn complexity_cozo_script(min_complexity: i64, min_depth: i64, module_pattern: Option<&str>, project: &str, use_regex: bool, exclude_generated: bool, limit: u32) -> (r: (String, QueryParams))
    ensures
        r.0@ == complexity_cozo_text(opt_str_view(module_pattern), use_regex, exclude_generated, limit),
        r.1.binds_exactly(complexity_cozo_params(project@, min_complexity, min_depth, opt_str_view(module_pattern))),
{
    let generated_filter: &str = if exclude_generated { ", generated_by == \"\"" } else { "" };
    let mut query = String::new();
    query.append(r#"
        ?[module, name, arity, line, complexity, max_nesting_depth, start_line, end_line, lines, generated_by] :=
            *function_locations{project, module, name, arity, line, complexity, max_nesting_depth, start_line, end_line, generated_by},
            project == $project,
            complexity >= $min_complexity,
            max_nesting_depth >= $min_depth,
            lines = end_line - start_line + 1
            "#);
    push_cozo_module_cond(&mut query, module_pattern.is_some(), use_regex);
    query.append(r#"
            "#);
    query.append(generated_filter);
    query.append(r#"

        :order -complexity, module, name
        :limit "#);
    push_decimal(&mut query, limit as i64);
    query.append(r#"
        "#);
    let mut params = QueryParams::new();
    params = params.with_str("project", project);
    params = params.with_int("min_complexity", min_complexity);
    params = params.with_int("min_depth", min_depth);
    match module_pattern {
        Some(mp) => {
            params = params.with_str("module_pattern", mp);
        },
        None => {},
    }
    assert(query@ =~= complexity_cozo_text(opt_str_view(module_pattern), use_regex, exclude_generated, limit));
    (query, params)
}

impl CozoRecord for ComplexityMetric {
    open spec fn read_cozo(row: Seq<Value>) -> Option<ComplexityMetricView> {
        if row.len() >= 10 {
            match (cell_text(row, 0), cell_text(row, 1), cell_text(row, 9)) {
                (Some(v_module), Some(v_name), Some(v_generated_by)) => Some(ComplexityMetricView { module: v_module, name: v_name, arity: cell_int_or(row, 2, 0), line: cell_int_or(row, 3, 0), complexity: cell_int_or(row, 4, 0), max_nesting_depth: cell_int_or(row, 5, 0), start_line: cell_int_or(row, 6, 0), end_line: cell_int_or(row, 7, 0), lines: cell_int_or(row, 8, 0), generated_by: v_generated_by }),
                _ => None,
            }
        } else {
            None
        }
    }

    fn from_cozo_row(row: &Row) -> (r: Option<ComplexityMetric>) {
        if row.len() < 10 {
            return None;
        }
        let module = get_string(row, 0)?;
        let name = get_string(row, 1)?;
        let arity = get_i64_or(row, 2, 0);
        let line = get_i64_or(row, 3, 0);
        let complexity = get_i64_or(row, 4, 0);
        let max_nesting_depth = get_i64_or(row, 5, 0);
        let start_line = get_i64_or(row, 6, 0);
        let end_line = get_i64_or(row, 7, 0);
        let lines = get_i64_or(row, 8, 0);
        let generated_by = get_string(row, 9)?;
        Some(ComplexityMetric { module, name, arity, line, complexity, max_nesting_depth, start_line, end_line, lines, generated_by })
    }
}

/// Find complexity metrics on CozoDB: the clauses of the project with at
/// least `min_complexity` and `min_depth`, within modules matching
/// `module_pattern`, ordered by complexity (highest first), module and name,
/// at most `limit` of them, as the script gives them.
pub fn find_complexity_metrics_cozo<D: Database + ?Sized>(db: &D, min_complexity: i64, min_depth: i64, module_pattern: Option<&str>, project: &str, use_regex: bool, exclude_generated: bool, limit: u32) -> (r: Result<Vec<ComplexityMetric>, ComplexityError>)
    ensures
        match r {
            Err(ComplexityError::InvalidRegex { pattern: bad }) => first_invalid_pattern(use_regex, seq![opt_str_view(module_pattern)]) == Some(bad@),
            Err(ComplexityError::QueryFailed { message }) => first_invalid_pattern(use_regex, seq![opt_str_view(module_pattern)]) is None
                && exists|p: QueryParams, e: DbError| p.binds_exactly(complexity_cozo_params(project@, min_complexity, min_depth, opt_str_view(module_pattern)))
                    && #[trigger] db.answers(complexity_cozo_text(opt_str_view(module_pattern), use_regex, exclude_generated, limit), p, Err(e)) && message@ == e.message(),
            Ok(v) => first_invalid_pattern(use_regex, seq![opt_str_view(module_pattern)]) is None
                && exists|p: QueryParams, res: QueryResult| p.binds_exactly(complexity_cozo_params(project@, min_complexity, min_depth, opt_str_view(module_pattern)))
                    && #[trigger] db.answers(complexity_cozo_text(opt_str_view(module_pattern), use_regex, exclude_generated, limit), p, Ok(res))
                    && views(v@) == read_cozo_rows::<ComplexityMetric>(res.rows@),
        },
{
    let pats: [Option<&str>; 1] = [module_pattern];
    assert(pattern_views(pats@) =~= seq![opt_str_view(module_pattern)]);
    match validate_regex_patterns(use_regex, &pats) {
        Err(p) => {
            return Err(ComplexityError::InvalidRegex { pattern: p });
        },
        Ok(()) => {},
    }
    let (query, params) = complexity_cozo_script(min_complexity, min_depth, module_pattern, project, use_regex, exclude_generated, limit);
    let ghost gp = params;
    match db.execute_query(query.as_str(), params) {
        Ok(res) => {
            let v = decode_cozo_rows::<ComplexityMetric>(&res.rows);
            assert(db.answers(query@, gp, Ok(res)));
            Ok(v)
        },
        Err(e) => {
            let ghost ge = e;
            let message = e.to_string();
            assert(db.answers(query@, gp, Err(ge)));
            Err(ComplexityError::QueryFailed { message })
        },
    }
}

/// The columns of the query's answer, as SurrealDB gives them: the names
/// the query selects, in alphabetical order.
pub open spec fn complexity_columns() -> Seq<Seq<char>> {
    seq!["arity"@, "complexity"@, "end_line"@, "function_name"@, "line"@, "max_nesting_depth"@, "module_name"@, "start_line"@]
}

proof fn lemma_complexity_columns_distinct()
    ensures
        distinct_names(complexity_columns()),
{
    let c = complexity_columns();
    reveal_strlit("arity");
    reveal_strlit("complexity");
    reveal_strlit("end_line");
    reveal_strlit("function_name");
    reveal_strlit("line");
    reveal_strlit("max_nesting_depth");
    reveal_strlit("module_name");
    reveal_strlit("start_line");
    assert(c[0] == "arity"@);
    assert(c[1] == "complexity"@);
    assert(c[2] == "end_line"@);
    assert(c[3] == "function_name"@);
    assert(c[4] == "line"@);
    assert(c[5] == "max_nesting_depth"@);
    assert(c[6] == "module_name"@);
    assert(c[7] == "start_line"@);
    assert(c[0].len() != c[1].len());
    assert(c[0] != c[1]);
    assert(c[0].len() != c[2].len());
    assert(c[0] != c[2]);
    assert(c[0].len() != c[3].len());
    assert(c[0] != c[3]);
    assert(c[0].len() != c[4].len());
    assert(c[0] != c[4]);
    assert(c[0].len() != c[5].len());
    assert(c[0] != c[5]);
    assert(c[0].len() != c[6].len());
    assert(c[0] != c[6]);
    assert(c[0].len() != c[7].len());
    assert(c[0] != c[7]);
    assert(c[1].len() != c[2].len());
    assert(c[1] != c[2]);
    assert(c[1].len() != c[3].len());
    assert(c[1] != c[3]);
    assert(c[1].len() != c[4].len());
    assert(c[1] != c[4]);
    assert(c[1].len() != c[5].len());
    assert(c[1] != c[5]);
    assert(c[1].len() != c[6].len());
    assert(c[1] != c[6]);
    assert(c[1][0] != c[7][0]);
    assert(c[1] != c[7]);
    assert(c[2].len() != c[3].len());
    assert(c[2] != c[3]);
    assert(c[2].len() != c[4].len());
    assert(c[2] != c[4]);
    assert(c[2].len() != c[5].len());
    assert(c[2] != c[5]);
    assert(c[2].len() != c[6].len());
    assert(c[2] != c[6]);
    assert(c[2].len() != c[7].len());
    assert(c[2] != c[7]);
    assert(c[3].len() != c[4].len());
    assert(c[3] != c[4]);
    assert(c[3].len() != c[5].len());
    assert(c[3] != c[5]);
    assert(c[3].len() != c[6].len());
    assert(c[3] != c[6]);
    assert(c[3].len() != c[7].len());
    assert(c[3] != c[7]);
    assert(c[4].len() != c[5].len());
    assert(c[4] != c[5]);
    assert(c[4].len() != c[6].len());
    assert(c[4] != c[6]);
    assert(c[4].len() != c[7].len());
    assert(c[4] != c[7]);
    assert(c[5].len() != c[6].len());
    assert(c[5] != c[6]);
    assert(c[5].len() != c[7].len());
    assert(c[5] != c[7]);
    assert(c[6].len() != c[7].len());
    assert(c[6] != c[7]);
    assert forall|i: int, j: int| 0 <= i < c.len() && 0 <= j < c.len() && i != j implies #[trigger] c[i] != #[trigger] c[j] by {
        assert(i == 0 || i == 1 || i == 2 || i == 3 || i == 4 || i == 5 || i == 6 || i == 7);
        assert(j == 0 || j == 1 || j == 2 || j == 3 || j == 4 || j == 5 || j == 6 || j == 7);
    }
}

/// Each field of a record read from a row of the answer is the value in the
/// column of that field's name; a row gives a record exactly when it has
/// every column and text in the columns `module_name`, `function_name`.
pub proof fn lemma_complexity_metric_named_columns(row: Seq<Value>)
    ensures
        ComplexityMetric::read(row) is Some <==> (row.len() >= complexity_columns().len() && text_at_column(complexity_columns(), row, "module_name"@) && text_at_column(complexity_columns(), row, "function_name"@)),
        ComplexityMetric::read(row) matches Some(m) ==> {
            &&& text_in_column(complexity_columns(), row, "module_name"@, m.module, ""@)
            &&& text_in_column(complexity_columns(), row, "function_name"@, m.name, ""@)
            &&& int_in_column(complexity_columns(), row, "arity"@, m.arity, 0)
            &&& int_in_column(complexity_columns(), row, "line"@, m.line, 0)
            &&& int_in_column(complexity_columns(), row, "complexity"@, m.complexity, 0)
            &&& int_in_column(complexity_columns(), row, "max_nesting_depth"@, m.max_nesting_depth, 0)
            &&& int_in_column(complexity_columns(), row, "start_line"@, m.start_line, 0)
            &&& int_in_column(complexity_columns(), row, "end_line"@, m.end_line, 0)
        },
{
    lemma_complexity_columns_distinct();
    let c = complexity_columns();
    assert(c[0] == "arity"@);
    lemma_named_cell(c, row, 0);
    assert(c[1] == "complexity"@);
    lemma_named_cell(c, row, 1);
    assert(c[2] == "end_line"@);
    lemma_named_cell(c, row, 2);
    assert(c[3] == "function_name"@);
    lemma_named_cell(c, row, 3);
    assert(c[4] == "line"@);
    lemma_named_cell(c, row, 4);
    assert(c[5] == "max_nesting_depth"@);
    lemma_named_cell(c, row, 5);
    assert(c[6] == "module_name"@);
    lemma_named_cell(c, row, 6);
    assert(c[7] == "start_line"@);
    lemma_named_cell(c, row, 7);
}

/// The columns of the script's answer: the head of its query rule, in order.
pub open spec fn complexity_cozo_columns() -> Seq<Seq<char>> {
    seq!["module"@, "name"@, "arity"@, "line"@, "complexity"@, "max_nesting_depth"@, "start_line"@, "end_line"@, "lines"@, "generated_by"@]
}

proof fn lemma_complexity_cozo_columns_distinct()
    ensures
        distinct_names(complexity_cozo_columns()),
{
    let c = complexity_cozo_columns();
    reveal_strlit("module");
    reveal_strlit("name");
    reveal_strlit("arity");
    reveal_strlit("line");
    reveal_strlit("complexity");
    reveal_strlit("max_nesting_depth");
    reveal_strlit("start_line");
    reveal_strlit("end_line");
    reveal_strlit("lines");
    reveal_strlit("generated_by");
    assert(c[0] == "module"@);
    assert(c[1] == "name"@);
    assert(c[2] == "arity"@);
    assert(c[3] == "line"@);
    assert(c[4] == "complexity"@);
    assert(c[5] == "max_nesting_depth"@);
    assert(c[6] == "start_line"@);
    assert(c[7] == "end_line"@);
    assert(c[8] == "lines"@);
    assert(c[9] == "generated_by"@);
    assert(c[0].len() != c[1].len());
    assert(c[0] != c[1]);
    assert(c[0].len() != c[2].len());
    assert(c[0] != c[2]);
    assert(c[0].len() != c[3].len());
    assert(c[0] != c[3]);
    assert(c[0].len() != c[4].len());
    assert(c[0] != c[4]);
    assert(c[0].len() != c[5].len());
    assert(c[0] != c[5]);
    assert(c[0].len() != c[6].len());
    assert(c[0] != c[6]);
    assert(c[0].len() != c[7].len());
    assert(c[0] != c[7]);
    assert(c[0].len() != c[8].len());
    assert(c[0] != c[8]);
    assert(c[0].len() != c[9].len());
    assert(c[0] != c[9]);
    assert(c[1].len() != c[2].len());
    assert(c[1] != c[2]);
    assert(c[1][0] != c[3][0]);
    assert(c[1] != c[3]);
    assert(c[1].len() != c[4].len());
    assert(c[1] != c[4]);
    assert(c[1].len() != c[5].len());
    assert(c[1] != c[5]);
    assert(c[1].len() != c[6].len());
    assert(c[1] != c[6]);
    assert(c[1].len() != c[7].len());
    assert(c[1] != c[7]);
    assert(c[1].len() != c[8].len());
    assert(c[1] != c[8]);
    assert(c[1].len() != c[9].len());
    assert(c[1] != c[9]);
    assert(c[2].len() != c[3].len());
    assert(c[2] != c[3]);
    assert(c[2].len() != c[4].len());
    assert(c[2] != c[4]);
    assert(c[2].len() != c[5].len());
    assert(c[2] != c[5]);
    assert(c[2].len() != c[6].len());
    assert(c[2] != c[6]);
    assert(c[2].len() != c[7].len());
    assert(c[2] != c[7]);
    assert(c[2][0] != c[8][0]);
    assert(c[2] != c[8]);
    assert(c[2].len() != c[9].len());
    assert(c[2] != c[9]);
    assert(c[3].len() != c[4].len());
    assert(c[3] != c[4]);
    assert(c[3].len() != c[5].len());
    assert(c[3] != c[5]);
    assert(c[3].len() != c[6].len());
    assert(c[3] != c[6]);
    assert(c[3].len() != c[7].len());
    assert(c[3] != c[7]);
    assert(c[3].len() != c[8].len());
    assert(c[3] != c[8]);
    assert(c[3].len() != c[9].len());
    assert(c[3] != c[9]);
    assert(c[4].len() != c[5].len());
    assert(c[4] != c[5]);
    assert(c[4][0] != c[6][0]);
    assert(c[4] != c[6]);
    assert(c[4].len() != c[7].len());
    assert(c[4] != c[7]);
    assert(c[4].len() != c[8].len());
    assert(c[4] != c[8]);
    assert(c[4].len() != c[9].len());
    assert(c[4] != c[9]);
    assert(c[5].len() != c[6].len());
    assert(c[5] != c[6]);
    assert(c[5].len() != c[7].len());
    assert(c[5] != c[7]);
    assert(c[5].len() != c[8].len());
    assert(c[5] != c[8]);
    assert(c[5].len() != c[9].len());
    assert(c[5] != c[9]);
    assert(c[6].len() != c[7].len());
    assert(c[6] != c[7]);
    assert(c[6].len() != c[8].len());
    assert(c[6] != c[8]);
    assert(c[6].len() != c[9].len());
    assert(c[6] != c[9]);
    assert(c[7].len() != c[8].len());
    assert(c[7] != c[8]);
    assert(c[7].len() != c[9].len());
    assert(c[7] != c[9]);
    assert(c[8].len() != c[9].len());
    assert(c[8] != c[9]);
    assert forall|i: int, j: int| 0 <= i < c.len() && 0 <= j < c.len() && i != j implies #[trigger] c[i] != #[trigger] c[j] by {
        assert(i == 0 || i == 1 || i == 2 || i == 3 || i == 4 || i == 5 || i == 6 || i == 7 || i == 8 || i == 9);
        assert(j == 0 || j == 1 || j == 2 || j == 3 || j == 4 || j == 5 || j == 6 || j == 7 || j == 8 || j == 9);
    }
}

/// Each field of a record read from a row of the answer is the value in the
/// column of that field's name; a row gives a record exactly when it has
/// every column and text in the columns `module`, `name`, `generated_by`.
pub proof fn lemma_complexity_metric_cozo_named_columns(row: Seq<Value>)
    ensures
        ComplexityMetric::read_cozo(row) is Some <==> (row.len() >= complexity_cozo_columns().len() && text_at_column(complexity_cozo_columns(), row, "module"@) && text_at_column(complexity_cozo_columns(), row, "name"@) && text_at_column(complexity_cozo_columns(), row, "generated_by"@)),
        ComplexityMetric::read_cozo(row) matches Some(m) ==> {
            &&& text_in_column(complexity_cozo_columns(), row, "module"@, m.module, ""@)
            &&& text_in_column(complexity_cozo_columns(), row, "name"@, m.name, ""@)
            &&& int_in_column(complexity_cozo_columns(), row, "arity"@, m.arity, 0)
            &&& int_in_column(complexity_cozo_columns(), row, "line"@, m.line, 0)
            &&& int_in_column(complexity_cozo_columns(), row, "complexity"@, m.complexity, 0)
            &&& int_in_column(complexity_cozo_columns(), row, "max_nesting_depth"@, m.max_nesting_depth, 0)
            &&& int_in_column(complexity_cozo_columns(), row, "start_line"@, m.start_line, 0)
            &&& int_in_column(complexity_cozo_columns(), row, "end_line"@, m.end_line, 0)
            &&& int_in_column(complexity_cozo_columns(), row, "lines"@, m.lines, 0)
            &&& text_in_column(complexity_cozo_columns(), row, "generated_by"@, m.generated_by, ""@)
        },
{
    lemma_complexity_cozo_columns_distinct();
    let c = complexity_cozo_columns();
    assert(c[0] == "module"@);
    lemma_named_cell(c, row, 0);
    assert(c[1] == "name"@);
    lemma_named_cell(c, row, 1);
    assert(c[2] == "arity"@);
    lemma_named_cell(c, row, 2);
    assert(c[3] == "line"@);
    lemma_named_cell(c, row, 3);
    assert(c[4] == "complexity"@);
    lemma_named_cell(c, row, 4);
    assert(c[5] == "max_nesting_depth"@);
    lemma_named_cell(c, row, 5);
    assert(c[6] == "start_line"@);
    lemma_named_cell(c, row, 6);
    assert(c[7] == "end_line"@);
    lemma_named_cell(c, row, 7);
    assert(c[8] == "lines"@);
    lemma_named_cell(c, row, 8);
    assert(c[9] == "generated_by"@);
    lemma_named_cell(c, row, 9);
}

/// The query binds each of its parameters to the input of that name, and binds an optional one exactly when it is given.
pub proof fn lemma_complexity_params_bind_inputs(min_complexity: i64, min_depth: i64, module_pattern: Option<Seq<char>>, limit: u32)
    ensures
        ({
            let m = complexity_params(min_complexity, min_depth, module_pattern, limit);
            &&& m.dom().contains("min_complexity"@) && m["min_complexity"@] == ParamView::Int(min_complexity)
            &&& m.dom().contains("min_depth"@) && m["min_depth"@] == ParamView::Int(min_depth)
            &&& match module_pattern { Some(v) => m.dom().contains("module_pattern"@) && m["module_pattern"@] == ParamView::Str(v), None => !m.dom().contains("module_pattern"@) }
            &&& m.dom().contains("limit"@) && m["limit"@] == ParamView::Int(limit as i64)
        }),
{
    reveal_strlit("min_complexity");
    reveal_strlit("min_depth");
    reveal_strlit("module_pattern");
    reveal_strlit("limit");
    assert("min_complexity"@.len() != "min_depth"@.len());
    assert("min_complexity"@[1] != "module_pattern"@[1]);
    assert("min_complexity"@.len() != "limit"@.len());
    assert("min_depth"@.len() != "module_pattern"@.len());
    assert("min_depth"@.len() != "limit"@.len());
    assert("module_pattern"@.len() != "limit"@.len());
}

/// The query binds each of its parameters to the input of that name, and binds an optional one exactly when it is given.
pub proof fn lemma_complexity_cozo_params_bind_inputs(project: Seq<char>, min_complexity: i64, min_depth: i64, module_pattern: Option<Seq<char>>)
    ensures
        ({
            let m = complexity_cozo_params(project, min_complexity, min_depth, module_pattern);
            &&& m.dom().contains("project"@) && m["project"@] == ParamView::Str(project)
            &&& m.dom().contains("min_complexity"@) && m["min_complexity"@] == ParamView::Int(min_complexity)
            &&& m.dom().contains("min_depth"@) && m["min_depth"@] == ParamView::Int(min_depth)
            &&& match module_pattern { Some(v) => m.dom().contains("module_pattern"@) && m["module_pattern"@] == ParamView::Str(v), None => !m.dom().contains("module_pattern"@) }
        }),
{
    reveal_strlit("project");
    reveal_strlit("min_complexity");
    reveal_strlit("min_depth");
    reveal_strlit("module_pattern");
    assert("project"@.len() != "min_complexity"@.len());
    assert("project"@.len() != "min_depth"@.len());
    assert("project"@.len() != "module_pattern"@.len());
    assert("min_complexity"@.len() != "min_depth"@.len());
    assert("min_complexity"@[1] != "module_pattern"@[1]);
    assert("min_depth"@.len() != "module_pattern"@.len());
}

/// The query keeps the functions whose summed complexity is at least the
/// `min_complexity` parameter and whose deepest nesting is at least the
/// `min_depth` parameter.
pub proof fn lemma_complexity_query_thresholds(module_pattern: Option<Seq<char>>, use_regex: bool)
    ensures
        contains_seq(complexity_query_text(module_pattern, use_regex), "WHERE complexity >= $min_complexity AND max_nesting_depth >= $min_depth"@),
{
    reveal_strlit(r#"
            GROUP BY module_name, function_name, arity
        ) WHERE complexity >= $min_complexity AND max_nesting_depth >= $min_depth
        ORDER BY complexity DESC, module_name, function_name, arity
        LIMIT $limit
        "#);
    reveal_strlit("WHERE complexity >= $min_complexity AND max_nesting_depth >= $min_depth");
    let t = complexity_query_text(module_pattern, use_regex);
    let l = r#"
            GROUP BY module_name, function_name, arity
        ) WHERE complexity >= $min_complexity AND max_nesting_depth >= $min_depth
        ORDER BY complexity DESC, module_name, function_name, arity
        LIMIT $limit
        "#@;
    let p = t.subrange(0, t.len() - l.len());
    assert(t =~= p + l + Seq::<char>::empty());
    assert(l.subrange(66, 137) =~= "WHERE complexity >= $min_complexity AND max_nesting_depth >= $min_depth"@);
    lemma_contains_piece(p, l, Seq::<char>::empty(), 66, "WHERE complexity >= $min_complexity AND max_nesting_depth >= $min_depth"@);
}

/// The columns are in ascending order of their names, as SurrealDB gives them.
pub proof fn lemma_complexity_columns_ascending()
    ensures
        names_ascending(complexity_columns()),
{
    let c = complexity_columns();
    reveal_strlit("arity");
    reveal_strlit("complexity");
    reveal_strlit("end_line");
    reveal_strlit("function_name");
    reveal_strlit("line");
    reveal_strlit("max_nesting_depth");
    reveal_strlit("module_name");
    reveal_strlit("start_line");
    assert(c[0] == "arity"@ && c[1] == "complexity"@);
    assert((c[0][0] as int) < (c[1][0] as int));
    lemma_lex_less(c[0], c[1], 0);
    assert(c[1] == "complexity"@ && c[2] == "end_line"@);
    assert((c[1][0] as int) < (c[2][0] as int));
    lemma_lex_less(c[1], c[2], 0);
    assert(c[2] == "end_line"@ && c[3] == "function_name"@);
    assert((c[2][0] as int) < (c[3][0] as int));
    lemma_lex_less(c[2], c[3], 0);
    assert(c[3] == "function_name"@ && c[4] == "line"@);
    assert((c[3][0] as int) < (c[4][0] as int));
    lemma_lex_less(c[3], c[4], 0);
    assert(c[4] == "line"@ && c[5] == "max_nesting_depth"@);
    assert((c[4][0] as int) < (c[5][0] as int));
    lemma_lex_less(c[4], c[5], 0);
    assert(c[5] == "max_nesting_depth"@ && c[6] == "module_name"@);
    assert(c[5].subrange(0, 1) =~= c[6].subrange(0, 1));
    assert forall|i: int| 0 <= i < 1 implies c[5][i] == c[6][i] by { assert(c[5][i] == c[5].subrange(0, 1)[i]); assert(c[6][i] == c[6].subrange(0, 1)[i]); }
    assert((c[5][1] as int) < (c[6][1] as int));
    lemma_lex_less(c[5], c[6], 1);
    assert(c[6] == "module_name"@ && c[7] == "start_line"@);
    assert((c[6][0] as int) < (c[7][0] as int));
    lemma_lex_less(c[6], c[7], 0);
    assert forall|k: int| 0 <= k < c.len() - 1 implies lex_order(#[trigger] c[k], c[k + 1]) < 0 by {
        assert(k == 0 || k == 1 || k == 2 || k == 3 || k == 4 || k == 5 || k == 6);
    }
    lemma_names_ascending_from_adjacent(c);
}

/// The script's answer has the columns `complexity_cozo_columns` lists: they are the head of
/// its query rule.
pub proof fn lemma_complexity_cozo_columns_head(module_pattern: Option<Seq<char>>, use_regex: bool, exclude_generated: bool, limit: u32)
    ensures
        contains_seq(complexity_cozo_text(module_pattern, use_regex, exclude_generated, limit), "?["@ + joined(complexity_cozo_columns(), ", "@) + "]"@),
{
    let c = complexity_cozo_columns();
    reveal_strlit(", ");
    reveal_strlit("module");
    reveal_strlit("name");
    reveal_strlit("arity");
    reveal_strlit("line");
    reveal_strlit("complexity");
    reveal_strlit("max_nesting_depth");
    reveal_strlit("start_line");
    reveal_strlit("end_line");
    reveal_strlit("lines");
    reveal_strlit("generated_by");
    assert(c.take(1)[0] == c[0]);
    assert(joined(c.take(1), ", "@) =~= "module"@);
    reveal_strlit("module, name");
    assert(c.take(2).drop_last() =~= c.take(1));
    assert(c.take(2).last() == c[1]);
    assert(joined(c.take(2), ", "@) =~= "module, name"@);
    reveal_strlit("module, name, arity");
    assert(c.take(3).drop_last() =~= c.take(2));
    assert(c.take(3).last() == c[2]);
    assert(joined(c.take(3), ", "@) =~= "module, name, arity"@);
    reveal_strlit("module, name, arity, line");
    assert(c.take(4).drop_last() =~= c.take(3));
    assert(c.take(4).last() == c[3]);
    assert(joined(c.take(4), ", "@) =~= "module, name, arity, line"@);
    reveal_strlit("module, name, arity, line, complexity");
    assert(c.take(5).drop_last() =~= c.take(4));
    assert(c.take(5).last() == c[4]);
    assert(joined(c.take(5), ", "@) =~= "module, name, arity, line, complexity"@);
    reveal_strlit("module, name, arity, line, complexity, max_nesting_depth");
    assert(c.take(6).drop_last() =~= c.take(5));
    assert(c.take(6).last() == c[5]);
    assert(joined(c.take(6), ", "@) =~= "module, name, arity, line, complexity, max_nesting_depth"@);
    reveal_strlit("module, name, arity, line, complexity, max_nesting_depth, start_line");
    assert(c.take(7).drop_last() =~= c.take(6));
    assert(c.take(7).last() == c[6]);
    assert(joined(c.take(7), ", "@) =~= "module, name, arity, line, complexity, max_nesting_depth, start_line"@);
    reveal_strlit("module, name, arity, line, complexity, max_nesting_depth, start_line, end_line");
    assert(c.take(8).drop_last() =~= c.take(7));
    assert(c.take(8).last() == c[7]);
    assert(joined(c.take(8), ", "@) =~= "module, name, arity, line, complexity, max_nesting_depth, start_line, end_line"@);
    reveal_strlit("module, name, arity, line, complexity, max_nesting_depth, start_line, end_line, lines");
    assert(c.take(9).drop_last() =~= c.take(8));
    assert(c.take(9).last() == c[8]);
    assert(joined(c.take(9), ", "@) =~= "module, name, arity, line, complexity, max_nesting_depth, start_line, end_line, lines"@);
    reveal_strlit("module, name, arity, line, complexity, max_nesting_depth, start_line, end_line, lines, generated_by");
    assert(c.take(10).drop_last() =~= c.take(9));
    assert(c.take(10).last() == c[9]);
    assert(joined(c.take(10), ", "@) =~= "module, name, arity, line, complexity, max_nesting_depth, start_line, end_line, lines, generated_by"@);
    assert(c.take(10) =~= c);
    reveal_strlit("?[");
    reveal_strlit("]");
    reveal_strlit("?[module, name, arity, line, complexity, max_nesting_depth, start_line, end_line, lines, generated_by]");
    assert(("?["@ + joined(c, ", "@) + "]"@) =~= "?[module, name, arity, line, complexity, max_nesting_depth, start_line, end_line, lines, generated_by]"@);
    reveal_strlit(r#"
        ?[module, name, arity, line, complexity, max_nesting_depth, start_line, end_line, lines, generated_by] :=
            *function_locations{project, module, name, arity, line, complexity, max_nesting_depth, start_line, end_line, generated_by},
            project == $project,
            complexity >= $min_complexity,
            max_nesting_depth >= $min_depth,
            lines = end_line - start_line + 1
            "#);
    let t = complexity_cozo_text(module_pattern, use_regex, exclude_generated, limit);
    let l = r#"
        ?[module, name, arity, line, complexity, max_nesting_depth, start_line, end_line, lines, generated_by] :=
            *function_locations{project, module, name, arity, line, complexity, max_nesting_depth, start_line, end_line, generated_by},
            project == $project,
            complexity >= $min_complexity,
            max_nesting_depth >= $min_depth,
            lines = end_line - start_line + 1
            "#@;
    assert(t =~= Seq::<char>::empty() + l + t.subrange(l.len() as int, t.len() as int));
    assert(l.subrange(9, 111) =~= "?[module, name, arity, line, complexity, max_nesting_depth, start_line, end_line, lines, generated_by]"@);
    lemma_contains_piece(Seq::<char>::empty(), l, t.subrange(l.len() as int, t.len() as int), 9, "?[module, name, arity, line, complexity, max_nesting_depth, start_line, end_line, lines, generated_by]"@);
}

} // verus!
