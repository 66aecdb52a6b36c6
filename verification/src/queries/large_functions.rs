//! Finding large functions.

use vstd::prelude::*;
use crate::query_builders::{cozo_match, cozo_module_cond, push_cozo_match, push_cozo_module_cond};
use crate::text::{decimal_int, push_decimal};
use crate::text::{string_views, push_text, where_text, where_clause};
use crate::backend::{Database, QueryParams, QueryResult, Row, Value, ParamView, ValueType};
use crate::db::{DbError, cell_text, cell_text_or, cell_int_or, get_string, get_string_or, get_i64_or};
use crate::query_builders::{validate_regex_patterns, first_invalid_pattern, opt_str_view, pattern_views};
use crate::queries::rows::{CozoRecord, read_cozo_rows, decode_cozo_rows, RowRecord, views, read_rows, decode_rows, distinct_names, int_in_column, text_in_column, text_at_column, lemma_named_cell};


use crate::backend::surreal_rows::{names_ascending, lemma_names_ascending_from_adjacent};
use crate::text::{lex_order, lemma_lex_less, contains_seq, lemma_contains_piece, joined};

verus! {

/// Errors of the query.
#[derive(Debug)]
pub enum LargeFunctionsError {
    QueryFailed { message: String },
    InvalidRegex { pattern: String },
}

impl LargeFunctionsError {
    /// The error's text.
    pub open spec fn message(&self) -> Seq<char> {
        match self {
            LargeFunctionsError::QueryFailed { message } => "Large functions query failed: "@ + message@,
            LargeFunctionsError::InvalidRegex { pattern } => "Invalid regex pattern: "@ + pattern@,
        }
    }

    /// The error's text (what `Display` writes).
    pub fn to_string(&self) -> (r: String)
        ensures
            r@ == self.message(),
    {
        let mut r = String::new();
        match self {
            LargeFunctionsError::QueryFailed { message } => {
                r.append("Large functions query failed: ");
                r.append(message.as_str());
            },
            LargeFunctionsError::InvalidRegex { pattern } => {
                r.append("Invalid regex pattern: ");
                r.append(pattern.as_str());
            },
        }
        r
    }
}

/// A function clause with its size in lines
#[derive(Debug, Clone)]
pub struct LargeFunction {
    pub module: String,
    pub name: String,
    pub arity: i64,
    pub start_line: i64,
    pub end_line: i64,
    pub lines: i64,
    pub file: String,
    pub generated_by: String,
}

/// What a `LargeFunction` holds, as plain values.
pub struct LargeFunctionView {
    pub module: Seq<char>,
    pub name: Seq<char>,
    pub arity: i64,
    pub start_line: i64,
    pub end_line: i64,
    pub lines: i64,
    pub file: Seq<char>,
    pub generated_by: Seq<char>,
}

impl View for LargeFunction {
    type V = LargeFunctionView;

    open spec fn view(&self) -> LargeFunctionView {
        LargeFunctionView {
            module: self.module@,
            name: self.name@,
            arity: self.arity,
            start_line: self.start_line,
            end_line: self.end_line,
            lines: self.lines,
            file: self.file@,
            generated_by: self.generated_by@,
        }
    }
}

impl RowRecord for LargeFunction {
    open spec fn read(row: Seq<Value>) -> Option<LargeFunctionView> {
        if row.len() >= 8 {
            match (cell_text(row, 2), cell_text(row, 3), cell_text(row, 6)) {
                (Some(v_file), Some(v_name), Some(v_module)) => Some(LargeFunctionView { module: v_module, name: v_name, arity: cell_int_or(row, 0, 0), start_line: cell_int_or(row, 7, 0), end_line: cell_int_or(row, 1, 0), lines: cell_int_or(row, 5, 0), file: v_file, generated_by: cell_text_or(row, 4, ""@) }),
                _ => None,
            }
        } else {
            None
        }
    }

    fn from_row(row: &Row) -> (r: Option<LargeFunction>) {
        if row.len() < 8 {
            return None;
        }
        let module = get_string(row, 6)?;
        let name = get_string(row, 3)?;
        let arity = get_i64_or(row, 0, 0);
        let start_line = get_i64_or(row, 7, 0);
        let end_line = get_i64_or(row, 1, 0);
        let lines = get_i64_or(row, 5, 0);
        let file = get_string(row, 2)?;
        let generated_by = get_string_or(row, 4, "");
        Some(LargeFunction { module, name, arity, start_line, end_line, lines, file, generated_by })
    }
}

/// The filters of the query, in order.
pub open spec fn large_functions_conditions(module_pattern: Option<Seq<char>>, use_regex: bool, include_generated: bool) -> Seq<Seq<char>> {
    (seq!["end_line - start_line + 1 >= $min_lines"@])
        + (if module_pattern is Some && use_regex { seq!["module_name = <regex>$module_pattern"@] } else if module_pattern is Some { seq!["module_name = $module_pattern"@] } else { Seq::empty() })
        + (if !include_generated { seq![r#"(generated_by IS NONE OR generated_by = "")"#@] } else { Seq::empty() })
}

fn large_functions_conditions_of(module_pattern: Option<&str>, use_regex: bool, include_generated: bool) -> (r: Vec<String>)
    ensures
        string_views(r@) == large_functions_conditions(opt_str_view(module_pattern), use_regex, include_generated),
{
    let mut conditions: Vec<String> = Vec::new();
    let ghost start = string_views(conditions@);
    push_text(&mut conditions, "end_line - start_line + 1 >= $min_lines");
    if module_pattern.is_some() && use_regex {
        push_text(&mut conditions, "module_name = <regex>$module_pattern");
    } else if module_pattern.is_some() {
        push_text(&mut conditions, "module_name = $module_pattern");
    }
    if !include_generated {
        push_text(&mut conditions, r#"(generated_by IS NONE OR generated_by = "")"#);
    }
    assert(string_views(conditions@) =~= large_functions_conditions(opt_str_view(module_pattern), use_regex, include_generated));
    conditions
}

/// The query text for the given filters.
pub open spec fn large_functions_query_text(module_pattern: Option<Seq<char>>, use_regex: bool, include_generated: bool) -> Seq<char> {
    r#"
        SELECT
            module_name,
            function_name,
            arity,
            start_line,
            end_line,
            end_line - start_line + 1 as lines,
            source_file as file,
            generated_by
        FROM clauses
        WHERE "#@
        + where_text(""@, large_functions_conditions(module_pattern, use_regex, include_generated))
        + r#"
        ORDER BY lines DESC, module_name, function_name
        LIMIT $limit
        "#@
}

/// The parameters of the query.
pub open spec fn large_functions_params(min_lines: i64, module_pattern: Option<Seq<char>>, limit: u32) -> Map<Seq<char>, ParamView> {
    let m = Map::<Seq<char>, ParamView>::empty();
    let m = m.insert("min_lines"@, ParamView::Int(min_lines));
    let m = m.insert("limit"@, ParamView::Int(limit as i64));
    let m = match module_pattern { Some(mp) => m.insert("module_pattern"@, ParamView::Str(mp)), None => m };
    m
}

/// Builds the query text and parameters.
pub fn large_functions_query(min_lines: i64, module_pattern: Option<&str>, use_regex: bool, include_generated: bool, limit: u32) -> (r: (String, QueryParams))
    ensures
        r.0@ == large_functions_query_text(opt_str_view(module_pattern), use_regex, include_generated),
        r.1.binds_exactly(large_functions_params(min_lines, opt_str_view(module_pattern), limit)),
{
    let mut query = String::new();
    query.append(r#"
        SELECT
            module_name,
            function_name,
            arity,
            start_line,
            end_line,
            end_line - start_line + 1 as lines,
            source_file as file,
            generated_by
        FROM clauses
        WHERE "#);
    let conditions = large_functions_conditions_of(module_pattern, use_regex, include_generated);
    let part_where_clause = where_clause("", &conditions);
    query.append(part_where_clause.as_str());
    query.append(r#"
        ORDER BY lines DESC, module_name, function_name
        LIMIT $limit
        "#);
    let mut params = QueryParams::new();
    params = params.with_int("min_lines", min_lines);
    params = params.with_int("limit", limit as i64);
    match module_pattern {
        Some(mp) => {
            params = params.with_str("module_pattern", mp);
        },
        None => {},
    }
    (query, params)
}

/// Find the clauses spanning at least `min_lines` lines (in the modules
/// matching the pattern when given; generated code only when asked), largest
/// first.
pub fn find_large_functions<D: Database + ?Sized>(db: &D, min_lines: i64, module_pattern: Option<&str>, _project: &str, use_regex: bool, include_generated: bool, limit: u32) -> (r: Result<Vec<LargeFunction>, LargeFunctionsError>)
    ensures
        match r {
            Err(LargeFunctionsError::InvalidRegex { pattern: bad }) => first_invalid_pattern(use_regex, seq![opt_str_view(module_pattern)]) == Some(bad@),
            Err(LargeFunctionsError::QueryFailed { message }) => first_invalid_pattern(use_regex, seq![opt_str_view(module_pattern)]) is None
                && exists|p: QueryParams, e: DbError| p.binds_exactly(large_functions_params(min_lines, opt_str_view(module_pattern), limit))
                    && #[trigger] db.answers(large_functions_query_text(opt_str_view(module_pattern), use_regex, include_generated), p, Err(e)) && message@ == e.message(),
            Ok(v) => first_invalid_pattern(use_regex, seq![opt_str_view(module_pattern)]) is None
                && exists|p: QueryParams, res: QueryResult| p.binds_exactly(large_functions_params(min_lines, opt_str_view(module_pattern), limit))
                    && #[trigger] db.answers(large_functions_query_text(opt_str_view(module_pattern), use_regex, include_generated), p, Ok(res))
                    && ({ let d = read_rows::<LargeFunction>(res.rows@); views(v@) == d }),
        },
{
    let pats: [Option<&str>; 1] = [module_pattern];
    assert(pattern_views(pats@) =~= seq![opt_str_view(module_pattern)]);
    match validate_regex_patterns(use_regex, &pats) {
        Err(p) => {
            return Err(LargeFunctionsError::InvalidRegex { pattern: p });
        },
        Ok(()) => {},
    }
    let (query, params) = large_functions_query(min_lines, module_pattern, use_regex, include_generated, limit);
    let ghost gp = params;
    match db.execute_query(query.as_str(), params) {
        Ok(res) => {
            let v = decode_rows::<LargeFunction>(&res.rows);
            let out = v;
            assert(db.answers(query@, gp, Ok(res)));
            Ok(out)
        },
        Err(e) => {
            let ghost ge = e;
            let message = e.to_string();
            assert(db.answers(query@, gp, Err(ge)));
            Err(LargeFunctionsError::QueryFailed { message })
        },
    }
}



/// The parameters of the CozoDB script.
pub open spec fn large_functions_cozo_params(project: Seq<char>, min_lines: i64, module_pattern: Option<Seq<char>>) -> Map<Seq<char>, ParamView> {
    let m = Map::<Seq<char>, ParamView>::empty();
    let m = m.insert("project"@, ParamView::Str(project));
    let m = m.insert("min_lines"@, ParamView::Int(min_lines));
    match module_pattern { Some(mp) => m.insert("module_pattern"@, ParamView::Str(mp)), None => m }
}

/// The CozoDB script for the given options.
pub open spec fn large_functions_cozo_text(module_pattern: Option<Seq<char>>, use_regex: bool, include_generated: bool, limit: u32) -> Seq<char> {
    r#"
        ?[module, name, arity, start_line, end_line, lines, file, generated_by] :=
            *function_locations{project, module, name, arity, line, start_line, end_line, file, generated_by},
            project == $project,
            lines = end_line - start_line + 1,
            lines >= $min_lines
            "#@
        + (cozo_module_cond(module_pattern is Some, use_regex))
        + r#"
            "#@
        + (if include_generated { ""@ } else { ", generated_by == \"\""@ })
        + r#"

        :order -lines, module, name
        :limit "#@
        + (decimal_int(limit as int))
        + r#"
        "#@
}

/// Builds the CozoDB script and its parameters.
pub fn large_functions_cozo_script(min_lines: i64, module_pattern: Option<&str>, project: &str, use_regex: bool, include_generated: bool, limit: u32) -> (r: (String, QueryParams))
    ensures
        r.0@ == large_functions_cozo_text(opt_str_view(module_pattern), use_regex, include_generated, limit),
        r.1.binds_exactly(large_functions_cozo_params(project@, min_lines, opt_str_view(module_pattern))),
{
    let generated_filter: &str = if include_generated { "" } else { ", generated_by == \"\"" };
    let mut query = String::new();
    query.append(r#"
        ?[module, name, arity, start_line, end_line, lines, file, generated_by] :=
            *function_locations{project, module, name, arity, line, start_line, end_line, file, generated_by},
            project == $project,
            lines = end_line - start_line + 1,
            lines >= $min_lines
            "#);
    push_cozo_module_cond(&mut query, module_pattern.is_some(), use_regex);
    query.append(r#"
            "#);
    query.append(generated_filter);
    query.append(r#"

        :order -lines, module, name
        :limit "#);
    push_decimal(&mut query, limit as i64);
    query.append(r#"
        "#);
    let mut params = QueryParams::new();
    params = params.with_str("project", project);
    params = params.with_int("min_lines", min_lines);
    match module_pattern {
        Some(mp) => {
            params = params.with_str("module_pattern", mp);
        },
        None => {},
    }
    assert(query@ =~= large_functions_cozo_text(opt_str_view(module_pattern), use_regex, include_generated, limit));
    (query, params)
}

impl CozoRecord for LargeFunction {
    open spec fn read_cozo(row: Seq<Value>) -> Option<LargeFunctionView> {
        if row.len() >= 8 {
            match (cell_text(row, 0), cell_text(row, 1), cell_text(row, 6), cell_text(row, 7)) {
                (Some(v_module), Some(v_name), Some(v_file), Some(v_generated_by)) => Some(LargeFunctionView { module: v_module, name: v_name, arity: cell_int_or(row, 2, 0), start_line: cell_int_or(row, 3, 0), end_line: cell_int_or(row, 4, 0), lines: cell_int_or(row, 5, 0), file: v_file, generated_by: v_generated_by }),
                _ => None,
            }
        } else {
            None
        }
    }

    fn from_cozo_row(row: &Row) -> (r: Option<LargeFunction>) {
        if row.len() < 8 {
            return None;
        }
        let module = get_string(row, 0)?;
        let name = get_string(row, 1)?;
        let arity = get_i64_or(row, 2, 0);
        let start_line = get_i64_or(row, 3, 0);
        let end_line = get_i64_or(row, 4, 0);
        let lines = get_i64_or(row, 5, 0);
        let file = get_string(row, 6)?;
        let generated_by = get_string(row, 7)?;
        Some(LargeFunction { module, name, arity, start_line, end_line, lines, file, generated_by })
    }
}

/// Find large functions on CozoDB: the clauses of the project spanning at
/// least `min_lines` lines, within modules matching `module_pattern`, ordered
/// by size (largest first), module and name, at most `limit` of them, as the
/// script gives them.
pub fn find_large_functions_cozo<D: Database + ?Sized>(db: &D, min_lines: i64, module_pattern: Option<&str>, project: &str, use_regex: bool, include_generated: bool, limit: u32) -> (r: Result<Vec<LargeFunction>, LargeFunctionsError>)
    ensures
        match r {
            Err(LargeFunctionsError::InvalidRegex { pattern: bad }) => first_invalid_pattern(use_regex, seq![opt_str_view(module_pattern)]) == Some(bad@),
            Err(LargeFunctionsError::QueryFailed { message }) => first_invalid_pattern(use_regex, seq![opt_str_view(module_pattern)]) is None
                && exists|p: QueryParams, e: DbError| p.binds_exactly(large_functions_cozo_params(project@, min_lines, opt_str_view(module_pattern)))
                    && #[trigger] db.answers(large_functions_cozo_text(opt_str_view(module_pattern), use_regex, include_generated, limit), p, Err(e)) && message@ == e.message(),
            Ok(v) => first_invalid_pattern(use_regex, seq![opt_str_view(module_pattern)]) is None
                && exists|p: QueryParams, res: QueryResult| p.binds_exactly(large_functions_cozo_params(project@, min_lines, opt_str_view(module_pattern)))
                    && #[trigger] db.answers(large_functions_cozo_text(opt_str_view(module_pattern), use_regex, include_generated, limit), p, Ok(res))
                    && views(v@) == read_cozo_rows::<LargeFunction>(res.rows@),
        },
{
    let pats: [Option<&str>; 1] = [module_pattern];
    assert(pattern_views(pats@) =~= seq![opt_str_view(module_pattern)]);
    match validate_regex_patterns(use_regex, &pats) {
        Err(p) => {
            return Err(LargeFunctionsError::InvalidRegex { pattern: p });
        },
        Ok(()) => {},
    }
    let (query, params) = large_functions_cozo_script(min_lines, module_pattern, project, use_regex, include_generated, limit);
    let ghost gp = params;
    match db.execute_query(query.as_str(), params) {
        Ok(res) => {
            let v = decode_cozo_rows::<LargeFunction>(&res.rows);
            assert(db.answers(query@, gp, Ok(res)));
            Ok(v)
        },
        Err(e) => {
            let ghost ge = e;
            let message = e.to_string();
            assert(db.answers(query@, gp, Err(ge)));
            Err(LargeFunctionsError::QueryFailed { message })
        },
    }
}

/// The columns of the query's answer, as SurrealDB gives them: the names
/// the query selects, in alphabetical order.
pub open spec fn large_functions_columns() -> Seq<Seq<char>> {
    seq!["arity"@, "end_line"@, "file"@, "function_name"@, "generated_by"@, "lines"@, "module_name"@, "start_line"@]
}

proof fn lemma_large_functions_columns_distinct()
    ensures
        distinct_names(large_functions_columns()),
{
    let c = large_functions_columns();
    reveal_strlit("arity");
    reveal_strlit("end_line");
    reveal_strlit("file");
    reveal_strlit("function_name");
    reveal_strlit("generated_by");
    reveal_strlit("lines");
    reveal_strlit("module_name");
    reveal_strlit("start_line");
    assert(c[0] == "arity"@);
    assert(c[1] == "end_line"@);
    assert(c[2] == "file"@);
    assert(c[3] == "function_name"@);
    assert(c[4] == "generated_by"@);
    assert(c[5] == "lines"@);
    assert(c[6] == "module_name"@);
    assert(c[7] == "start_line"@);
    assert(c[0].len() != c[1].len());
    assert(c[0] != c[1]);
    assert(c[0].len() != c[2].len());
    assert(c[0] != c[2]);
    assert(c[0].len() != c[3].len());
    assert(c[0] != c[3]);
    assert(c[0].len() != c[4].len());
    assert(c[0] != c[4]);
    assert(c[0][0] != c[5][0]);
    assert(c[0] != c[5]);
    assert(c[0].len() != c[6].len());
    assert(c[0] != c[6]);
    assert(c[0].len() != c[7].len());
    assert(c[0] != c[7]);
    assert(c[1].len() != c[2].len());
    assert(c[1] != c[2]);
    assert(c[1].len() != c[3].len());
    assert(c[1] != c[3]);
    assert(c[1].len() != c[4].len());
    assert(c[1] != c[4]);
    assert(c[1].len() != c[5].len());
    assert(c[1] != c[5]);
    assert(c[1].len() != c[6].len());
    assert(c[1] != c[6]);
    assert(c[1].len() != c[7].len());
    assert(c[1] != c[7]);
    assert(c[2].len() != c[3].len());
    assert(c[2] != c[3]);
    assert(c[2].len() != c[4].len());
    assert(c[2] != c[4]);
    assert(c[2].len() != c[5].len());
    assert(c[2] != c[5]);
    assert(c[2].len() != c[6].len());
    assert(c[2] != c[6]);
    assert(c[2].len() != c[7].len());
    assert(c[2] != c[7]);
    assert(c[3].len() != c[4].len());
    assert(c[3] != c[4]);
    assert(c[3].len() != c[5].len());
    assert(c[3] != c[5]);
    assert(c[3].len() != c[6].len());
    assert(c[3] != c[6]);
    assert(c[3].len() != c[7].len());
    assert(c[3] != c[7]);
    assert(c[4].len() != c[5].len());
    assert(c[4] != c[5]);
    assert(c[4].len() != c[6].len());
    assert(c[4] != c[6]);
    assert(c[4].len() != c[7].len());
    assert(c[4] != c[7]);
    assert(c[5].len() != c[6].len());
    assert(c[5] != c[6]);
    assert(c[5].len() != c[7].len());
    assert(c[5] != c[7]);
    assert(c[6].len() != c[7].len());
    assert(c[6] != c[7]);
    assert forall|i: int, j: int| 0 <= i < c.len() && 0 <= j < c.len() && i != j implies #[trigger] c[i] != #[trigger] c[j] by {
        assert(i == 0 || i == 1 || i == 2 || i == 3 || i == 4 || i == 5 || i == 6 || i == 7);
        assert(j == 0 || j == 1 || j == 2 || j == 3 || j == 4 || j == 5 || j == 6 || j == 7);
    }
}

/// Each field of a record read from a row of the answer is the value in the
/// column of that field's name; a row gives a record exactly when it has
/// every column and text in the columns `file`, `function_name`, `module_name`.
pub proof fn lemma_large_function_named_columns(row: Seq<Value>)
    ensures
        LargeFunction::read(row) is Some <==> (row.len() >= large_functions_columns().len() && text_at_column(large_functions_columns(), row, "file"@) && text_at_column(large_functions_columns(), row, "function_name"@) && text_at_column(large_functions_columns(), row, "module_name"@)),
        LargeFunction::read(row) matches Some(m) ==> {
            &&& text_in_column(large_functions_columns(), row, "module_name"@, m.module, ""@)
            &&& text_in_column(large_functions_columns(), row, "function_name"@, m.name, ""@)
            &&& int_in_column(large_functions_columns(), row, "arity"@, m.arity, 0)
            &&& int_in_column(large_functions_columns(), row, "start_line"@, m.start_line, 0)
            &&& int_in_column(large_functions_columns(), row, "end_line"@, m.end_line, 0)
            &&& int_in_column(large_functions_columns(), row, "lines"@, m.lines, 0)
            &&& text_in_column(large_functions_columns(), row, "file"@, m.file, ""@)
            &&& text_in_column(large_functions_columns(), row, "generated_by"@, m.generated_by, ""@)
        },
{
    lemma_large_functions_columns_distinct();
    let c = large_functions_columns();
    assert(c[0] == "arity"@);
    lemma_named_cell(c, row, 0);
    assert(c[1] == "end_line"@);
    lemma_named_cell(c, row, 1);
    assert(c[2] == "file"@);
    lemma_named_cell(c, row, 2);
    assert(c[3] == "function_name"@);
    lemma_named_cell(c, row, 3);
    assert(c[4] == "generated_by"@);
    lemma_named_cell(c, row, 4);
    assert(c[5] == "lines"@);
    lemma_named_cell(c, row, 5);
    assert(c[6] == "module_name"@);
    lemma_named_cell(c, row, 6);
    assert(c[7] == "start_line"@);
    lemma_named_cell(c, row, 7);
}

/// The columns of the script's answer: the head of its query rule, in order.
pub open spec fn large_functions_cozo_columns() -> Seq<Seq<char>> {
    seq!["module"@, "name"@, "arity"@, "start_line"@, "end_line"@, "lines"@, "file"@, "generated_by"@]
}

proof fn lemma_large_functions_cozo_columns_distinct()
    ensures
        distinct_names(large_functions_cozo_columns()),
{
    let c = large_functions_cozo_columns();
    reveal_strlit("module");
    reveal_strlit("name");
    reveal_strlit("arity");
    reveal_strlit("start_line");
    reveal_strlit("end_line");
    reveal_strlit("lines");
    reveal_strlit("file");
    reveal_strlit("generated_by");
    assert(c[0] == "module"@);
    assert(c[1] == "name"@);
    assert(c[2] == "arity"@);
    assert(c[3] == "start_line"@);
    assert(c[4] == "end_line"@);
    assert(c[5] == "lines"@);
    assert(c[6] == "file"@);
    assert(c[7] == "generated_by"@);
    assert(c[0].len() != c[1].len());
    assert(c[0] != c[1]);
    assert(c[0].len() != c[2].len());
    assert(c[0] != c[2]);
    assert(c[0].len() != c[3].len());
    assert(c[0] != c[3]);
    assert(c[0].len() != c[4].len());
    assert(c[0] != c[4]);
    assert(c[0].len() != c[5].len());
    assert(c[0] != c[5]);
    assert(c[0].len() != c[6].len());
    assert(c[0] != c[6]);
    assert(c[0].len() != c[7].len());
    assert(c[0] != c[7]);
    assert(c[1].len() != c[2].len());
    assert(c[1] != c[2]);
    assert(c[1].len() != c[3].len());
    assert(c[1] != c[3]);
    assert(c[1].len() != c[4].len());
    assert(c[1] != c[4]);
    assert(c[1].len() != c[5].len());
    assert(c[1] != c[5]);
    assert(c[1][0] != c[6][0]);
    assert(c[1] != c[6]);
    assert(c[1].len() != c[7].len());
    assert(c[1] != c[7]);
    assert(c[2].len() != c[3].len());
    assert(c[2] != c[3]);
    assert(c[2].len() != c[4].len());
    assert(c[2] != c[4]);
    assert(c[2][0] != c[5][0]);
    assert(c[2] != c[5]);
    assert(c[2].len() != c[6].len());
    assert(c[2] != c[6]);
    assert(c[2].len() != c[7].len());
    assert(c[2] != c[7]);
    assert(c[3].len() != c[4].len());
    assert(c[3] != c[4]);
    assert(c[3].len() != c[5].len());
    assert(c[3] != c[5]);
    assert(c[3].len() != c[6].len());
    assert(c[3] != c[6]);
    assert(c[3].len() != c[7].len());
    assert(c[3] != c[7]);
    assert(c[4].len() != c[5].len());
    assert(c[4] != c[5]);
    assert(c[4].len() != c[6].len());
    assert(c[4] != c[6]);
    assert(c[4].len() != c[7].len());
    assert(c[4] != c[7]);
    assert(c[5].len() != c[6].len());
    assert(c[5] != c[6]);
    assert(c[5].len() != c[7].len());
    assert(c[5] != c[7]);
    assert(c[6].len() != c[7].len());
    assert(c[6] != c[7]);
    assert forall|i: int, j: int| 0 <= i < c.len() && 0 <= j < c.len() && i != j implies #[trigger] c[i] != #[trigger] c[j] by {
        assert(i == 0 || i == 1 || i == 2 || i == 3 || i == 4 || i == 5 || i == 6 || i == 7);
        assert(j == 0 || j == 1 || j == 2 || j == 3 || j == 4 || j == 5 || j == 6 || j == 7);
    }
}

/// Each field of a record read from a row of the answer is the value in the
/// column of that field's name; a row gives a record exactly when it has
/// every column and text in the columns `module`, `name`, `file`, `generated_by`.
pub proof fn lemma_large_function_cozo_named_columns(row: Seq<Value>)
    ensures
        LargeFunction::read_cozo(row) is Some <==> (row.len() >= large_functions_cozo_columns().len() && text_at_column(large_functions_cozo_columns(), row, "module"@) && text_at_column(large_functions_cozo_columns(), row, "name"@) && text_at_column(large_functions_cozo_columns(), row, "file"@) && text_at_column(large_functions_cozo_columns(), row, "generated_by"@)),
        LargeFunction::read_cozo(row) matches Some(m) ==> {
            &&& text_in_column(large_functions_cozo_columns(), row, "module"@, m.module, ""@)
            &&& text_in_column(large_functions_cozo_columns(), row, "name"@, m.name, ""@)
            &&& int_in_column(large_functions_cozo_columns(), row, "arity"@, m.arity, 0)
            &&& int_in_column(large_functions_cozo_columns(), row, "start_line"@, m.start_line, 0)
            &&& int_in_column(large_functions_cozo_columns(), row, "end_line"@, m.end_line, 0)
            &&& int_in_column(large_functions_cozo_columns(), row, "lines"@, m.lines, 0)
            &&& text_in_column(large_functions_cozo_columns(), row, "file"@, m.file, ""@)
            &&& text_in_column(large_functions_cozo_columns(), row, "generated_by"@, m.generated_by, ""@)
        },
{
    lemma_large_functions_cozo_columns_distinct();
    let c = large_functions_cozo_columns();
    assert(c[0] == "module"@);
    lemma_named_cell(c, row, 0);
    assert(c[1] == "name"@);
    lemma_named_cell(c, row, 1);
    assert(c[2] == "arity"@);
    lemma_named_cell(c, row, 2);
    assert(c[3] == "start_line"@);
    lemma_named_cell(c, row, 3);
    assert(c[4] == "end_line"@);
    lemma_named_cell(c, row, 4);
    assert(c[5] == "lines"@);
    lemma_named_cell(c, row, 5);
    assert(c[6] == "file"@);
    lemma_named_cell(c, row, 6);
    assert(c[7] == "generated_by"@);
    lemma_named_cell(c, row, 7);
}

/// The query binds each of its parameters to the input of that name, and binds an optional one exactly when it is given.
pub proof fn lemma_large_functions_params_bind_inputs(min_lines: i64, module_pattern: Option<Seq<char>>, limit: u32)
    ensures
        ({
            let m = large_functions_params(min_lines, module_pattern, limit);
            &&& m.dom().contains("min_lines"@) && m["min_lines"@] == ParamView::Int(min_lines)
            &&& match module_pattern { Some(v) => m.dom().contains("module_pattern"@) && m["module_pattern"@] == ParamView::Str(v), None => !m.dom().contains("module_pattern"@) }
            &&& m.dom().contains("limit"@) && m["limit"@] == ParamView::Int(limit as i64)
        }),
{
    reveal_strlit("min_lines");
    reveal_strlit("module_pattern");
    reveal_strlit("limit");
    assert("min_lines"@.len() != "module_pattern"@.len());
    assert("min_lines"@.len() != "limit"@.len());
    assert("module_pattern"@.len() != "limit"@.len());
}

/// The query binds each of its parameters to the input of that name, and binds an optional one exactly when it is given.
pub proof fn lemma_large_functions_cozo_params_bind_inputs(project: Seq<char>, min_lines: i64, module_pattern: Option<Seq<char>>)
    ensures
        ({
            let m = large_functions_cozo_params(project, min_lines, module_pattern);
            &&& m.dom().contains("project"@) && m["project"@] == ParamView::Str(project)
            &&& m.dom().contains("min_lines"@) && m["min_lines"@] == ParamView::Int(min_lines)
            &&& match module_pattern { Some(v) => m.dom().contains("module_pattern"@) && m["module_pattern"@] == ParamView::Str(v), None => !m.dom().contains("module_pattern"@) }
        }),
{
    reveal_strlit("project");
    reveal_strlit("min_lines");
    reveal_strlit("module_pattern");
    assert("project"@.len() != "min_lines"@.len());
    assert("project"@.len() != "module_pattern"@.len());
    assert("min_lines"@.len() != "module_pattern"@.len());
}

/// The query's first condition keeps the clauses spanning at least the
/// `min_lines` parameter lines, counting both ends.
pub proof fn lemma_large_functions_min_lines_condition(module_pattern: Option<Seq<char>>, use_regex: bool, include_generated: bool)
    ensures
        large_functions_conditions(module_pattern, use_regex, include_generated).len() >= 1,
        large_functions_conditions(module_pattern, use_regex, include_generated)[0] == "end_line - start_line + 1 >= $min_lines"@,
{
}

/// The columns are in ascending order of their names, as SurrealDB gives them.
pub proof fn lemma_large_functions_columns_ascending()
    ensures
        names_ascending(large_functions_columns()),
{
    let c = large_functions_columns();
    reveal_strlit("arity");
    reveal_strlit("end_line");
    reveal_strlit("file");
    reveal_strlit("function_name");
    reveal_strlit("generated_by");
    reveal_strlit("lines");
    reveal_strlit("module_name");
    reveal_strlit("start_line");
    assert(c[0] == "arity"@ && c[1] == "end_line"@);
    assert((c[0][0] as int) < (c[1][0] as int));
    lemma_lex_less(c[0], c[1], 0);
    assert(c[1] == "end_line"@ && c[2] == "file"@);
    assert((c[1][0] as int) < (c[2][0] as int));
    lemma_lex_less(c[1], c[2], 0);
    assert(c[2] == "file"@ && c[3] == "function_name"@);
    assert(c[2].subrange(0, 1) =~= c[3].subrange(0, 1));
    assert forall|i: int| 0 <= i < 1 implies c[2][i] == c[3][i] by { assert(c[2][i] == c[2].subrange(0, 1)[i]); assert(c[3][i] == c[3].subrange(0, 1)[i]); }
    assert((c[2][1] as int) < (c[3][1] as int));
    lemma_lex_less(c[2], c[3], 1);
    assert(c[3] == "function_name"@ && c[4] == "generated_by"@);
    assert((c[3][0] as int) < (c[4][0] as int));
    lemma_lex_less(c[3], c[4], 0);
    assert(c[4] == "generated_by"@ && c[5] == "lines"@);
    assert((c[4][0] as int) < (c[5][0] as int));
    lemma_lex_less(c[4], c[5], 0);
    assert(c[5] == "lines"@ && c[6] == "module_name"@);
    assert((c[5][0] as int) < (c[6][0] as int));
    lemma_lex_less(c[5], c[6], 0);
    assert(c[6] == "module_name"@ && c[7] == "start_line"@);
    assert((c[6][0] as int) < (c[7][0] as int));
    lemma_lex_less(c[6], c[7], 0);
    assert forall|k: int| 0 <= k < c.len() - 1 implies lex_order(#[trigger] c[k], c[k + 1]) < 0 by {
        assert(k == 0 || k == 1 || k == 2 || k == 3 || k == 4 || k == 5 || k == 6);
    }
    lemma_names_ascending_from_adjacent(c);
}

/// The script's answer has the columns `large_functions_cozo_columns` lists: they are the head of
/// its query rule.
pub proof fn lemma_large_functions_cozo_columns_head(module_pattern: Option<Seq<char>>, use_regex: bool, include_generated: bool, limit: u32)
    ensures
        contains_seq(large_functions_cozo_text(module_pattern, use_regex, include_generated, limit), "?["@ + joined(large_functions_cozo_columns(), ", "@) + "]"@),
{
    let c = large_functions_cozo_columns();
    reveal_strlit(", ");
    reveal_strlit("module");
    reveal_strlit("name");
    reveal_strlit("arity");
    reveal_strlit("start_line");
    reveal_strlit("end_line");
    reveal_strlit("lines");
    reveal_strlit("file");
    reveal_strlit("generated_by");
    assert(c.take(1)[0] == c[0]);
    assert(joined(c.take(1), ", "@) =~= "module"@);
    reveal_strlit("module, name");
    assert(c.take(2).drop_last() =~= c.take(1));
    assert(c.take(2).last() == c[1]);
    assert(joined(c.take(2), ", "@) =~= "module, name"@);
    reveal_strlit("module, name, arity");
    assert(c.take(3).drop_last() =~= c.take(2));
    assert(c.take(3).last() == c[2]);
    assert(joined(c.take(3), ", "@) =~= "module, name, arity"@);
    reveal_strlit("module, name, arity, start_line");
    assert(c.take(4).drop_last() =~= c.take(3));
    assert(c.take(4).last() == c[3]);
    assert(joined(c.take(4), ", "@) =~= "module, name, arity, start_line"@);
    reveal_strlit("module, name, arity, start_line, end_line");
    assert(c.take(5).drop_last() =~= c.take(4));
    assert(c.take(5).last() == c[4]);
    assert(joined(c.take(5), ", "@) =~= "module, name, arity, start_line, end_line"@);
    reveal_strlit("module, name, arity, start_line, end_line, lines");
    assert(c.take(6).drop_last() =~= c.take(5));
    assert(c.take(6).last() == c[5]);
    assert(joined(c.take(6), ", "@) =~= "module, name, arity, start_line, end_line, lines"@);
    reveal_strlit("module, name, arity, start_line, end_line, lines, file");
    assert(c.take(7).drop_last() =~= c.take(6));
    assert(c.take(7).last() == c[6]);
    assert(joined(c.take(7), ", "@) =~= "module, name, arity, start_line, end_line, lines, file"@);
    reveal_strlit("module, name, arity, start_line, end_line, lines, file, generated_by");
    assert(c.take(8).drop_last() =~= c.take(7));
    assert(c.take(8).last() == c[7]);
    assert(joined(c.take(8), ", "@) =~= "module, name, arity, start_line, end_line, lines, file, generated_by"@);
    assert(c.take(8) =~= c);
    reveal_strlit("?[");
    reveal_strlit("]");
    reveal_strlit("?[module, name, arity, start_line, end_line, lines, file, generated_by]");
    assert(("?["@ + joined(c, ", "@) + "]"@) =~= "?[module, name, arity, start_line, end_line, lines, file, generated_by]"@);
    reveal_strlit(r#"
        ?[module, name, arity, start_line, end_line, lines, file, generated_by] :=
            *function_locations{project, module, name, arity, line, start_line, end_line, file, generated_by},
            project == $project,
            lines = end_line - start_line + 1,
            lines >= $min_lines
            "#);
    let t = large_functions_cozo_text(module_pattern, use_regex, include_generated, limit);
    let l = r#"
        ?[module, name, arity, start_line, end_line, lines, file, generated_by] :=
            *function_locations{project, module, name, arity, line, start_line, end_line, file, generated_by},
            project == $project,
            lines = end_line - start_line + 1,
            lines >= $min_lines
            "#@;
    assert(t =~= Seq::<char>::empty() + l + t.subrange(l.len() as int, t.len() as int));
    assert(l.subrange(9, 80) =~= "?[module, name, arity, start_line, end_line, lines, file, generated_by]"@);
    lemma_contains_piece(Seq::<char>::empty(), l, t.subrange(l.len() as int, t.len() as int), 9, "?[module, name, arity, start_line, end_line, lines, file, generated_by]"@);
}

} // verus!
