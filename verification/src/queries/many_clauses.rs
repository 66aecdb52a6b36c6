//! Finding functions with many clauses.

use vstd::prelude::*;
use crate::query_builders::{cozo_match, cozo_module_cond, push_cozo_match, push_cozo_module_cond};
use crate::text::{decimal_int, push_decimal};
use crate::text::{string_views, push_text, where_text, where_clause, contains_seq, lemma_contains_piece};
use crate::backend::{Database, QueryParams, QueryResult, Row, Value, ParamView, ValueType};
use crate::db::{DbError, cell_text, cell_text_or, cell_int_or, get_string, get_string_or, get_i64_or};
use crate::query_builders::{validate_regex_patterns, first_invalid_pattern, opt_str_view, pattern_views};
use crate::queries::rows::{CozoRecord, read_cozo_rows, decode_cozo_rows, RowRecord, views, read_rows, decode_rows, distinct_names, int_in_column, text_in_column, text_at_column, lemma_named_cell};


use crate::backend::surreal_rows::{names_ascending, lemma_names_ascending_from_adjacent};
use crate::text::{lex_order, lemma_lex_less};

verus! {

/// Errors of the query.
#[derive(Debug)]
pub enum ManyClausesError {
    QueryFailed { message: String },
    InvalidRegex { pattern: String },
}

impl ManyClausesError {
    /// The error's text.
    pub open spec fn message(&self) -> Seq<char> {
        match self {
            ManyClausesError::QueryFailed { message } => "Many clauses query failed: "@ + message@,
            ManyClausesError::InvalidRegex { pattern } => "Invalid regex pattern: "@ + pattern@,
        }
    }

    /// The error's text (what `Display` writes).
    pub fn to_string(&self) -> (r: String)
        ensures
            r@ == self.message(),
    {
        let mut r = String::new();
        match self {
            ManyClausesError::QueryFailed { message } => {
                r.append("Many clauses query failed: ");
                r.append(message.as_str());
            },
            ManyClausesError::InvalidRegex { pattern } => {
                r.append("Invalid regex pattern: ");
                r.append(pattern.as_str());
            },
        }
        r
    }
}

/// A function with its number of clauses
#[derive(Debug, Clone)]
pub struct ManyClauses {
    pub module: String,
    pub name: String,
    pub arity: i64,
    pub clauses: i64,
    pub first_line: i64,
    pub last_line: i64,
    pub file: String,
    pub generated_by: String,
}

/// What a `ManyClauses` holds, as plain values.
pub struct ManyClausesView {
    pub module: Seq<char>,
    pub name: Seq<char>,
    pub arity: i64,
    pub clauses: i64,
    pub first_line: i64,
    pub last_line: i64,
    pub file: Seq<char>,
    pub generated_by: Seq<char>,
}

impl View for ManyClauses {
    type V = ManyClausesView;

    open spec fn view(&self) -> ManyClausesView {
        ManyClausesView {
            module: self.module@,
            name: self.name@,
            arity: self.arity,
            clauses: self.clauses,
            first_line: self.first_line,
            last_line: self.last_line,
            file: self.file@,
            generated_by: self.generated_by@,
        }
    }
}

impl RowRecord for ManyClauses {
    open spec fn read(row: Seq<Value>) -> Option<ManyClausesView> {
        if row.len() >= 8 {
            match (cell_text(row, 2), cell_text(row, 4), cell_text(row, 7)) {
                (Some(v_file), Some(v_name), Some(v_module)) => Some(ManyClausesView { module: v_module, name: v_name, arity: cell_int_or(row, 0, 0), clauses: cell_int_or(row, 1, 0), first_line: cell_int_or(row, 3, 0), last_line: cell_int_or(row, 6, 0), file: v_file, generated_by: cell_text_or(row, 5, ""@) }),
                _ => None,
            }
        } else {
            None
        }
    }

    fn from_row(row: &Row) -> (r: Option<ManyClauses>) {
        if row.len() < 8 {
            return None;
        }
        let module = get_string(row, 7)?;
        let name = get_string(row, 4)?;
        let arity = get_i64_or(row, 0, 0);
        let clauses = get_i64_or(row, 1, 0);
        let first_line = get_i64_or(row, 3, 0);
        let last_line = get_i64_or(row, 6, 0);
        let file = get_string(row, 2)?;
        let generated_by = get_string_or(row, 5, "");
        Some(ManyClauses { module, name, arity, clauses, first_line, last_line, file, generated_by })
    }
}

/// The filters of the query, in order.
pub open spec fn many_clauses_conditions(module_pattern: Option<Seq<char>>, use_regex: bool, include_generated: bool) -> Seq<Seq<char>> {
    (if module_pattern is Some && use_regex { seq!["string::matches(module_name, $module_pattern)"@] } else if module_pattern is Some { seq!["module_name = $module_pattern"@] } else { Seq::empty() })
        + (if !include_generated { seq![r#"(generated_by IS NONE OR generated_by = "")"#@] } else { Seq::empty() })
}

fn many_clauses_conditions_of(module_pattern: Option<&str>, use_regex: bool, include_generated: bool) -> (r: Vec<String>)
    ensures
        string_views(r@) == many_clauses_conditions(opt_str_view(module_pattern), use_regex, include_generated),
{
    let mut conditions: Vec<String> = Vec::new();
    let ghost start = string_views(conditions@);
    if module_pattern.is_some() && use_regex {
        push_text(&mut conditions, "string::matches(module_name, $module_pattern)");
    } else if module_pattern.is_some() {
        push_text(&mut conditions, "module_name = $module_pattern");
    }
    if !include_generated {
        push_text(&mut conditions, r#"(generated_by IS NONE OR generated_by = "")"#);
    }
    assert(string_views(conditions@) =~= many_clauses_conditions(opt_str_view(module_pattern), use_regex, include_generated));
    conditions
}

/// The query text for the given filters.
pub open spec fn many_clauses_query_text(module_pattern: Option<Seq<char>>, use_regex: bool, include_generated: bool) -> Seq<char> {
    r#"
        SELECT * FROM (
            SELECT
                module_name,
                function_name,
                arity,
                count() as clauses,
                math::min(start_line) as first_line,
                math::max(end_line) as last_line,
                source_file as file,
                generated_by
            FROM clauses
            "#@
        + where_text("WHERE "@, many_clauses_conditions(module_pattern, use_regex, include_generated))
        + r#"
            GROUP BY module_name, function_name, arity, source_file, generated_by
        ) WHERE clauses >= $min_clauses
        ORDER BY clauses DESC, module_name, function_name
        LIMIT $limit
        "#@
}

/// The parameters of the query.
pub open spec fn many_clauses_params(min_clauses: i64, module_pattern: Option<Seq<char>>, limit: u32) -> Map<Seq<char>, ParamView> {
    let m = Map::<Seq<char>, ParamView>::empty();
    let m = m.insert("min_clauses"@, ParamView::Int(min_clauses));
    let m = m.insert("limit"@, ParamView::Int(limit as i64));
    let m = match module_pattern { Some(mp) => m.insert("module_pattern"@, ParamView::Str(mp)), None => m };
    m
}

/// Builds the query text and parameters.
pub fn many_clauses_query(min_clauses: i64, module_pattern: Option<&str>, use_regex: bool, include_generated: bool, limit: u32) -> (r: (String, QueryParams))
    ensures
        r.0@ == many_clauses_query_text(opt_str_view(module_pattern), use_regex, include_generated),
        r.1.binds_exactly(many_clauses_params(min_clauses, opt_str_view(module_pattern), limit)),
{
    let mut query = String::new();
    query.append(r#"
        SELECT * FROM (
            SELECT
                module_name,
                function_name,
                arity,
                count() as clauses,
                math::min(start_line) as first_line,
                math::max(end_line) as last_line,
                source_file as file,
                generated_by
            FROM clauses
            "#);
    let conditions = many_clauses_conditions_of(module_pattern, use_regex, include_generated);
    let part_where_in_subquery = where_clause("WHERE ", &conditions);
    query.append(part_where_in_subquery.as_str());
    query.append(r#"
            GROUP BY module_name, function_name, arity, source_file, generated_by
        ) WHERE clauses >= $min_clauses
        ORDER BY clauses DESC, module_name, function_name
        LIMIT $limit
        "#);
    let mut params = QueryParams::new();
    params = params.with_int("min_clauses", min_clauses);
    params = params.with_int("limit", limit as i64);
    match module_pattern {
        Some(mp) => {
            params = params.with_str("module_pattern", mp);
        },
        None => {},
    }
    (query, params)
}

/// Find the functions with at least `min_clauses` clauses (in the modules
/// matching the pattern when given; generated code only when asked), most
/// clauses first.
pub fn find_many_clauses<D: Database + ?Sized>(db: &D, min_clauses: i64, module_pattern: Option<&str>, _project: &str, use_regex: bool, include_generated: bool, limit: u32) -> (r: Result<Vec<ManyClauses>, ManyClausesError>)
    ensures
        match r {
            Err(ManyClausesError::InvalidRegex { pattern: bad }) => first_invalid_pattern(use_regex, seq![opt_str_view(module_pattern)]) == Some(bad@),
            Err(ManyClausesError::QueryFailed { message }) => first_invalid_pattern(use_regex, seq![opt_str_view(module_pattern)]) is None
                && exists|p: QueryParams, e: DbError| p.binds_exactly(many_clauses_params(min_clauses, opt_str_view(module_pattern), limit))
                    && #[trigger] db.answers(many_clauses_query_text(opt_str_view(module_pattern), use_regex, include_generated), p, Err(e)) && message@ == e.message(),
            Ok(v) => first_invalid_pattern(use_regex, seq![opt_str_view(module_pattern)]) is None
                && exists|p: QueryParams, res: QueryResult| p.binds_exactly(many_clauses_params(min_clauses, opt_str_view(module_pattern), limit))
                    && #[trigger] db.answers(many_clauses_query_text(opt_str_view(module_pattern), use_regex, include_generated), p, Ok(res))
                    && ({ let d = read_rows::<ManyClauses>(res.rows@); views(v@) == d }),
        },
{
    let pats: [Option<&str>; 1] = [module_pattern];
    assert(pattern_views(pats@) =~= seq![opt_str_view(module_pattern)]);
    match validate_regex_patterns(use_regex, &pats) {
        Err(p) => {
            return Err(ManyClausesError::InvalidRegex { pattern: p });
        },
        Ok(()) => {},
    }
    let (query, params) = many_clauses_query(min_clauses, module_pattern, use_regex, include_generated, limit);
    let ghost gp = params;
    match db.execute_query(query.as_str(), params) {
        Ok(res) => {
            let v = decode_rows::<ManyClauses>(&res.rows);
            let out = v;
            assert(db.answers(query@, gp, Ok(res)));
            Ok(out)
        },
        Err(e) => {
            let ghost ge = e;
            let message = e.to_string();
            assert(db.answers(query@, gp, Err(ge)));
            Err(ManyClausesError::QueryFailed { message })
        },
    }
}



/// The parameters of the CozoDB script.
pub open spec fn many_clauses_cozo_params(project: Seq<char>, min_clauses: i64, module_pattern: Option<Seq<char>>) -> Map<Seq<char>, ParamView> {
    let m = Map::<Seq<char>, ParamView>::empty();
    let m = m.insert("project"@, ParamView::Str(project));
    let m = m.insert("min_clauses"@, ParamView::Int(min_clauses));
    match module_pattern { Some(mp) => m.insert("module_pattern"@, ParamView::Str(mp)), None => m }
}

/// The CozoDB script for the given options.
pub open spec fn many_clauses_cozo_text(module_pattern: Option<Seq<char>>, use_regex: bool, include_generated: bool, limit: u32) -> Seq<char> {
    r#"
        clause_counts[module, name, arity, count(line), min(start_line), max(end_line), file, generated_by] :=
            *function_locations{project, module, name, arity, line, start_line, end_line, file, generated_by},
            project == $project
            "#@
        + (cozo_module_cond(module_pattern is Some, use_regex))
        + r#"
            "#@
        + (if include_generated { ""@ } else { ", generated_by == \"\""@ })
        + r#"

        ?[module, name, arity, clauses, first_line, last_line, file, generated_by] :=
            clause_counts[module, name, arity, clauses, first_line, last_line, file, generated_by],
            clauses >= $min_clauses

        :order -clauses, module, name
        :limit "#@
        + (decimal_int(limit as int))
        + r#"
        "#@
}

/// Builds the CozoDB script and its parameters.
pub fn many_clauses_cozo_script(min_clauses: i64, module_pattern: Option<&str>, project: &str, use_regex: bool, include_generated: bool, limit: u32) -> (r: (String, QueryParams))
    ensures
        r.0@ == many_clauses_cozo_text(opt_str_view(module_pattern), use_regex, include_generated, limit),
        r.1.binds_exactly(many_clauses_cozo_params(project@, min_clauses, opt_str_view(module_pattern))),
{
    let generated_filter: &str = if include_generated { "" } else { ", generated_by == \"\"" };
    let mut query = String::new();
    query.append(r#"
        clause_counts[module, name, arity, count(line), min(start_line), max(end_line), file, generated_by] :=
            *function_locations{project, module, name, arity, line, start_line, end_line, file, generated_by},
            project == $project
            "#);
    push_cozo_module_cond(&mut query, module_pattern.is_some(), use_regex);
    query.append(r#"
            "#);
    query.append(generated_filter);
    query.append(r#"

        ?[module, name, arity, clauses, first_line, last_line, file, generated_by] :=
            clause_counts[module, name, arity, clauses, first_line, last_line, file, generated_by],
            clauses >= $min_clauses

        :order -clauses, module, name
        :limit "#);
    push_decimal(&mut query, limit as i64);
    query.append(r#"
        "#);
    let mut params = QueryParams::new();
    params = params.with_str("project", project);
    params = params.with_int("min_clauses", min_clauses);
    match module_pattern {
        Some(mp) => {
            params = params.with_str("module_pattern", mp);
        },
        None => {},
    }
    assert(query@ =~= many_clauses_cozo_text(opt_str_view(module_pattern), use_regex, include_generated, limit));
    (query, params)
}

impl CozoRecord for ManyClauses {
    open spec fn read_cozo(row: Seq<Value>) -> Option<ManyClausesView> {
        if row.len() >= 8 {
            match (cell_text(row, 0), cell_text(row, 1), cell_text(row, 6), cell_text(row, 7)) {
                (Some(v_module), Some(v_name), Some(v_file), Some(v_generated_by)) => Some(ManyClausesView { module: v_module, name: v_name, arity: cell_int_or(row, 2, 0), clauses: cell_int_or(row, 3, 0), first_line: cell_int_or(row, 4, 0), last_line: cell_int_or(row, 5, 0), file: v_file, generated_by: v_generated_by }),
                _ => None,
            }
        } else {
            None
        }
    }

    fn from_cozo_row(row: &Row) -> (r: Option<ManyClauses>) {
        if row.len() < 8 {
            return None;
        }
        let module = get_string(row, 0)?;
        let name = get_string(row, 1)?;
        let arity = get_i64_or(row, 2, 0);
        let clauses = get_i64_or(row, 3, 0);
        let first_line = get_i64_or(row, 4, 0);
        let last_line = get_i64_or(row, 5, 0);
        let file = get_string(row, 6)?;
        let generated_by = get_string(row, 7)?;
        Some(ManyClauses { module, name, arity, clauses, first_line, last_line, file, generated_by })
    }
}

/// Find functions with many clauses on CozoDB: the functions of the project
/// with at least `min_clauses` clauses, within modules matching
/// `module_pattern`, ordered by clause count (most first), module and name,
/// at most `limit` of them, as the script gives them.
pub fn find_many_clauses_cozo<D: Database + ?Sized>(db: &D, min_clauses: i64, module_pattern: Option<&str>, project: &str, use_regex: bool, include_generated: bool, limit: u32) -> (r: Result<Vec<ManyClauses>, ManyClausesError>)
    ensures
        match r {
            Err(ManyClausesError::InvalidRegex { pattern: bad }) => first_invalid_pattern(use_regex, seq![opt_str_view(module_pattern)]) == Some(bad@),
            Err(ManyClausesError::QueryFailed { message }) => first_invalid_pattern(use_regex, seq![opt_str_view(module_pattern)]) is None
                && exists|p: QueryParams, e: DbError| p.binds_exactly(many_clauses_cozo_params(project@, min_clauses, opt_str_view(module_pattern)))
                    && #[trigger] db.answers(many_clauses_cozo_text(opt_str_view(module_pattern), use_regex, include_generated, limit), p, Err(e)) && message@ == e.message(),
            Ok(v) => first_invalid_pattern(use_regex, seq![opt_str_view(module_pattern)]) is None
                && exists|p: QueryParams, res: QueryResult| p.binds_exactly(many_clauses_cozo_params(project@, min_clauses, opt_str_view(module_pattern)))
                    && #[trigger] db.answers(many_clauses_cozo_text(opt_str_view(module_pattern), use_regex, include_generated, limit), p, Ok(res))
                    && views(v@) == read_cozo_rows::<ManyClauses>(res.rows@),
        },
{
    let pats: [Option<&str>; 1] = [module_pattern];
    assert(pattern_views(pats@) =~= seq![opt_str_view(module_pattern)]);
    match validate_regex_patterns(use_regex, &pats) {
        Err(p) => {
            return Err(ManyClausesError::InvalidRegex { pattern: p });
        },
        Ok(()) => {},
    }
    let (query, params) = many_clauses_cozo_script(min_clauses, module_pattern, project, use_regex, include_generated, limit);
    let ghost gp = params;
    match db.execute_query(query.as_str(), params) {
        Ok(res) => {
            let v = decode_cozo_rows::<ManyClauses>(&res.rows);
            assert(db.answers(query@, gp, Ok(res)));
            Ok(v)
        },
        Err(e) => {
            let ghost ge = e;
            let message = e.to_string();
            assert(db.answers(query@, gp, Err(ge)));
            Err(ManyClausesError::QueryFailed { message })
        },
    }
}

/// The columns of the query's answer, as SurrealDB gives them: the names
/// the query selects, in alphabetical order.
pub open spec fn many_clauses_columns() -> Seq<Seq<char>> {
    seq!["arity"@, "clauses"@, "file"@, "first_line"@, "function_name"@, "generated_by"@, "last_line"@, "module_name"@]
}

proof fn lemma_many_clauses_columns_distinct()
    ensures
        distinct_names(many_clauses_columns()),
{
    let c = many_clauses_columns();
    reveal_strlit("arity");
    reveal_strlit("clauses");
    reveal_strlit("file");
    reveal_strlit("first_line");
    reveal_strlit("function_name");
    reveal_strlit("generated_by");
    reveal_strlit("last_line");
    reveal_strlit("module_name");
    assert(c[0] == "arity"@);
    assert(c[1] == "clauses"@);
    assert(c[2] == "file"@);
    assert(c[3] == "first_line"@);
    assert(c[4] == "function_name"@);
    assert(c[5] == "generated_by"@);
    assert(c[6] == "last_line"@);
    assert(c[7] == "module_name"@);
    assert(c[0].len() != c[1].len());
    assert(c[0] != c[1]);
    assert(c[0].len() != c[2].len());
    assert(c[0] != c[2]);
    assert(c[0].len() != c[3].len());
    assert(c[0] != c[3]);
    assert(c[0].len() != c[4].len());
    assert(c[0] != c[4]);
    assert(c[0].len() != c[5].len());
    assert(c[0] != c[5]);
    assert(c[0].len() != c[6].len());
    assert(c[0] != c[6]);
    assert(c[0].len() != c[7].len());
    assert(c[0] != c[7]);
    assert(c[1].len() != c[2].len());
    assert(c[1] != c[2]);
    assert(c[1].len() != c[3].len());
    assert(c[1] != c[3]);
    assert(c[1].len() != c[4].len());
    assert(c[1] != c[4]);
    assert(c[1].len() != c[5].len());
    assert(c[1] != c[5]);
    assert(c[1].len() != c[6].len());
    assert(c[1] != c[6]);
    assert(c[1].len() != c[7].len());
    assert(c[1] != c[7]);
    assert(c[2].len() != c[3].len());
    assert(c[2] != c[3]);
    assert(c[2].len() != c[4].len());
    assert(c[2] != c[4]);
    assert(c[2].len() != c[5].len());
    assert(c[2] != c[5]);
    assert(c[2].len() != c[6].len());
    assert(c[2] != c[6]);
    assert(c[2].len() != c[7].len());
    assert(c[2] != c[7]);
    assert(c[3].len() != c[4].len());
    assert(c[3] != c[4]);
    assert(c[3].len() != c[5].len());
    assert(c[3] != c[5]);
    assert(c[3].len() != c[6].len());
    assert(c[3] != c[6]);
    assert(c[3].len() != c[7].len());
    assert(c[3] != c[7]);
    assert(c[4].len() != c[5].len());
    assert(c[4] != c[5]);
    assert(c[4].len() != c[6].len());
    assert(c[4] != c[6]);
    assert(c[4].len() != c[7].len());
    assert(c[4] != c[7]);
    assert(c[5].len() != c[6].len());
    assert(c[5] != c[6]);
    assert(c[5].len() != c[7].len());
    assert(c[5] != c[7]);
    assert(c[6].len() != c[7].len());
    assert(c[6] != c[7]);
    assert forall|i: int, j: int| 0 <= i < c.len() && 0 <= j < c.len() && i != j implies #[trigger] c[i] != #[trigger] c[j] by {
        assert(i == 0 || i == 1 || i == 2 || i == 3 || i == 4 || i == 5 || i == 6 || i == 7);
        assert(j == 0 || j == 1 || j == 2 || j == 3 || j == 4 || j == 5 || j == 6 || j == 7);
    }
}

/// Each field of a record read from a row of the answer is the value in the
/// column of that field's name; a row gives a record exactly when it has
/// every column and text in the columns `file`, `function_name`, `module_name`.
pub proof fn lemma_many_clauses_named_columns(row: Seq<Value>)
    ensures
        ManyClauses::read(row) is Some <==> (row.len() >= many_clauses_columns().len() && text_at_column(many_clauses_columns(), row, "file"@) && text_at_column(many_clauses_columns(), row, "function_name"@) && text_at_column(many_clauses_columns(), row, "module_name"@)),
        ManyClauses::read(row) matches Some(m) ==> {
            &&& text_in_column(many_clauses_columns(), row, "module_name"@, m.module, ""@)
            &&& text_in_column(many_clauses_columns(), row, "function_name"@, m.name, ""@)
            &&& int_in_column(many_clauses_columns(), row, "arity"@, m.arity, 0)
            &&& int_in_column(many_clauses_columns(), row, "clauses"@, m.clauses, 0)
            &&& int_in_column(many_clauses_columns(), row, "first_line"@, m.first_line, 0)
            &&& int_in_column(many_clauses_columns(), row, "last_line"@, m.last_line, 0)
            &&& text_in_column(many_clauses_columns(), row, "file"@, m.file, ""@)
            &&& text_in_column(many_clauses_columns(), row, "generated_by"@, m.generated_by, ""@)
        },
{
    lemma_many_clauses_columns_distinct();
    let c = many_clauses_columns();
    assert(c[0] == "arity"@);
    lemma_named_cell(c, row, 0);
    assert(c[1] == "clauses"@);
    lemma_named_cell(c, row, 1);
    assert(c[2] == "file"@);
    lemma_named_cell(c, row, 2);
    assert(c[3] == "first_line"@);
    lemma_named_cell(c, row, 3);
    assert(c[4] == "function_name"@);
    lemma_named_cell(c, row, 4);
    assert(c[5] == "generated_by"@);
    lemma_named_cell(c, row, 5);
    assert(c[6] == "last_line"@);
    lemma_named_cell(c, row, 6);
    assert(c[7] == "module_name"@);
    lemma_named_cell(c, row, 7);
}

/// The columns of the script's answer: the head of its query rule, in order.
pub open spec fn many_clauses_cozo_columns() -> Seq<Seq<char>> {
    seq!["module"@, "name"@, "arity"@, "clauses"@, "first_line"@, "last_line"@, "file"@, "generated_by"@]
}

proof fn lemma_many_clauses_cozo_columns_distinct()
    ensures
        distinct_names(many_clauses_cozo_columns()),
{
    let c = many_clauses_cozo_columns();
    reveal_strlit("module");
    reveal_strlit("name");
    reveal_strlit("arity");
    reveal_strlit("clauses");
    reveal_strlit("first_line");
    reveal_strlit("last_line");
    reveal_strlit("file");
    reveal_strlit("generated_by");
    assert(c[0] == "module"@);
    assert(c[1] == "name"@);
    assert(c[2] == "arity"@);
    assert(c[3] == "clauses"@);
    assert(c[4] == "first_line"@);
    assert(c[5] == "last_line"@);
    assert(c[6] == "file"@);
    assert(c[7] == "generated_by"@);
    assert(c[0].len() != c[1].len());
    assert(c[0] != c[1]);
    assert(c[0].len() != c[2].len());
    assert(c[0] != c[2]);
    assert(c[0].len() != c[3].len());
    assert(c[0] != c[3]);
    assert(c[0].len() != c[4].len());
    assert(c[0] != c[4]);
    assert(c[0].len() != c[5].len());
    assert(c[0] != c[5]);
    assert(c[0].len() != c[6].len());
    assert(c[0] != c[6]);
    assert(c[0].len() != c[7].len());
    assert(c[0] != c[7]);
    assert(c[1].len() != c[2].len());
    assert(c[1] != c[2]);
    assert(c[1].len() != c[3].len());
    assert(c[1] != c[3]);
    assert(c[1].len() != c[4].len());
    assert(c[1] != c[4]);
    assert(c[1].len() != c[5].len());
    assert(c[1] != c[5]);
    assert(c[1][0] != c[6][0]);
    assert(c[1] != c[6]);
    assert(c[1].len() != c[7].len());
    assert(c[1] != c[7]);
    assert(c[2].len() != c[3].len());
    assert(c[2] != c[3]);
    assert(c[2].len() != c[4].len());
    assert(c[2] != c[4]);
    assert(c[2].len() != c[5].len());
    assert(c[2] != c[5]);
    assert(c[2].len() != c[6].len());
    assert(c[2] != c[6]);
    assert(c[2].len() != c[7].len());
    assert(c[2] != c[7]);
    assert(c[3].len() != c[4].len());
    assert(c[3] != c[4]);
    assert(c[3].len() != c[5].len());
    assert(c[3] != c[5]);
    assert(c[3].len() != c[6].len());
    assert(c[3] != c[6]);
    assert(c[3].len() != c[7].len());
    assert(c[3] != c[7]);
    assert(c[4].len() != c[5].len());
    assert(c[4] != c[5]);
    assert(c[4].len() != c[6].len());
    assert(c[4] != c[6]);
    assert(c[4].len() != c[7].len());
    assert(c[4] != c[7]);
    assert(c[5].len() != c[6].len());
    assert(c[5] != c[6]);
    assert(c[5].len() != c[7].len());
    assert(c[5] != c[7]);
    assert(c[6].len() != c[7].len());
    assert(c[6] != c[7]);
    assert forall|i: int, j: int| 0 <= i < c.len() && 0 <= j < c.len() && i != j implies #[trigger] c[i] != #[trigger] c[j] by {
        assert(i == 0 || i == 1 || i == 2 || i == 3 || i == 4 || i == 5 || i == 6 || i == 7);
        assert(j == 0 || j == 1 || j == 2 || j == 3 || j == 4 || j == 5 || j == 6 || j == 7);
    }
}

/// Each field of a record read from a row of the answer is the value in the
/// column of that field's name; a row gives a record exactly when it has
/// every column and text in the columns `module`, `name`, `file`, `generated_by`.
pub proof fn lemma_many_clauses_cozo_named_columns(row: Seq<Value>)
    ensures
        ManyClauses::read_cozo(row) is Some <==> (row.len() >= many_clauses_cozo_columns().len() && text_at_column(many_clauses_cozo_columns(), row, "module"@) && text_at_column(many_clauses_cozo_columns(), row, "name"@) && text_at_column(many_clauses_cozo_columns(), row, "file"@) && text_at_column(many_clauses_cozo_columns(), row, "generated_by"@)),
        ManyClauses::read_cozo(row) matches Some(m) ==> {
            &&& text_in_column(many_clauses_cozo_columns(), row, "module"@, m.module, ""@)
            &&& text_in_column(many_clauses_cozo_columns(), row, "name"@, m.name, ""@)
            &&& int_in_column(many_clauses_cozo_columns(), row, "arity"@, m.arity, 0)
            &&& int_in_column(many_clauses_cozo_columns(), row, "clauses"@, m.clauses, 0)
            &&& int_in_column(many_clauses_cozo_columns(), row, "first_line"@, m.first_line, 0)
            &&& int_in_column(many_clauses_cozo_columns(), row, "last_line"@, m.last_line, 0)
            &&& text_in_column(many_clauses_cozo_columns(), row, "file"@, m.file, ""@)
            &&& text_in_column(many_clauses_cozo_columns(), row, "generated_by"@, m.generated_by, ""@)
        },
{
    lemma_many_clauses_cozo_columns_distinct();
    let c = many_clauses_cozo_columns();
    assert(c[0] == "module"@);
    lemma_named_cell(c, row, 0);
    assert(c[1] == "name"@);
    lemma_named_cell(c, row, 1);
    assert(c[2] == "arity"@);
    lemma_named_cell(c, row, 2);
    assert(c[3] == "clauses"@);
    lemma_named_cell(c, row, 3);
    assert(c[4] == "first_line"@);
    lemma_named_cell(c, row, 4);
    assert(c[5] == "last_line"@);
    lemma_named_cell(c, row, 5);
    assert(c[6] == "file"@);
    lemma_named_cell(c, row, 6);
    assert(c[7] == "generated_by"@);
    lemma_named_cell(c, row, 7);
}

/// The query binds each of its parameters to the input of that name, and binds an optional one exactly when it is given.
pub proof fn lemma_many_clauses_params_bind_inputs(min_clauses: i64, module_pattern: Option<Seq<char>>, limit: u32)
    ensures
        ({
            let m = many_clauses_params(min_clauses, module_pattern, limit);
            &&& m.dom().contains("min_clauses"@) && m["min_clauses"@] == ParamView::Int(min_clauses)
            &&& match module_pattern { Some(v) => m.dom().contains("module_pattern"@) && m["module_pattern"@] == ParamView::Str(v), None => !m.dom().contains("module_pattern"@) }
            &&& m.dom().contains("limit"@) && m["limit"@] == ParamView::Int(limit as i64)
        }),
{
    reveal_strlit("min_clauses");
    reveal_strlit("module_pattern");
    reveal_strlit("limit");
    assert("min_clauses"@.len() != "module_pattern"@.len());
    assert("min_clauses"@.len() != "limit"@.len());
    assert("module_pattern"@.len() != "limit"@.len());
}

/// The query binds each of its parameters to the input of that name, and binds an optional one exactly when it is given.
pub proof fn lemma_many_clauses_cozo_params_bind_inputs(project: Seq<char>, min_clauses: i64, module_pattern: Option<Seq<char>>)
    ensures
        ({
            let m = many_clauses_cozo_params(project, min_clauses, module_pattern);
            &&& m.dom().contains("project"@) && m["project"@] == ParamView::Str(project)
            &&& m.dom().contains("min_clauses"@) && m["min_clauses"@] == ParamView::Int(min_clauses)
            &&& match module_pattern { Some(v) => m.dom().contains("module_pattern"@) && m["module_pattern"@] == ParamView::Str(v), None => !m.dom().contains("module_pattern"@) }
        }),
{
    reveal_strlit("project");
    reveal_strlit("min_clauses");
    reveal_strlit("module_pattern");
    assert("project"@.len() != "min_clauses"@.len());
    assert("project"@.len() != "module_pattern"@.len());
    assert("min_clauses"@.len() != "module_pattern"@.len());
}

/// The query keeps the functions that have at least `min_clauses` clauses,
/// the value of the `min_clauses` parameter.
pub proof fn lemma_many_clauses_query_threshold(module_pattern: Option<Seq<char>>, use_regex: bool, include_generated: bool)
    ensures
        contains_seq(many_clauses_query_text(module_pattern, use_regex, include_generated), ") WHERE clauses >= $min_clauses"@),
{
    reveal_strlit(r#"
            GROUP BY module_name, function_name, arity, source_file, generated_by
        ) WHERE clauses >= $min_clauses
        ORDER BY clauses DESC, module_name, function_name
        LIMIT $limit
        "#);
    reveal_strlit(") WHERE clauses >= $min_clauses");
    let t = many_clauses_query_text(module_pattern, use_regex, include_generated);
    let l = r#"
            GROUP BY module_name, function_name, arity, source_file, generated_by
        ) WHERE clauses >= $min_clauses
        ORDER BY clauses DESC, module_name, function_name
        LIMIT $limit
        "#@;
    let p = t.subrange(0, t.len() - l.len());
    assert(t =~= p + l + Seq::<char>::empty());
    assert(l.subrange(91, 122) =~= ") WHERE clauses >= $min_clauses"@);
    lemma_contains_piece(p, l, Seq::<char>::empty(), 91, ") WHERE clauses >= $min_clauses"@);
}

/// The columns are in ascending order of their names, as SurrealDB gives them.
pub proof fn lemma_many_clauses_columns_ascending()
    ensures
        names_ascending(many_clauses_columns()),
{
    let c = many_clauses_columns();
    reveal_strlit("arity");
    reveal_strlit("clauses");
    reveal_strlit("file");
    reveal_strlit("first_line");
    reveal_strlit("function_name");
    reveal_strlit("generated_by");
    reveal_strlit("last_line");
    reveal_strlit("module_name");
    assert(c[0] == "arity"@ && c[1] == "clauses"@);
    assert((c[0][0] as int) < (c[1][0] as int));
    lemma_lex_less(c[0], c[1], 0);
    assert(c[1] == "clauses"@ && c[2] == "file"@);
    assert((c[1][0] as int) < (c[2][0] as int));
    lemma_lex_less(c[1], c[2], 0);
    assert(c[2] == "file"@ && c[3] == "first_line"@);
    assert(c[2].subrange(0, 2) =~= c[3].subrange(0, 2));
    assert forall|i: int| 0 <= i < 2 implies c[2][i] == c[3][i] by { assert(c[2][i] == c[2].subrange(0, 2)[i]); assert(c[3][i] == c[3].subrange(0, 2)[i]); }
    assert((c[2][2] as int) < (c[3][2] as int));
    lemma_lex_less(c[2], c[3], 2);
    assert(c[3] == "first_line"@ && c[4] == "function_name"@);
    assert(c[3].subrange(0, 1) =~= c[4].subrange(0, 1));
    assert forall|i: int| 0 <= i < 1 implies c[3][i] == c[4][i] by { assert(c[3][i] == c[3].subrange(0, 1)[i]); assert(c[4][i] == c[4].subrange(0, 1)[i]); }
    assert((c[3][1] as int) < (c[4][1] as int));
    lemma_lex_less(c[3], c[4], 1);
    assert(c[4] == "function_name"@ && c[5] == "generated_by"@);
    assert((c[4][0] as int) < (c[5][0] as int));
    lemma_lex_less(c[4], c[5], 0);
    assert(c[5] == "generated_by"@ && c[6] == "last_line"@);
    assert((c[5][0] as int) < (c[6][0] as int));
    lemma_lex_less(c[5], c[6], 0);
    assert(c[6] == "last_line"@ && c[7] == "module_name"@);
    assert((c[6][0] as int) < (c[7][0] as int));
    lemma_lex_less(c[6], c[7], 0);
    assert forall|k: int| 0 <= k < c.len() - 1 implies lex_order(#[trigger] c[k], c[k + 1]) < 0 by {
        assert(k == 0 || k == 1 || k == 2 || k == 3 || k == 4 || k == 5 || k == 6);
    }
    lemma_names_ascending_from_adjacent(c);
}

} // verus!
