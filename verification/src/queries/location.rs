//! Finding where functions are defined, clause by clause.

use vstd::prelude::*;
use crate::query_builders::{cozo_match, cozo_module_cond, push_cozo_match, push_cozo_module_cond};
use crate::text::{decimal_int, push_decimal};
use crate::text::{string_views, push_text, where_text, where_clause};
use crate::backend::{Database, QueryParams, QueryResult, Row, Value, ParamView, ValueType};
use crate::db::{DbError, cell_text, cell_text_or, cell_int_or, get_string, get_string_or, get_i64_or};
use crate::query_builders::{validate_regex_patterns, first_invalid_pattern, opt_str_view, pattern_views};
use crate::queries::rows::{CozoRecord, read_cozo_rows, decode_cozo_rows, RowRecord, views, read_rows, decode_rows, distinct_names, int_in_column, text_in_column, text_at_column, lemma_named_cell};
use crate::sorting::{Keyed, KeyPart, SortField, key_view, sorted_by, stable_sort, ordered_by_key, lemma_sorted_by_ordered, lemma_sorted_by_permutation};
use crate::text::chars_of;


use crate::backend::surreal_rows::{names_ascending, lemma_names_ascending_from_adjacent};
use crate::text::{lex_order, lemma_lex_less, contains_seq, lemma_contains_piece, joined};

verus! {

/// Errors of the query.
#[derive(Debug)]
pub enum LocationError {
    QueryFailed { message: String },
    InvalidRegex { pattern: String },
}

impl LocationError {
    /// The error's text.
    pub open spec fn message(&self) -> Seq<char> {
        match self {
            LocationError::QueryFailed { message } => "Location query failed: "@ + message@,
            LocationError::InvalidRegex { pattern } => "Invalid regex pattern: "@ + pattern@,
        }
    }

    /// The error's text (what `Display` writes).
    pub fn to_string(&self) -> (r: String)
        ensures
            r@ == self.message(),
    {
        let mut r = String::new();
        match self {
            LocationError::QueryFailed { message } => {
                r.append("Location query failed: ");
                r.append(message.as_str());
            },
            LocationError::InvalidRegex { pattern } => {
                r.append("Invalid regex pattern: ");
                r.append(pattern.as_str());
            },
        }
        r
    }
}

/// A function location result
#[derive(Debug, Clone)]
pub struct FunctionLocation {
    pub project: String,
    pub file: String,
    pub line: i64,
    pub start_line: i64,
    pub end_line: i64,
    pub module: String,
    pub kind: String,
    pub name: String,
    pub arity: i64,
    pub pattern: String,
    pub guard: String,
}

/// What a `FunctionLocation` holds, as plain values.
pub struct FunctionLocationView {
    pub project: Seq<char>,
    pub file: Seq<char>,
    pub line: i64,
    pub start_line: i64,
    pub end_line: i64,
    pub module: Seq<char>,
    pub kind: Seq<char>,
    pub name: Seq<char>,
    pub arity: i64,
    pub pattern: Seq<char>,
    pub guard: Seq<char>,
}

impl View for FunctionLocation {
    type V = FunctionLocationView;

    open spec fn view(&self) -> FunctionLocationView {
        FunctionLocationView {
            project: self.project@,
            file: self.file@,
            line: self.line,
            start_line: self.start_line,
            end_line: self.end_line,
            module: self.module@,
            kind: self.kind@,
            name: self.name@,
            arity: self.arity,
            pattern: self.pattern@,
            guard: self.guard@,
        }
    }
}

impl RowRecord for FunctionLocation {
    open spec fn read(row: Seq<Value>) -> Option<FunctionLocationView> {
        if row.len() >= 11 {
            match (cell_text(row, 2), cell_text(row, 6), cell_text(row, 7), cell_text(row, 9)) {
                (Some(v_file), Some(v_module), Some(v_name), Some(v_project)) => Some(FunctionLocationView { project: v_project, file: v_file, line: cell_int_or(row, 5, 0), start_line: cell_int_or(row, 10, 0), end_line: cell_int_or(row, 1, 0), module: v_module, kind: cell_text_or(row, 4, ""@), name: v_name, arity: cell_int_or(row, 0, 0), pattern: cell_text_or(row, 8, ""@), guard: cell_text_or(row, 3, ""@) }),
                _ => None,
            }
        } else {
            None
        }
    }

    fn from_row(row: &Row) -> (r: Option<FunctionLocation>) {
        if row.len() < 11 {
            return None;
        }
        let project = get_string(row, 9)?;
        let file = get_string(row, 2)?;
        let line = get_i64_or(row, 5, 0);
        let start_line = get_i64_or(row, 10, 0);
        let end_line = get_i64_or(row, 1, 0);
        let module = get_string(row, 6)?;
        let kind = get_string_or(row, 4, "");
        let name = get_string(row, 7)?;
        let arity = get_i64_or(row, 0, 0);
        let pattern = get_string_or(row, 8, "");
        let guard = get_string_or(row, 3, "");
        Some(FunctionLocation { project, file, line, start_line, end_line, module, kind, name, arity, pattern, guard })
    }
}

impl Keyed for FunctionLocation {
    open spec fn view_key(v: FunctionLocationView) -> Seq<SortField> {
        seq![SortField::Text(v.module), SortField::Text(v.name), SortField::Asc(v.arity as int), SortField::Asc(v.line as int)]
    }

    fn key(&self) -> (k: Vec<KeyPart>) {
        let k = vec![KeyPart::Text(chars_of(self.module.as_str())), KeyPart::Text(chars_of(self.name.as_str())), KeyPart::Asc(self.arity), KeyPart::Asc(self.line)];
        assert(key_view(k@) =~= Self::view_key(self@));
        k
    }
}

/// The query text for the given filters.
pub open spec fn locations_query_text(module_pattern: Option<Seq<char>>, arity: Option<i64>, use_regex: bool) -> Seq<char> {
    r#"
        SELECT "default" as project, file, line, start_line, end_line,
               module_name as module, kind, function_name as name, arity, pattern, guard
        FROM `clause`
        WHERE "#@
        + (if module_pattern is Some && use_regex { "module_name = <regex>$module_pattern"@ } else if module_pattern is Some { "module_name = $module_pattern"@ } else { "1 = 1"@ })
        + r#"
          AND "#@
        + (if use_regex { "function_name = <regex>$function_pattern"@ } else { "function_name = $function_pattern"@ })
        + r#"
          "#@
        + (if arity is Some { "AND arity = $arity"@ } else { ""@ })
        + r#"
        ORDER BY module_name ASC, function_name ASC, arity ASC, line ASC
        LIMIT $limit
        "#@
}

/// The parameters of the query.
pub open spec fn locations_params(function_pattern: Seq<char>, module_pattern: Option<Seq<char>>, arity: Option<i64>, limit: u32) -> Map<Seq<char>, ParamView> {
    let m = Map::<Seq<char>, ParamView>::empty();
    let m = m.insert("function_pattern"@, ParamView::Str(function_pattern));
    let m = m.insert("limit"@, ParamView::Int(limit as i64));
    let m = match module_pattern { Some(mp) => m.insert("module_pattern"@, ParamView::Str(mp)), None => m };
    let m = match arity { Some(a) => m.insert("arity"@, ParamView::Int(a)), None => m };
    m
}

/// Builds the query text and parameters.
pub fn locations_query(module_pattern: Option<&str>, function_pattern: &str, arity: Option<i64>, use_regex: bool, limit: u32) -> (r: (String, QueryParams))
    ensures
        r.0@ == locations_query_text(opt_str_view(module_pattern), arity, use_regex),
        r.1.binds_exactly(locations_params(function_pattern@, opt_str_view(module_pattern), arity, limit)),
{
    let mut query = String::new();
    query.append(r#"
        SELECT "default" as project, file, line, start_line, end_line,
               module_name as module, kind, function_name as name, arity, pattern, guard
        FROM `clause`
        WHERE "#);
    let part_module_clause: &str = if module_pattern.is_some() && use_regex { "module_name = <regex>$module_pattern" } else if module_pattern.is_some() { "module_name = $module_pattern" } else { "1 = 1" };
    query.append(part_module_clause);
    query.append(r#"
          AND "#);
    let part_function_clause: &str = if use_regex { "function_name = <regex>$function_pattern" } else { "function_name = $function_pattern" };
    query.append(part_function_clause);
    query.append(r#"
          "#);
    let part_arity_clause: &str = if arity.is_some() { "AND arity = $arity" } else { "" };
    query.append(part_arity_clause);
    query.append(r#"
        ORDER BY module_name ASC, function_name ASC, arity ASC, line ASC
        LIMIT $limit
        "#);
    let mut params = QueryParams::new();
    params = params.with_str("function_pattern", function_pattern);
    params = params.with_int("limit", limit as i64);
    match module_pattern {
        Some(mp) => {
            params = params.with_str("module_pattern", mp);
        },
        None => {},
    }
    match arity {
        Some(a) => {
            params = params.with_int("arity", a);
        },
        None => {},
    }
    (query, params)
}

/// Find the clauses of the functions matching `function_pattern` (and the
/// module pattern and arity when given), ordered by module, name, arity and
/// line.
pub fn find_locations<D: Database + ?Sized>(db: &D, module_pattern: Option<&str>, function_pattern: &str, arity: Option<i64>, _project: &str, use_regex: bool, limit: u32) -> (r: Result<Vec<FunctionLocation>, LocationError>)
    ensures
        match r {
            Err(LocationError::InvalidRegex { pattern: bad }) => first_invalid_pattern(use_regex, seq![opt_str_view(module_pattern), Some(function_pattern@)]) == Some(bad@),
            Err(LocationError::QueryFailed { message }) => first_invalid_pattern(use_regex, seq![opt_str_view(module_pattern), Some(function_pattern@)]) is None
                && exists|p: QueryParams, e: DbError| p.binds_exactly(locations_params(function_pattern@, opt_str_view(module_pattern), arity, limit))
                    && #[trigger] db.answers(locations_query_text(opt_str_view(module_pattern), arity, use_regex), p, Err(e)) && message@ == e.message(),
            Ok(v) => first_invalid_pattern(use_regex, seq![opt_str_view(module_pattern), Some(function_pattern@)]) is None
                && exists|p: QueryParams, res: QueryResult| p.binds_exactly(locations_params(function_pattern@, opt_str_view(module_pattern), arity, limit))
                    && #[trigger] db.answers(locations_query_text(opt_str_view(module_pattern), arity, use_regex), p, Ok(res))
                    && ({ let d = read_rows::<FunctionLocation>(res.rows@); views(v@) == sorted_by::<FunctionLocation>(d) })
                    && ({ let d = read_rows::<FunctionLocation>(res.rows@); ordered_by_key::<FunctionLocation>(views(v@)) && views(v@).to_multiset() == d.to_multiset() }),
        },
{
    let pats: [Option<&str>; 2] = [module_pattern, Some(function_pattern)];
    assert(pattern_views(pats@) =~= seq![opt_str_view(module_pattern), Some(function_pattern@)]);
    match validate_regex_patterns(use_regex, &pats) {
        Err(p) => {
            return Err(LocationError::InvalidRegex { pattern: p });
        },
        Ok(()) => {},
    }
    let (query, params) = locations_query(module_pattern, function_pattern, arity, use_regex, limit);
    let ghost gp = params;
    match db.execute_query(query.as_str(), params) {
        Ok(res) => {
            let v = decode_rows::<FunctionLocation>(&res.rows);
            let ghost decoded = views(v@);
            let out = stable_sort(v);
            proof {
                lemma_sorted_by_ordered::<FunctionLocation>(decoded);
                lemma_sorted_by_permutation::<FunctionLocation>(decoded);
            }
            assert(db.answers(query@, gp, Ok(res)));
            Ok(out)
        },
        Err(e) => {
            let ghost ge = e;
            let message = e.to_string();
            assert(db.answers(query@, gp, Err(ge)));
            Err(LocationError::QueryFailed { message })
        },
    }
}



/// The parameters of the CozoDB script.
pub open spec fn locations_cozo_params(function_pattern: Seq<char>, project: Seq<char>, module_pattern: Option<Seq<char>>, arity: Option<i64>) -> Map<Seq<char>, ParamView> {
    let m = Map::<Seq<char>, ParamView>::empty();
    let m = m.insert("function_pattern"@, ParamView::Str(function_pattern));
    let m = m.insert("project"@, ParamView::Str(project));
    let m = match module_pattern { Some(mp) => m.insert("module_pattern"@, ParamView::Str(mp)), None => m };
    match arity { Some(a) => m.insert("arity"@, ParamView::Int(a)), None => m }
}

/// The CozoDB script for the given filters.
pub open spec fn locations_cozo_text(module_pattern: Option<Seq<char>>, arity: Option<i64>, use_regex: bool, limit: u32) -> Seq<char> {
    r#"
        ?[project, file, line, start_line, end_line, module, kind, name, arity, pattern, guard] :=
            *function_locations{project, module, name, arity, line, file, kind, start_line, end_line, pattern, guard},
            "#@
        + (cozo_match("name"@, "function_pattern"@, use_regex))
        + r#"
            "#@
        + (cozo_module_cond(module_pattern is Some, use_regex))
        + r#"
            "#@
        + (if arity is Some { ", arity == $arity"@ } else { ""@ })
        + r#"
            , project == $project
        :order module, name, arity, line
        :limit "#@
        + (decimal_int(limit as int))
        + r#"
        "#@
}

/// Builds the CozoDB script and its parameters.
pub fn locations_cozo_script(module_pattern: Option<&str>, function_pattern: &str, arity: Option<i64>, project: &str, use_regex: bool, limit: u32) -> (r: (String, QueryParams))
    ensures
        r.0@ == locations_cozo_text(opt_str_view(module_pattern), arity, use_regex, limit),
        r.1.binds_exactly(locations_cozo_params(function_pattern@, project@, opt_str_view(module_pattern), arity)),
{
    let mut query = String::new();
    query.append(r#"
        ?[project, file, line, start_line, end_line, module, kind, name, arity, pattern, guard] :=
            *function_locations{project, module, name, arity, line, file, kind, start_line, end_line, pattern, guard},
            "#);
    push_cozo_match(&mut query, "name", "function_pattern", use_regex);
    query.append(r#"
            "#);
    push_cozo_module_cond(&mut query, module_pattern.is_some(), use_regex);
    query.append(r#"
            "#);
    query.append(if arity.is_some() { ", arity == $arity" } else { "" });
    query.append(r#"
            , project == $project
        :order module, name, arity, line
        :limit "#);
    push_decimal(&mut query, limit as i64);
    query.append(r#"
        "#);
    let mut params = QueryParams::new();
    params = params.with_str("function_pattern", function_pattern);
    params = params.with_str("project", project);
    match module_pattern {
        Some(mp) => {
            params = params.with_str("module_pattern", mp);
        },
        None => {},
    }
    match arity {
        Some(a) => {
            params = params.with_int("arity", a);
        },
        None => {},
    }
    assert(query@ =~= locations_cozo_text(opt_str_view(module_pattern), arity, use_regex, limit));
    (query, params)
}

impl CozoRecord for FunctionLocation {
    open spec fn read_cozo(row: Seq<Value>) -> Option<FunctionLocationView> {
        if row.len() >= 11 {
            match (cell_text(row, 0), cell_text(row, 1), cell_text(row, 5), cell_text(row, 7)) {
                (Some(v_project), Some(v_file), Some(v_module), Some(v_name)) => Some(FunctionLocationView { project: v_project, file: v_file, line: cell_int_or(row, 2, 0), start_line: cell_int_or(row, 3, 0), end_line: cell_int_or(row, 4, 0), module: v_module, kind: cell_text_or(row, 6, ""@), name: v_name, arity: cell_int_or(row, 8, 0), pattern: cell_text_or(row, 9, ""@), guard: cell_text_or(row, 10, ""@) }),
                _ => None,
            }
        } else {
            None
        }
    }

    fn from_cozo_row(row: &Row) -> (r: Option<FunctionLocation>) {
        if row.len() < 11 {
            return None;
        }
        let project = get_string(row, 0)?;
        let file = get_string(row, 1)?;
        let line = get_i64_or(row, 2, 0);
        let start_line = get_i64_or(row, 3, 0);
        let end_line = get_i64_or(row, 4, 0);
        let module = get_string(row, 5)?;
        let kind = get_string_or(row, 6, "");
        let name = get_string(row, 7)?;
        let arity = get_i64_or(row, 8, 0);
        let pattern = get_string_or(row, 9, "");
        let guard = get_string_or(row, 10, "");
        Some(FunctionLocation { project, file, line, start_line, end_line, module, kind, name, arity, pattern, guard })
    }
}

/// Find function clause locations on CozoDB: the clauses of the project whose
/// name matches `function_pattern` (by regex or equality), within modules
/// matching `module_pattern` and with the arity when given, ordered by
/// module, name, arity and line, at most `limit` of them, as the script
/// gives them.
pub fn find_locations_cozo<D: Database + ?Sized>(db: &D, module_pattern: Option<&str>, function_pattern: &str, arity: Option<i64>, project: &str, use_regex: bool, limit: u32) -> (r: Result<Vec<FunctionLocation>, LocationError>)
    ensures
        match r {
            Err(LocationError::InvalidRegex { pattern: bad }) => first_invalid_pattern(use_regex, seq![opt_str_view(module_pattern), Some(function_pattern@)]) == Some(bad@),
            Err(LocationError::QueryFailed { message }) => first_invalid_pattern(use_regex, seq![opt_str_view(module_pattern), Some(function_pattern@)]) is None
                && exists|p: QueryParams, e: DbError| p.binds_exactly(locations_cozo_params(function_pattern@, project@, opt_str_view(module_pattern), arity))
                    && #[trigger] db.answers(locations_cozo_text(opt_str_view(module_pattern), arity, use_regex, limit), p, Err(e)) && message@ == e.message(),
            Ok(v) => first_invalid_pattern(use_regex, seq![opt_str_view(module_pattern), Some(function_pattern@)]) is None
                && exists|p: QueryParams, res: QueryResult| p.binds_exactly(locations_cozo_params(function_pattern@, project@, opt_str_view(module_pattern), arity))
                    && #[trigger] db.answers(locations_cozo_text(opt_str_view(module_pattern), arity, use_regex, limit), p, Ok(res))
                    && views(v@) == read_cozo_rows::<FunctionLocation>(res.rows@),
        },
{
    let pats: [Option<&str>; 2] = [module_pattern, Some(function_pattern)];
    assert(pattern_views(pats@) =~= seq![opt_str_view(module_pattern), Some(function_pattern@)]);
    match validate_regex_patterns(use_regex, &pats) {
        Err(p) => {
            return Err(LocationError::InvalidRegex { pattern: p });
        },
        Ok(()) => {},
    }
    let (query, params) = locations_cozo_script(module_pattern, function_pattern, arity, project, use_regex, limit);
    let ghost gp = params;
    match db.execute_query(query.as_str(), params) {
        Ok(res) => {
            let v = decode_cozo_rows::<FunctionLocation>(&res.rows);
            assert(db.answers(query@, gp, Ok(res)));
            Ok(v)
        },
        Err(e) => {
            let ghost ge = e;
            let message = e.to_string();
            assert(db.answers(query@, gp, Err(ge)));
            Err(LocationError::QueryFailed { message })
        },
    }
}

/// The columns of the query's answer, as SurrealDB gives them: the names
/// the query selects, in alphabetical order.
pub open spec fn locations_columns() -> Seq<Seq<char>> {
    seq!["arity"@, "end_line"@, "file"@, "guard"@, "kind"@, "line"@, "module"@, "name"@, "pattern"@, "project"@, "start_line"@]
}

proof fn lemma_locations_columns_distinct()
    ensures
        distinct_names(locations_columns()),
{
    let c = locations_columns();
    reveal_strlit("arity");
    reveal_strlit("end_line");
    reveal_strlit("file");
    reveal_strlit("guard");
    reveal_strlit("kind");
    reveal_strlit("line");
    reveal_strlit("module");
    reveal_strlit("name");
    reveal_strlit("pattern");
    reveal_strlit("project");
    reveal_strlit("start_line");
    assert(c[0] == "arity"@);
    assert(c[1] == "end_line"@);
    assert(c[2] == "file"@);
    assert(c[3] == "guard"@);
    assert(c[4] == "kind"@);
    assert(c[5] == "line"@);
    assert(c[6] == "module"@);
    assert(c[7] == "name"@);
    assert(c[8] == "pattern"@);
    assert(c[9] == "project"@);
    assert(c[10] == "start_line"@);
    assert(c[0].len() != c[1].len());
    assert(c[0] != c[1]);
    assert(c[0].len() != c[2].len());
    assert(c[0] != c[2]);
    assert(c[0][0] != c[3][0]);
    assert(c[0] != c[3]);
    assert(c[0].len() != c[4].len());
    assert(c[0] != c[4]);
    assert(c[0].len() != c[5].len());
    assert(c[0] != c[5]);
    assert(c[0].len() != c[6].len());
    assert(c[0] != c[6]);
    assert(c[0].len() != c[7].len());
    assert(c[0] != c[7]);
    assert(c[0].len() != c[8].len());
    assert(c[0] != c[8]);
    assert(c[0].len() != c[9].len());
    assert(c[0] != c[9]);
    assert(c[0].len() != c[10].len());
    assert(c[0] != c[10]);
    assert(c[1].len() != c[2].len());
    assert(c[1] != c[2]);
    assert(c[1].len() != c[3].len());
    assert(c[1] != c[3]);
    assert(c[1].len() != c[4].len());
    assert(c[1] != c[4]);
    assert(c[1].len() != c[5].len());
    assert(c[1] != c[5]);
    assert(c[1].len() != c[6].len());
    assert(c[1] != c[6]);
    assert(c[1].len() != c[7].len());
    assert(c[1] != c[7]);
    assert(c[1].len() != c[8].len());
    assert(c[1] != c[8]);
    assert(c[1].len() != c[9].len());
    assert(c[1] != c[9]);
    assert(c[1].len() != c[10].len());
    assert(c[1] != c[10]);
    assert(c[2].len() != c[3].len());
    assert(c[2] != c[3]);
    assert(c[2][0] != c[4][0]);
    assert(c[2] != c[4]);
    assert(c[2][0] != c[5][0]);
    assert(c[2] != c[5]);
    assert(c[2].len() != c[6].len());
    assert(c[2] != c[6]);
    assert(c[2][0] != c[7][0]);
    assert(c[2] != c[7]);
    assert(c[2].len() != c[8].len());
    assert(c[2] != c[8]);
    assert(c[2].len() != c[9].len());
    assert(c[2] != c[9]);
    assert(c[2].len() != c[10].len());
    assert(c[2] != c[10]);
    assert(c[3].len() != c[4].len());
    assert(c[3] != c[4]);
    assert(c[3].len() != c[5].len());
    assert(c[3] != c[5]);
    assert(c[3].len() != c[6].len());
    assert(c[3] != c[6]);
    assert(c[3].len() != c[7].len());
    assert(c[3] != c[7]);
    assert(c[3].len() != c[8].len());
    assert(c[3] != c[8]);
    assert(c[3].len() != c[9].len());
    assert(c[3] != c[9]);
    assert(c[3].len() != c[10].len());
    assert(c[3] != c[10]);
    assert(c[4][0] != c[5][0]);
    assert(c[4] != c[5]);
    assert(c[4].len() != c[6].len());
    assert(c[4] != c[6]);
    assert(c[4][0] != c[7][0]);
    assert(c[4] != c[7]);
    assert(c[4].len() != c[8].len());
    assert(c[4] != c[8]);
    assert(c[4].len() != c[9].len());
    assert(c[4] != c[9]);
    assert(c[4].len() != c[10].len());
    assert(c[4] != c[10]);
    assert(c[5].len() != c[6].len());
    assert(c[5] != c[6]);
    assert(c[5][0] != c[7][0]);
    assert(c[5] != c[7]);
    assert(c[5].len() != c[8].len());
    assert(c[5] != c[8]);
    assert(c[5].len() != c[9].len());
    assert(c[5] != c[9]);
    assert(c[5].len() != c[10].len());
    assert(c[5] != c[10]);
    assert(c[6].len() != c[7].len());
    assert(c[6] != c[7]);
    assert(c[6].len() != c[8].len());
    assert(c[6] != c[8]);
    assert(c[6].len() != c[9].len());
    assert(c[6] != c[9]);
    assert(c[6].len() != c[10].len());
    assert(c[6] != c[10]);
    assert(c[7].len() != c[8].len());
    assert(c[7] != c[8]);
    assert(c[7].len() != c[9].len());
    assert(c[7] != c[9]);
    assert(c[7].len() != c[10].len());
    assert(c[7] != c[10]);
    assert(c[8][1] != c[9][1]);
    assert(c[8] != c[9]);
    assert(c[8].len() != c[10].len());
    assert(c[8] != c[10]);
    assert(c[9].len() != c[10].len());
    assert(c[9] != c[10]);
    assert forall|i: int, j: int| 0 <= i < c.len() && 0 <= j < c.len() && i != j implies #[trigger] c[i] != #[trigger] c[j] by {
        assert(i == 0 || i == 1 || i == 2 || i == 3 || i == 4 || i == 5 || i == 6 || i == 7 || i == 8 || i == 9 || i == 10);
        assert(j == 0 || j == 1 || j == 2 || j == 3 || j == 4 || j == 5 || j == 6 || j == 7 || j == 8 || j == 9 || j == 10);
    }
}

/// Each field of a record read from a row of the answer is the value in the
/// column of that field's name; a row gives a record exactly when it has
/// every column and text in the columns `file`, `module`, `name`, `project`.
pub proof fn lemma_function_location_named_columns(row: Seq<Value>)
    ensures
        FunctionLocation::read(row) is Some <==> (row.len() >= locations_columns().len() && text_at_column(locations_columns(), row, "file"@) && text_at_column(locations_columns(), row, "module"@) && text_at_column(locations_columns(), row, "name"@) && text_at_column(locations_columns(), row, "project"@)),
        FunctionLocation::read(row) matches Some(m) ==> {
            &&& text_in_column(locations_columns(), row, "project"@, m.project, ""@)
            &&& text_in_column(locations_columns(), row, "file"@, m.file, ""@)
            &&& int_in_column(locations_columns(), row, "line"@, m.line, 0)
            &&& int_in_column(locations_columns(), row, "start_line"@, m.start_line, 0)
            &&& int_in_column(locations_columns(), row, "end_line"@, m.end_line, 0)
            &&& text_in_column(locations_columns(), row, "module"@, m.module, ""@)
            &&& text_in_column(locations_columns(), row, "kind"@, m.kind, ""@)
            &&& text_in_column(locations_columns(), row, "name"@, m.name, ""@)
            &&& int_in_column(locations_columns(), row, "arity"@, m.arity, 0)
            &&& text_in_column(locations_columns(), row, "pattern"@, m.pattern, ""@)
            &&& text_in_column(locations_columns(), row, "guard"@, m.guard, ""@)
        },
{
    lemma_locations_columns_distinct();
    let c = locations_columns();
    assert(c[0] == "arity"@);
    lemma_named_cell(c, row, 0);
    assert(c[1] == "end_line"@);
    lemma_named_cell(c, row, 1);
    assert(c[2] == "file"@);
    lemma_named_cell(c, row, 2);
    assert(c[3] == "guard"@);
    lemma_named_cell(c, row, 3);
    assert(c[4] == "kind"@);
    lemma_named_cell(c, row, 4);
    assert(c[5] == "line"@);
    lemma_named_cell(c, row, 5);
    assert(c[6] == "module"@);
    lemma_named_cell(c, row, 6);
    assert(c[7] == "name"@);
    lemma_named_cell(c, row, 7);
    assert(c[8] == "pattern"@);
    lemma_named_cell(c, row, 8);
    assert(c[9] == "project"@);
    lemma_named_cell(c, row, 9);
    assert(c[10] == "start_line"@);
    lemma_named_cell(c, row, 10);
}

/// The columns of the script's answer: the head of its query rule, in order.
pub open spec fn locations_cozo_columns() -> Seq<Seq<char>> {
    seq!["project"@, "file"@, "line"@, "start_line"@, "end_line"@, "module"@, "kind"@, "name"@, "arity"@, "pattern"@, "guard"@]
}

proof fn lemma_locations_cozo_columns_distinct()
    ensures
        distinct_names(locations_cozo_columns()),
{
    let c = locations_cozo_columns();
    reveal_strlit("project");
    reveal_strlit("file");
    reveal_strlit("line");
    reveal_strlit("start_line");
    reveal_strlit("end_line");
    reveal_strlit("module");
    reveal_strlit("kind");
    reveal_strlit("name");
    reveal_strlit("arity");
    reveal_strlit("pattern");
    reveal_strlit("guard");
    assert(c[0] == "project"@);
    assert(c[1] == "file"@);
    assert(c[2] == "line"@);
    assert(c[3] == "start_line"@);
    assert(c[4] == "end_line"@);
    assert(c[5] == "module"@);
    assert(c[6] == "kind"@);
    assert(c[7] == "name"@);
    assert(c[8] == "arity"@);
    assert(c[9] == "pattern"@);
    assert(c[10] == "guard"@);
    assert(c[0].len() != c[1].len());
    assert(c[0] != c[1]);
    assert(c[0].len() != c[2].len());
    assert(c[0] != c[2]);
    assert(c[0].len() != c[3].len());
    assert(c[0] != c[3]);
    assert(c[0].len() != c[4].len());
    assert(c[0] != c[4]);
    assert(c[0].len() != c[5].len());
    assert(c[0] != c[5]);
    assert(c[0].len() != c[6].len());
    assert(c[0] != c[6]);
    assert(c[0].len() != c[7].len());
    assert(c[0] != c[7]);
    assert(c[0].len() != c[8].len());
    assert(c[0] != c[8]);
    assert(c[0][1] != c[9][1]);
    assert(c[0] != c[9]);
    assert(c[0].len() != c[10].len());
    assert(c[0] != c[10]);
    assert(c[1][0] != c[2][0]);
    assert(c[1] != c[2]);
    assert(c[1].len() != c[3].len());
    assert(c[1] != c[3]);
    assert(c[1].len() != c[4].len());
    assert(c[1] != c[4]);
    assert(c[1].len() != c[5].len());
    assert(c[1] != c[5]);
    assert(c[1][0] != c[6][0]);
    assert(c[1] != c[6]);
    assert(c[1][0] != c[7][0]);
    assert(c[1] != c[7]);
    assert(c[1].len() != c[8].len());
    assert(c[1] != c[8]);
    assert(c[1].len() != c[9].len());
    assert(c[1] != c[9]);
    assert(c[1].len() != c[10].len());
    assert(c[1] != c[10]);
    assert(c[2].len() != c[3].len());
    assert(c[2] != c[3]);
    assert(c[2].len() != c[4].len());
    assert(c[2] != c[4]);
    assert(c[2].len() != c[5].len());
    assert(c[2] != c[5]);
    assert(c[2][0] != c[6][0]);
    assert(c[2] != c[6]);
    assert(c[2][0] != c[7][0]);
    assert(c[2] != c[7]);
    assert(c[2].len() != c[8].len());
    assert(c[2] != c[8]);
    assert(c[2].len() != c[9].len());
    assert(c[2] != c[9]);
    assert(c[2].len() != c[10].len());
    assert(c[2] != c[10]);
    assert(c[3].len() != c[4].len());
    assert(c[3] != c[4]);
    assert(c[3].len() != c[5].len());
    assert(c[3] != c[5]);
    assert(c[3].len() != c[6].len());
    assert(c[3] != c[6]);
    assert(c[3].len() != c[7].len());
    assert(c[3] != c[7]);
    assert(c[3].len() != c[8].len());
    assert(c[3] != c[8]);
    assert(c[3].len() != c[9].len());
    assert(c[3] != c[9]);
    assert(c[3].len() != c[10].len());
    assert(c[3] != c[10]);
    assert(c[4].len() != c[5].len());
    assert(c[4] != c[5]);
    assert(c[4].len() != c[6].len());
    assert(c[4] != c[6]);
    assert(c[4].len() != c[7].len());
    assert(c[4] != c[7]);
    assert(c[4].len() != c[8].len());
    assert(c[4] != c[8]);
    assert(c[4].len() != c[9].len());
    assert(c[4] != c[9]);
    assert(c[4].len() != c[10].len());
    assert(c[4] != c[10]);
    assert(c[5].len() != c[6].len());
    assert(c[5] != c[6]);
    assert(c[5].len() != c[7].len());
    assert(c[5] != c[7]);
    assert(c[5].len() != c[8].len());
    assert(c[5] != c[8]);
    assert(c[5].len() != c[9].len());
    assert(c[5] != c[9]);
    assert(c[5].len() != c[10].len());
    assert(c[5] != c[10]);
    assert(c[6][0] != c[7][0]);
    assert(c[6] != c[7]);
    assert(c[6].len() != c[8].len());
    assert(c[6] != c[8]);
    assert(c[6].len() != c[9].len());
    assert(c[6] != c[9]);
    assert(c[6].len() != c[10].len());
    assert(c[6] != c[10]);
    assert(c[7].len() != c[8].len());
    assert(c[7] != c[8]);
    assert(c[7].len() != c[9].len());
    assert(c[7] != c[9]);
    assert(c[7].len() != c[10].len());
    assert(c[7] != c[10]);
    assert(c[8].len() != c[9].len());
    assert(c[8] != c[9]);
    assert(c[8][0] != c[10][0]);
    assert(c[8] != c[10]);
    assert(c[9].len() != c[10].len());
    assert(c[9] != c[10]);
    assert forall|i: int, j: int| 0 <= i < c.len() && 0 <= j < c.len() && i != j implies #[trigger] c[i] != #[trigger] c[j] by {
        assert(i == 0 || i == 1 || i == 2 || i == 3 || i == 4 || i == 5 || i == 6 || i == 7 || i == 8 || i == 9 || i == 10);
        assert(j == 0 || j == 1 || j == 2 || j == 3 || j == 4 || j == 5 || j == 6 || j == 7 || j == 8 || j == 9 || j == 10);
    }
}

/// Each field of a record read from a row of the answer is the value in the
/// column of that field's name; a row gives a record exactly when it has
/// every column and text in the columns `project`, `file`, `module`, `name`.
pub proof fn lemma_function_location_cozo_named_columns(row: Seq<Value>)
    ensures
        FunctionLocation::read_cozo(row) is Some <==> (row.len() >= locations_cozo_columns().len() && text_at_column(locations_cozo_columns(), row, "project"@) && text_at_column(locations_cozo_columns(), row, "file"@) && text_at_column(locations_cozo_columns(), row, "module"@) && text_at_column(locations_cozo_columns(), row, "name"@)),
        FunctionLocation::read_cozo(row) matches Some(m) ==> {
            &&& text_in_column(locations_cozo_columns(), row, "project"@, m.project, ""@)
            &&& text_in_column(locations_cozo_columns(), row, "file"@, m.file, ""@)
            &&& int_in_column(locations_cozo_columns(), row, "line"@, m.line, 0)
            &&& int_in_column(locations_cozo_columns(), row, "start_line"@, m.start_line, 0)
            &&& int_in_column(locations_cozo_columns(), row, "end_line"@, m.end_line, 0)
            &&& text_in_column(locations_cozo_columns(), row, "module"@, m.module, ""@)
            &&& text_in_column(locations_cozo_columns(), row, "kind"@, m.kind, ""@)
            &&& text_in_column(locations_cozo_columns(), row, "name"@, m.name, ""@)
            &&& int_in_column(locations_cozo_columns(), row, "arity"@, m.arity, 0)
            &&& text_in_column(locations_cozo_columns(), row, "pattern"@, m.pattern, ""@)
            &&& text_in_column(locations_cozo_columns(), row, "guard"@, m.guard, ""@)
        },
{
    lemma_locations_cozo_columns_distinct();
    let c = locations_cozo_columns();
    assert(c[0] == "project"@);
    lemma_named_cell(c, row, 0);
    assert(c[1] == "file"@);
    lemma_named_cell(c, row, 1);
    assert(c[2] == "line"@);
    lemma_named_cell(c, row, 2);
    assert(c[3] == "start_line"@);
    lemma_named_cell(c, row, 3);
    assert(c[4] == "end_line"@);
    lemma_named_cell(c, row, 4);
    assert(c[5] == "module"@);
    lemma_named_cell(c, row, 5);
    assert(c[6] == "kind"@);
    lemma_named_cell(c, row, 6);
    assert(c[7] == "name"@);
    lemma_named_cell(c, row, 7);
    assert(c[8] == "arity"@);
    lemma_named_cell(c, row, 8);
    assert(c[9] == "pattern"@);
    lemma_named_cell(c, row, 9);
    assert(c[10] == "guard"@);
    lemma_named_cell(c, row, 10);
}

/// The query binds each of its parameters to the input of that name, and binds an optional one exactly when it is given.
pub proof fn lemma_locations_params_bind_inputs(function_pattern: Seq<char>, module_pattern: Option<Seq<char>>, arity: Option<i64>, limit: u32)
    ensures
        ({
            let m = locations_params(function_pattern, module_pattern, arity, limit);
            &&& m.dom().contains("function_pattern"@) && m["function_pattern"@] == ParamView::Str(function_pattern)
            &&& match module_pattern { Some(v) => m.dom().contains("module_pattern"@) && m["module_pattern"@] == ParamView::Str(v), None => !m.dom().contains("module_pattern"@) }
            &&& match arity { Some(v) => m.dom().contains("arity"@) && m["arity"@] == ParamView::Int(v), None => !m.dom().contains("arity"@) }
            &&& m.dom().contains("limit"@) && m["limit"@] == ParamView::Int(limit as i64)
        }),
{
    reveal_strlit("function_pattern");
    reveal_strlit("module_pattern");
    reveal_strlit("arity");
    reveal_strlit("limit");
    assert("function_pattern"@.len() != "module_pattern"@.len());
    assert("function_pattern"@.len() != "arity"@.len());
    assert("function_pattern"@.len() != "limit"@.len());
    assert("module_pattern"@.len() != "arity"@.len());
    assert("module_pattern"@.len() != "limit"@.len());
    assert("arity"@[0] != "limit"@[0]);
}

/// The query binds each of its parameters to the input of that name, and binds an optional one exactly when it is given.
pub proof fn lemma_locations_cozo_params_bind_inputs(function_pattern: Seq<char>, project: Seq<char>, module_pattern: Option<Seq<char>>, arity: Option<i64>)
    ensures
        ({
            let m = locations_cozo_params(function_pattern, project, module_pattern, arity);
            &&& m.dom().contains("function_pattern"@) && m["function_pattern"@] == ParamView::Str(function_pattern)
            &&& m.dom().contains("project"@) && m["project"@] == ParamView::Str(project)
            &&& match module_pattern { Some(v) => m.dom().contains("module_pattern"@) && m["module_pattern"@] == ParamView::Str(v), None => !m.dom().contains("module_pattern"@) }
            &&& match arity { Some(v) => m.dom().contains("arity"@) && m["arity"@] == ParamView::Int(v), None => !m.dom().contains("arity"@) }
        }),
{
    reveal_strlit("function_pattern");
    reveal_strlit("project");
    reveal_strlit("module_pattern");
    reveal_strlit("arity");
    assert("function_pattern"@.len() != "project"@.len());
    assert("function_pattern"@.len() != "module_pattern"@.len());
    assert("function_pattern"@.len() != "arity"@.len());
    assert("project"@.len() != "module_pattern"@.len());
    assert("project"@.len() != "arity"@.len());
    assert("module_pattern"@.len() != "arity"@.len());
}

/// The columns are in ascending order of their names, as SurrealDB gives them.
pub proof fn lemma_locations_columns_ascending()
    ensures
        names_ascending(locations_columns()),
{
    let c = locations_columns();
    reveal_strlit("arity");
    reveal_strlit("end_line");
    reveal_strlit("file");
    reveal_strlit("guard");
    reveal_strlit("kind");
    reveal_strlit("line");
    reveal_strlit("module");
    reveal_strlit("name");
    reveal_strlit("pattern");
    reveal_strlit("project");
    reveal_strlit("start_line");
    assert(c[0] == "arity"@ && c[1] == "end_line"@);
    assert((c[0][0] as int) < (c[1][0] as int));
    lemma_lex_less(c[0], c[1], 0);
    assert(c[1] == "end_line"@ && c[2] == "file"@);
    assert((c[1][0] as int) < (c[2][0] as int));
    lemma_lex_less(c[1], c[2], 0);
    assert(c[2] == "file"@ && c[3] == "guard"@);
    assert((c[2][0] as int) < (c[3][0] as int));
    lemma_lex_less(c[2], c[3], 0);
    assert(c[3] == "guard"@ && c[4] == "kind"@);
    assert((c[3][0] as int) < (c[4][0] as int));
    lemma_lex_less(c[3], c[4], 0);
    assert(c[4] == "kind"@ && c[5] == "line"@);
    assert((c[4][0] as int) < (c[5][0] as int));
    lemma_lex_less(c[4], c[5], 0);
    assert(c[5] == "line"@ && c[6] == "module"@);
    assert((c[5][0] as int) < (c[6][0] as int));
    lemma_lex_less(c[5], c[6], 0);
    assert(c[6] == "module"@ && c[7] == "name"@);
    assert((c[6][0] as int) < (c[7][0] as int));
    lemma_lex_less(c[6], c[7], 0);
    assert(c[7] == "name"@ && c[8] == "pattern"@);
    assert((c[7][0] as int) < (c[8][0] as int));
    lemma_lex_less(c[7], c[8], 0);
    assert(c[8] == "pattern"@ && c[9] == "project"@);
    assert(c[8].subrange(0, 1) =~= c[9].subrange(0, 1));
    assert forall|i: int| 0 <= i < 1 implies c[8][i] == c[9][i] by { assert(c[8][i] == c[8].subrange(0, 1)[i]); assert(c[9][i] == c[9].subrange(0, 1)[i]); }
    assert((c[8][1] as int) < (c[9][1] as int));
    lemma_lex_less(c[8], c[9], 1);
    assert(c[9] == "project"@ && c[10] == "start_line"@);
    assert((c[9][0] as int) < (c[10][0] as int));
    lemma_lex_less(c[9], c[10], 0);
    assert forall|k: int| 0 <= k < c.len() - 1 implies lex_order(#[trigger] c[k], c[k + 1]) < 0 by {
        assert(k == 0 || k == 1 || k == 2 || k == 3 || k == 4 || k == 5 || k == 6 || k == 7 || k == 8 || k == 9);
    }
    lemma_names_ascending_from_adjacent(c);
}

/// The script's answer has the columns `locations_cozo_columns` lists: they are the head of
/// its query rule.
pub proof fn lemma_locations_cozo_columns_head(module_pattern: Option<Seq<char>>, arity: Option<i64>, use_regex: bool, limit: u32)
    ensures
        contains_seq(locations_cozo_text(module_pattern, arity, use_regex, limit), "?["@ + joined(locations_cozo_columns(), ", "@) + "]"@),
{
    let c = locations_cozo_columns();
    reveal_strlit(", ");
    reveal_strlit("project");
    reveal_strlit("file");
    reveal_strlit("line");
    reveal_strlit("start_line");
    reveal_strlit("end_line");
    reveal_strlit("module");
    reveal_strlit("kind");
    reveal_strlit("name");
    reveal_strlit("arity");
    reveal_strlit("pattern");
    reveal_strlit("guard");
    assert(c.take(1)[0] == c[0]);
    assert(joined(c.take(1), ", "@) =~= "project"@);
    reveal_strlit("project, file");
    assert(c.take(2).drop_last() =~= c.take(1));
    assert(c.take(2).last() == c[1]);
    assert(joined(c.take(2), ", "@) =~= "project, file"@);
    reveal_strlit("project, file, line");
    assert(c.take(3).drop_last() =~= c.take(2));
    assert(c.take(3).last() == c[2]);
    assert(joined(c.take(3), ", "@) =~= "project, file, line"@);
    reveal_strlit("project, file, line, start_line");
    assert(c.take(4).drop_last() =~= c.take(3));
    assert(c.take(4).last() == c[3]);
    assert(joined(c.take(4), ", "@) =~= "project, file, line, start_line"@);
    reveal_strlit("project, file, line, start_line, end_line");
    assert(c.take(5).drop_last() =~= c.take(4));
    assert(c.take(5).last() == c[4]);
    assert(joined(c.take(5), ", "@) =~= "project, file, line, start_line, end_line"@);
    reveal_strlit("project, file, line, start_line, end_line, module");
    assert(c.take(6).drop_last() =~= c.take(5));
    assert(c.take(6).last() == c[5]);
    assert(joined(c.take(6), ", "@) =~= "project, file, line, start_line, end_line, module"@);
    reveal_strlit("project, file, line, start_line, end_line, module, kind");
    assert(c.take(7).drop_last() =~= c.take(6));
    assert(c.take(7).last() == c[6]);
    assert(joined(c.take(7), ", "@) =~= "project, file, line, start_line, end_line, module, kind"@);
    reveal_strlit("project, file, line, start_line, end_line, module, kind, name");
    assert(c.take(8).drop_last() =~= c.take(7));
    assert(c.take(8).last() == c[7]);
    assert(joined(c.take(8), ", "@) =~= "project, file, line, start_line, end_line, module, kind, name"@);
    reveal_strlit("project, file, line, start_line, end_line, module, kind, name, arity");
    assert(c.take(9).drop_last() =~= c.take(8));
    assert(c.take(9).last() == c[8]);
    assert(joined(c.take(9), ", "@) =~= "project, file, line, start_line, end_line, module, kind, name, arity"@);
    reveal_strlit("project, file, line, start_line, end_line, module, kind, name, arity, pattern");
    assert(c.take(10).drop_last() =~= c.take(9));
    assert(c.take(10).last() == c[9]);
    assert(joined(c.take(10), ", "@) =~= "project, file, line, start_line, end_line, module, kind, name, arity, pattern"@);
    reveal_strlit("project, file, line, start_line, end_line, module, kind, name, arity, pattern, guard");
    assert(c.take(11).drop_last() =~= c.take(10));
    assert(c.take(11).last() == c[10]);
    assert(joined(c.take(11), ", "@) =~= "project, file, line, start_line, end_line, module, kind, name, arity, pattern, guard"@);
    assert(c.take(11) =~= c);
    reveal_strlit("?[");
    reveal_strlit("]");
    reveal_strlit("?[project, file, line, start_line, end_line, module, kind, name, arity, pattern, guard]");
    assert(("?["@ + joined(c, ", "@) + "]"@) =~= "?[project, file, line, start_line, end_line, module, kind, name, arity, pattern, guard]"@);
    reveal_strlit(r#"
        ?[project, file, line, start_line, end_line, module, kind, name, arity, pattern, guard] :=
            *function_locations{project, module, name, arity, line, file, kind, start_line, end_line, pattern, guard},
            "#);
    let t = locations_cozo_text(module_pattern, arity, use_regex, limit);
    let l = r#"
        ?[project, file, line, start_line, end_line, module, kind, name, arity, pattern, guard] :=
            *function_locations{project, module, name, arity, line, file, kind, start_line, end_line, pattern, guard},
            "#@;
    assert(t =~= Seq::<char>::empty() + l + t.subrange(l.len() as int, t.len() as int));
    assert(l.subrange(9, 96) =~= "?[project, file, line, start_line, end_line, module, kind, name, arity, pattern, guard]"@);
    lemma_contains_piece(Seq::<char>::empty(), l, t.subrange(l.len() as int, t.len() as int), 9, "?[project, file, line, start_line, end_line, module, kind, name, arity, pattern, guard]"@);
}

} // verus!
