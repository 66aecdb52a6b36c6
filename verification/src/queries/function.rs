//! Finding function signatures.

use vstd::prelude::*;
use crate::query_builders::{cozo_match, cozo_module_cond, push_cozo_match, push_cozo_module_cond};
use crate::text::{decimal_int, push_decimal};
use crate::text::{string_views, push_text, where_text, where_clause};
use crate::backend::{Database, QueryParams, QueryResult, Row, Value, ParamView, ValueType};
use crate::db::{DbError, cell_text, cell_text_or, cell_int_or, get_string, get_string_or, get_i64_or};
use crate::query_builders::{validate_regex_patterns, first_invalid_pattern, opt_str_view, pattern_views};
use crate::queries::rows::{CozoRecord, read_cozo_rows, decode_cozo_rows, RowRecord, views, read_rows, decode_rows, distinct_names, int_in_column, text_in_column, text_at_column, lemma_named_cell};
use crate::sorting::{Keyed, KeyPart, SortField, key_view, sorted_by, stable_sort, ordered_by_key, lemma_sorted_by_ordered, lemma_sorted_by_permutation};
use crate::text::chars_of;


use crate::backend::surreal_rows::{names_ascending, lemma_names_ascending_from_adjacent};
use crate::text::{lex_order, lemma_lex_less, contains_seq, lemma_contains_piece, joined};

verus! {

/// Errors of the query.
#[derive(Debug)]
pub enum FunctionError {
    QueryFailed { message: String },
    InvalidRegex { pattern: String },
}

impl FunctionError {
    /// The error's text.
    pub open spec fn message(&self) -> Seq<char> {
        match self {
            FunctionError::QueryFailed { message } => "Function query failed: "@ + message@,
            FunctionError::InvalidRegex { pattern } => "Invalid regex pattern: "@ + pattern@,
        }
    }

    /// The error's text (what `Display` writes).
    pub fn to_string(&self) -> (r: String)
        ensures
            r@ == self.message(),
    {
        let mut r = String::new();
        match self {
            FunctionError::QueryFailed { message } => {
                r.append("Function query failed: ");
                r.append(message.as_str());
            },
            FunctionError::InvalidRegex { pattern } => {
                r.append("Invalid regex pattern: ");
                r.append(pattern.as_str());
            },
        }
        r
    }
}

/// A function signature
#[derive(Debug, Clone)]
pub struct FunctionSignature {
    pub project: String,
    pub module: String,
    pub name: String,
    pub arity: i64,
    pub args: String,
    pub return_type: String,
}

/// What a `FunctionSignature` holds, as plain values.
pub struct FunctionSignatureView {
    pub project: Seq<char>,
    pub module: Seq<char>,
    pub name: Seq<char>,
    pub arity: i64,
    pub args: Seq<char>,
    pub return_type: Seq<char>,
}

impl View for FunctionSignature {
    type V = FunctionSignatureView;

    open spec fn view(&self) -> FunctionSignatureView {
        FunctionSignatureView {
            project: self.project@,
            module: self.module@,
            name: self.name@,
            arity: self.arity,
            args: self.args@,
            return_type: self.return_type@,
        }
    }
}

impl RowRecord for FunctionSignature {
    open spec fn read(row: Seq<Value>) -> Option<FunctionSignatureView> {
        if row.len() >= 6 {
            match (cell_text(row, 2), cell_text(row, 3), cell_text(row, 4)) {
                (Some(v_module), Some(v_name), Some(v_project)) => Some(FunctionSignatureView { project: v_project, module: v_module, name: v_name, arity: cell_int_or(row, 1, 0), args: cell_text_or(row, 0, ""@), return_type: cell_text_or(row, 5, ""@) }),
                _ => None,
            }
        } else {
            None
        }
    }

    fn from_row(row: &Row) -> (r: Option<FunctionSignature>) {
        if row.len() < 6 {
            return None;
        }
        let project = get_string(row, 4)?;
        let module = get_string(row, 2)?;
        let name = get_string(row, 3)?;
        let arity = get_i64_or(row, 1, 0);
        let args = get_string_or(row, 0, "");
        let return_type = get_string_or(row, 5, "");
        Some(FunctionSignature { project, module, name, arity, args, return_type })
    }
}

impl Keyed for FunctionSignature {
    open spec fn view_key(v: FunctionSignatureView) -> Seq<SortField> {
        seq![SortField::Text(v.module), SortField::Text(v.name), SortField::Asc(v.arity as int)]
    }

    fn key(&self) -> (k: Vec<KeyPart>) {
        let k = vec![KeyPart::Text(chars_of(self.module.as_str())), KeyPart::Text(chars_of(self.name.as_str())), KeyPart::Asc(self.arity)];
        assert(key_view(k@) =~= Self::view_key(self@));
        k
    }
}

/// The query text for the given filters.
pub open spec fn functions_query_text(arity: Option<i64>, use_regex: bool) -> Seq<char> {
    r#"
        SELECT "default" as project, module_name as module, name, arity, "" as args, return_type
        FROM functions
        WHERE "#@
        + (if use_regex { "module_name = <regex>$module_pattern"@ } else { "module_name = $module_pattern"@ })
        + r#"
          AND "#@
        + (if use_regex { "name = <regex>$function_pattern"@ } else { "name = $function_pattern"@ })
        + r#"
          "#@
        + (if arity is Some { "AND arity = $arity"@ } else { ""@ })
        + r#"
        ORDER BY module_name ASC, name ASC, arity ASC
        LIMIT $limit
        "#@
}

/// The parameters of the query.
pub open spec fn functions_params(module_pattern: Seq<char>, function_pattern: Seq<char>, arity: Option<i64>, limit: u32) -> Map<Seq<char>, ParamView> {
    let m = Map::<Seq<char>, ParamView>::empty();
    let m = m.insert("module_pattern"@, ParamView::Str(module_pattern));
    let m = m.insert("function_pattern"@, ParamView::Str(function_pattern));
    let m = m.insert("limit"@, ParamView::Int(limit as i64));
    let m = match arity { Some(a) => m.insert("arity"@, ParamView::Int(a)), None => m };
    m
}

/// Builds the query text and parameters.
pub fn functions_query(module_pattern: &str, function_pattern: &str, arity: Option<i64>, use_regex: bool, limit: u32) -> (r: (String, QueryParams))
    ensures
        r.0@ == functions_query_text(arity, use_regex),
        r.1.binds_exactly(functions_params(module_pattern@, function_pattern@, arity, limit)),
{
    let mut query = String::new();
    query.append(r#"
        SELECT "default" as project, module_name as module, name, arity, "" as args, return_type
        FROM functions
        WHERE "#);
    let part_module_clause: &str = if use_regex { "module_name = <regex>$module_pattern" } else { "module_name = $module_pattern" };
    query.append(part_module_clause);
    query.append(r#"
          AND "#);
    let part_function_clause: &str = if use_regex { "name = <regex>$function_pattern" } else { "name = $function_pattern" };
    query.append(part_function_clause);
    query.append(r#"
          "#);
    let part_arity_clause: &str = if arity.is_some() { "AND arity = $arity" } else { "" };
    query.append(part_arity_clause);
    query.append(r#"
        ORDER BY module_name ASC, name ASC, arity ASC
        LIMIT $limit
        "#);
    let mut params = QueryParams::new();
    params = params.with_str("module_pattern", module_pattern);
    params = params.with_str("function_pattern", function_pattern);
    params = params.with_int("limit", limit as i64);
    match arity {
        Some(a) => {
            params = params.with_int("arity", a);
        },
        None => {},
    }
    (query, params)
}

/// Find the signatures of the functions matching the module and function
/// patterns (and the arity when given), ordered by module, name and arity.
pub fn find_functions<D: Database + ?Sized>(db: &D, module_pattern: &str, function_pattern: &str, arity: Option<i64>, _project: &str, use_regex: bool, limit: u32) -> (r: Result<Vec<FunctionSignature>, FunctionError>)
    ensures
        match r {
            Err(FunctionError::InvalidRegex { pattern: bad }) => first_invalid_pattern(use_regex, seq![Some(module_pattern@), Some(function_pattern@)]) == Some(bad@),
            Err(FunctionError::QueryFailed { message }) => first_invalid_pattern(use_regex, seq![Some(module_pattern@), Some(function_pattern@)]) is None
                && exists|p: QueryParams, e: DbError| p.binds_exactly(functions_params(module_pattern@, function_pattern@, arity, limit))
                    && #[trigger] db.answers(functions_query_text(arity, use_regex), p, Err(e)) && message@ == e.message(),
            Ok(v) => first_invalid_pattern(use_regex, seq![Some(module_pattern@), Some(function_pattern@)]) is None
                && exists|p: QueryParams, res: QueryResult| p.binds_exactly(functions_params(module_pattern@, function_pattern@, arity, limit))
                    && #[trigger] db.answers(functions_query_text(arity, use_regex), p, Ok(res))
                    && ({ let d = read_rows::<FunctionSignature>(res.rows@); views(v@) == sorted_by::<FunctionSignature>(d) })
                    && ({ let d = read_rows::<FunctionSignature>(res.rows@); ordered_by_key::<FunctionSignature>(views(v@)) && views(v@).to_multiset() == d.to_multiset() }),
        },
{
    let pats: [Option<&str>; 2] = [Some(module_pattern), Some(function_pattern)];
    assert(pattern_views(pats@) =~= seq![Some(module_pattern@), Some(function_pattern@)]);
    match validate_regex_patterns(use_regex, &pats) {
        Err(p) => {
            return Err(FunctionError::InvalidRegex { pattern: p });
        },
        Ok(()) => {},
    }
    let (query, params) = functions_query(module_pattern, function_pattern, arity, use_regex, limit);
    let ghost gp = params;
    match db.execute_query(query.as_str(), params) {
        Ok(res) => {
            let v = decode_rows::<FunctionSignature>(&res.rows);
            let ghost decoded = views(v@);
            let out = stable_sort(v);
            proof {
                lemma_sorted_by_ordered::<FunctionSignature>(decoded);
                lemma_sorted_by_permutation::<FunctionSignature>(decoded);
            }
            assert(db.answers(query@, gp, Ok(res)));
            Ok(out)
        },
        Err(e) => {
            let ghost ge = e;
            let message = e.to_string();
            assert(db.answers(query@, gp, Err(ge)));
            Err(FunctionError::QueryFailed { message })
        },
    }
}



/// The parameters of the CozoDB script.
pub open spec fn functions_cozo_params(module_pattern: Seq<char>, function_pattern: Seq<char>, project: Seq<char>, arity: Option<i64>) -> Map<Seq<char>, ParamView> {
    let m = Map::<Seq<char>, ParamView>::empty();
    let m = m.insert("module_pattern"@, ParamView::Str(module_pattern));
    let m = m.insert("function_pattern"@, ParamView::Str(function_pattern));
    let m = m.insert("project"@, ParamView::Str(project));
    match arity { Some(a) => m.insert("arity"@, ParamView::Int(a)), None => m }
}

/// The CozoDB script for the given filters.
pub open spec fn functions_cozo_text(arity: Option<i64>, use_regex: bool, limit: u32) -> Seq<char> {
    r#"
        ?[project, module, name, arity, args, return_type] :=
            *functions{project, module, name, arity, args, return_type},
            "#@
        + (cozo_match("module"@, "module_pattern"@, use_regex))
        + r#"
            , "#@
        + (cozo_match("name"@, "function_pattern"@, use_regex))
        + r#"
            "#@
        + (if arity is Some { ", arity == $arity"@ } else { ""@ })
        + r#"
            , project == $project
        :order module, name, arity
        :limit "#@
        + (decimal_int(limit as int))
        + r#"
        "#@
}

/// Builds the CozoDB script and its parameters.
pub fn functions_cozo_script(module_pattern: &str, function_pattern: &str, arity: Option<i64>, project: &str, use_regex: bool, limit: u32) -> (r: (String, QueryParams))
    ensures
        r.0@ == functions_cozo_text(arity, use_regex, limit),
        r.1.binds_exactly(functions_cozo_params(module_pattern@, function_pattern@, project@, arity)),
{
    let mut query = String::new();
    query.append(r#"
        ?[project, module, name, arity, args, return_type] :=
            *functions{project, module, name, arity, args, return_type},
            "#);
    push_cozo_match(&mut query, "module", "module_pattern", use_regex);
    query.append(r#"
            , "#);
    push_cozo_match(&mut query, "name", "function_pattern", use_regex);
    query.append(r#"
            "#);
    query.append(if arity.is_some() { ", arity == $arity" } else { "" });
    query.append(r#"
            , project == $project
        :order module, name, arity
        :limit "#);
    push_decimal(&mut query, limit as i64);
    query.append(r#"
        "#);
    let mut params = QueryParams::new();
    params = params.with_str("module_pattern", module_pattern);
    params = params.with_str("function_pattern", function_pattern);
    params = params.with_str("project", project);
    match arity {
        Some(a) => {
            params = params.with_int("arity", a);
        },
        None => {},
    }
    assert(query@ =~= functions_cozo_text(arity, use_regex, limit));
    (query, params)
}

impl CozoRecord for FunctionSignature {
    open spec fn read_cozo(row: Seq<Value>) -> Option<FunctionSignatureView> {
        if row.len() >= 6 {
            match (cell_text(row, 0), cell_text(row, 1), cell_text(row, 2)) {
                (Some(v_project), Some(v_module), Some(v_name)) => Some(FunctionSignatureView { project: v_project, module: v_module, name: v_name, arity: cell_int_or(row, 3, 0), args: cell_text_or(row, 4, ""@), return_type: cell_text_or(row, 5, ""@) }),
                _ => None,
            }
        } else {
            None
        }
    }

    fn from_cozo_row(row: &Row) -> (r: Option<FunctionSignature>) {
        if row.len() < 6 {
            return None;
        }
        let project = get_string(row, 0)?;
        let module = get_string(row, 1)?;
        let name = get_string(row, 2)?;
        let arity = get_i64_or(row, 3, 0);
        let args = get_string_or(row, 4, "");
        let return_type = get_string_or(row, 5, "");
        Some(FunctionSignature { project, module, name, arity, args, return_type })
    }
}

/// Find functions on CozoDB: the functions of the project whose module and
/// name match the patterns (by regex or equality), with the arity when given,
/// ordered by module, name and arity, at most `limit` of them, as the script
/// gives them.
pub fn find_functions_cozo<D: Database + ?Sized>(db: &D, module_pattern: &str, function_pattern: &str, arity: Option<i64>, project: &str, use_regex: bool, limit: u32) -> (r: Result<Vec<FunctionSignature>, FunctionError>)
    ensures
        match r {
            Err(FunctionError::InvalidRegex { pattern: bad }) => first_invalid_pattern(use_regex, seq![Some(module_pattern@), Some(function_pattern@)]) == Some(bad@),
            Err(FunctionError::QueryFailed { message }) => first_invalid_pattern(use_regex, seq![Some(module_pattern@), Some(function_pattern@)]) is None
                && exists|p: QueryParams, e: DbError| p.binds_exactly(functions_cozo_params(module_pattern@, function_pattern@, project@, arity))
                    && #[trigger] db.answers(functions_cozo_text(arity, use_regex, limit), p, Err(e)) && message@ == e.message(),
            Ok(v) => first_invalid_pattern(use_regex, seq![Some(module_pattern@), Some(function_pattern@)]) is None
                && exists|p: QueryParams, res: QueryResult| p.binds_exactly(functions_cozo_params(module_pattern@, function_pattern@, project@, arity))
                    && #[trigger] db.answers(functions_cozo_text(arity, use_regex, limit), p, Ok(res))
                    && views(v@) == read_cozo_rows::<FunctionSignature>(res.rows@),
        },
{
    let pats: [Option<&str>; 2] = [Some(module_pattern), Some(function_pattern)];
    assert(pattern_views(pats@) =~= seq![Some(module_pattern@), Some(function_pattern@)]);
    match validate_regex_patterns(use_regex, &pats) {
        Err(p) => {
            return Err(FunctionError::InvalidRegex { pattern: p });
        },
        Ok(()) => {},
    }
    let (query, params) = functions_cozo_script(module_pattern, function_pattern, arity, project, use_regex, limit);
    let ghost gp = params;
    match db.execute_query(query.as_str(), params) {
        Ok(res) => {
            let v = decode_cozo_rows::<FunctionSignature>(&res.rows);
            assert(db.answers(query@, gp, Ok(res)));
            Ok(v)
        },
        Err(e) => {
            let ghost ge = e;
            let message = e.to_string();
            assert(db.answers(query@, gp, Err(ge)));
            Err(FunctionError::QueryFailed { message })
        },
    }
}

/// The columns of the query's answer, as SurrealDB gives them: the names
/// the query selects, in alphabetical order.
pub open spec fn functions_columns() -> Seq<Seq<char>> {
    seq!["args"@, "arity"@, "module"@, "name"@, "project"@, "return_type"@]
}

proof fn lemma_functions_columns_distinct()
    ensures
        distinct_names(functions_columns()),
{
    let c = functions_columns();
    reveal_strlit("args");
    reveal_strlit("arity");
    reveal_strlit("module");
    reveal_strlit("name");
    reveal_strlit("project");
    reveal_strlit("return_type");
    assert(c[0] == "args"@);
    assert(c[1] == "arity"@);
    assert(c[2] == "module"@);
    assert(c[3] == "name"@);
    assert(c[4] == "project"@);
    assert(c[5] == "return_type"@);
    assert(c[0].len() != c[1].len());
    assert(c[0] != c[1]);
    assert(c[0].len() != c[2].len());
    assert(c[0] != c[2]);
    assert(c[0][0] != c[3][0]);
    assert(c[0] != c[3]);
    assert(c[0].len() != c[4].len());
    assert(c[0] != c[4]);
    assert(c[0].len() != c[5].len());
    assert(c[0] != c[5]);
    assert(c[1].len() != c[2].len());
    assert(c[1] != c[2]);
    assert(c[1].len() != c[3].len());
    assert(c[1] != c[3]);
    assert(c[1].len() != c[4].len());
    assert(c[1] != c[4]);
    assert(c[1].len() != c[5].len());
    assert(c[1] != c[5]);
    assert(c[2].len() != c[3].len());
    assert(c[2] != c[3]);
    assert(c[2].len() != c[4].len());
    assert(c[2] != c[4]);
    assert(c[2].len() != c[5].len());
    assert(c[2] != c[5]);
    assert(c[3].len() != c[4].len());
    assert(c[3] != c[4]);
    assert(c[3].len() != c[5].len());
    assert(c[3] != c[5]);
    assert(c[4].len() != c[5].len());
    assert(c[4] != c[5]);
    assert forall|i: int, j: int| 0 <= i < c.len() && 0 <= j < c.len() && i != j implies #[trigger] c[i] != #[trigger] c[j] by {
        assert(i == 0 || i == 1 || i == 2 || i == 3 || i == 4 || i == 5);
        assert(j == 0 || j == 1 || j == 2 || j == 3 || j == 4 || j == 5);
    }
}

/// Each field of a record read from a row of the answer is the value in the
/// column of that field's name; a row gives a record exactly when it has
/// every column and text in the columns `module`, `name`, `project`.
pub proof fn lemma_function_signature_named_columns(row: Seq<Value>)
    ensures
        FunctionSignature::read(row) is Some <==> (row.len() >= functions_columns().len() && text_at_column(functions_columns(), row, "module"@) && text_at_column(functions_columns(), row, "name"@) && text_at_column(functions_columns(), row, "project"@)),
        FunctionSignature::read(row) matches Some(m) ==> {
            &&& text_in_column(functions_columns(), row, "project"@, m.project, ""@)
            &&& text_in_column(functions_columns(), row, "module"@, m.module, ""@)
            &&& text_in_column(functions_columns(), row, "name"@, m.name, ""@)
            &&& int_in_column(functions_columns(), row, "arity"@, m.arity, 0)
            &&& text_in_column(functions_columns(), row, "args"@, m.args, ""@)
            &&& text_in_column(functions_columns(), row, "return_type"@, m.return_type, ""@)
        },
{
    lemma_functions_columns_distinct();
    let c = functions_columns();
    assert(c[0] == "args"@);
    lemma_named_cell(c, row, 0);
    assert(c[1] == "arity"@);
    lemma_named_cell(c, row, 1);
    assert(c[2] == "module"@);
    lemma_named_cell(c, row, 2);
    assert(c[3] == "name"@);
    lemma_named_cell(c, row, 3);
    assert(c[4] == "project"@);
    lemma_named_cell(c, row, 4);
    assert(c[5] == "return_type"@);
    lemma_named_cell(c, row, 5);
}

/// The columns of the script's answer: the head of its query rule, in order.
pub open spec fn functions_cozo_columns() -> Seq<Seq<char>> {
    seq!["project"@, "module"@, "name"@, "arity"@, "args"@, "return_type"@]
}

proof fn lemma_functions_cozo_columns_distinct()
    ensures
        distinct_names(functions_cozo_columns()),
{
    let c = functions_cozo_columns();
    reveal_strlit("project");
    reveal_strlit("module");
    reveal_strlit("name");
    reveal_strlit("arity");
    reveal_strlit("args");
    reveal_strlit("return_type");
    assert(c[0] == "project"@);
    assert(c[1] == "module"@);
    assert(c[2] == "name"@);
    assert(c[3] == "arity"@);
    assert(c[4] == "args"@);
    assert(c[5] == "return_type"@);
    assert(c[0].len() != c[1].len());
    assert(c[0] != c[1]);
    assert(c[0].len() != c[2].len());
    assert(c[0] != c[2]);
    assert(c[0].len() != c[3].len());
    assert(c[0] != c[3]);
    assert(c[0].len() != c[4].len());
    assert(c[0] != c[4]);
    assert(c[0].len() != c[5].len());
    assert(c[0] != c[5]);
    assert(c[1].len() != c[2].len());
    assert(c[1] != c[2]);
    assert(c[1].len() != c[3].len());
    assert(c[1] != c[3]);
    assert(c[1].len() != c[4].len());
    assert(c[1] != c[4]);
    assert(c[1].len() != c[5].len());
    assert(c[1] != c[5]);
    assert(c[2].len() != c[3].len());
    assert(c[2] != c[3]);
    assert(c[2][0] != c[4][0]);
    assert(c[2] != c[4]);
    assert(c[2].len() != c[5].len());
    assert(c[2] != c[5]);
    assert(c[3].len() != c[4].len());
    assert(c[3] != c[4]);
    assert(c[3].len() != c[5].len());
    assert(c[3] != c[5]);
    assert(c[4].len() != c[5].len());
    assert(c[4] != c[5]);
    assert forall|i: int, j: int| 0 <= i < c.len() && 0 <= j < c.len() && i != j implies #[trigger] c[i] != #[trigger] c[j] by {
        assert(i == 0 || i == 1 || i == 2 || i == 3 || i == 4 || i == 5);
        assert(j == 0 || j == 1 || j == 2 || j == 3 || j == 4 || j == 5);
    }
}

/// Each field of a record read from a row of the answer is the value in the
/// column of that field's name; a row gives a record exactly when it has
/// every column and text in the columns `project`, `module`, `name`.
pub proof fn lemma_function_signature_cozo_named_columns(row: Seq<Value>)
    ensures
        FunctionSignature::read_cozo(row) is Some <==> (row.len() >= functions_cozo_columns().len() && text_at_column(functions_cozo_columns(), row, "project"@) && text_at_column(functions_cozo_columns(), row, "module"@) && text_at_column(functions_cozo_columns(), row, "name"@)),
        FunctionSignature::read_cozo(row) matches Some(m) ==> {
            &&& text_in_column(functions_cozo_columns(), row, "project"@, m.project, ""@)
            &&& text_in_column(functions_cozo_columns(), row, "module"@, m.module, ""@)
            &&& text_in_column(functions_cozo_columns(), row, "name"@, m.name, ""@)
            &&& int_in_column(functions_cozo_columns(), row, "arity"@, m.arity, 0)
            &&& text_in_column(functions_cozo_columns(), row, "args"@, m.args, ""@)
            &&& text_in_column(functions_cozo_columns(), row, "return_type"@, m.return_type, ""@)
        },
{
    lemma_functions_cozo_columns_distinct();
    let c = functions_cozo_columns();
    assert(c[0] == "project"@);
    lemma_named_cell(c, row, 0);
    assert(c[1] == "module"@);
    lemma_named_cell(c, row, 1);
    assert(c[2] == "name"@);
    lemma_named_cell(c, row, 2);
    assert(c[3] == "arity"@);
    lemma_named_cell(c, row, 3);
    assert(c[4] == "args"@);
    lemma_named_cell(c, row, 4);
    assert(c[5] == "return_type"@);
    lemma_named_cell(c, row, 5);
}

/// The query binds each of its parameters to the input of that name, and binds an optional one exactly when it is given.
pub proof fn lemma_functions_params_bind_inputs(module_pattern: Seq<char>, function_pattern: Seq<char>, arity: Option<i64>, limit: u32)
    ensures
        ({
            let m = functions_params(module_pattern, function_pattern, arity, limit);
            &&& m.dom().contains("module_pattern"@) && m["module_pattern"@] == ParamView::Str(module_pattern)
            &&& m.dom().contains("function_pattern"@) && m["function_pattern"@] == ParamView::Str(function_pattern)
            &&& match arity { Some(v) => m.dom().contains("arity"@) && m["arity"@] == ParamView::Int(v), None => !m.dom().contains("arity"@) }
            &&& m.dom().contains("limit"@) && m["limit"@] == ParamView::Int(limit as i64)
        }),
{
    reveal_strlit("module_pattern");
    reveal_strlit("function_pattern");
    reveal_strlit("arity");
    reveal_strlit("limit");
    assert("module_pattern"@.len() != "function_pattern"@.len());
    assert("module_pattern"@.len() != "arity"@.len());
    assert("module_pattern"@.len() != "limit"@.len());
    assert("function_pattern"@.len() != "arity"@.len());
    assert("function_pattern"@.len() != "limit"@.len());
    assert("arity"@[0] != "limit"@[0]);
}

/// The query binds each of its parameters to the input of that name, and binds an optional one exactly when it is given.
pub proof fn lemma_functions_cozo_params_bind_inputs(module_pattern: Seq<char>, function_pattern: Seq<char>, project: Seq<char>, arity: Option<i64>)
    ensures
        ({
            let m = functions_cozo_params(module_pattern, function_pattern, project, arity);
            &&& m.dom().contains("module_pattern"@) && m["module_pattern"@] == ParamView::Str(module_pattern)
            &&& m.dom().contains("function_pattern"@) && m["function_pattern"@] == ParamView::Str(function_pattern)
            &&& m.dom().contains("project"@) && m["project"@] == ParamView::Str(project)
            &&& match arity { Some(v) => m.dom().contains("arity"@) && m["arity"@] == ParamView::Int(v), None => !m.dom().contains("arity"@) }
        }),
{
    reveal_strlit("module_pattern");
    reveal_strlit("function_pattern");
    reveal_strlit("project");
    reveal_strlit("arity");
    assert("module_pattern"@.len() != "function_pattern"@.len());
    assert("module_pattern"@.len() != "project"@.len());
    assert("module_pattern"@.len() != "arity"@.len());
    assert("function_pattern"@.len() != "project"@.len());
    assert("function_pattern"@.len() != "arity"@.len());
    assert("project"@.len() != "arity"@.len());
}

/// The columns are in ascending order of their names, as SurrealDB gives them.
pub proof fn lemma_functions_columns_ascending()
    ensures
        names_ascending(functions_columns()),
{
    let c = functions_columns();
    reveal_strlit("args");
    reveal_strlit("arity");
    reveal_strlit("module");
    reveal_strlit("name");
    reveal_strlit("project");
    reveal_strlit("return_type");
    assert(c[0] == "args"@ && c[1] == "arity"@);
    assert(c[0].subrange(0, 2) =~= c[1].subrange(0, 2));
    assert forall|i: int| 0 <= i < 2 implies c[0][i] == c[1][i] by { assert(c[0][i] == c[0].subrange(0, 2)[i]); assert(c[1][i] == c[1].subrange(0, 2)[i]); }
    assert((c[0][2] as int) < (c[1][2] as int));
    lemma_lex_less(c[0], c[1], 2);
    assert(c[1] == "arity"@ && c[2] == "module"@);
    assert((c[1][0] as int) < (c[2][0] as int));
    lemma_lex_less(c[1], c[2], 0);
    assert(c[2] == "module"@ && c[3] == "name"@);
    assert((c[2][0] as int) < (c[3][0] as int));
    lemma_lex_less(c[2], c[3], 0);
    assert(c[3] == "name"@ && c[4] == "project"@);
    assert((c[3][0] as int) < (c[4][0] as int));
    lemma_lex_less(c[3], c[4], 0);
    assert(c[4] == "project"@ && c[5] == "return_type"@);
    assert((c[4][0] as int) < (c[5][0] as int));
    lemma_lex_less(c[4], c[5], 0);
    assert forall|k: int| 0 <= k < c.len() - 1 implies lex_order(#[trigger] c[k], c[k + 1]) < 0 by {
        assert(k == 0 || k == 1 || k == 2 || k == 3 || k == 4);
    }
    lemma_names_ascending_from_adjacent(c);
}

/// The script's answer has the columns `functions_cozo_columns` lists: they are the head of
/// its query rule.
pub proof fn lemma_functions_cozo_columns_head(arity: Option<i64>, use_regex: bool, limit: u32)
    ensures
        contains_seq(functions_cozo_text(arity, use_regex, limit), "?["@ + joined(functions_cozo_columns(), ", "@) + "]"@),
{
    let c = functions_cozo_columns();
    reveal_strlit(", ");
    reveal_strlit("project");
    reveal_strlit("module");
    reveal_strlit("name");
    reveal_strlit("arity");
    reveal_strlit("args");
    reveal_strlit("return_type");
    assert(c.take(1)[0] == c[0]);
    assert(joined(c.take(1), ", "@) =~= "project"@);
    reveal_strlit("project, module");
    assert(c.take(2).drop_last() =~= c.take(1));
    assert(c.take(2).last() == c[1]);
    assert(joined(c.take(2), ", "@) =~= "project, module"@);
    reveal_strlit("project, module, name");
    assert(c.take(3).drop_last() =~= c.take(2));
    assert(c.take(3).last() == c[2]);
    assert(joined(c.take(3), ", "@) =~= "project, module, name"@);
    reveal_strlit("project, module, name, arity");
    assert(c.take(4).drop_last() =~= c.take(3));
    assert(c.take(4).last() == c[3]);
    assert(joined(c.take(4), ", "@) =~= "project, module, name, arity"@);
    reveal_strlit("project, module, name, arity, args");
    assert(c.take(5).drop_last() =~= c.take(4));
    assert(c.take(5).last() == c[4]);
    assert(joined(c.take(5), ", "@) =~= "project, module, name, arity, args"@);
    reveal_strlit("project, module, name, arity, args, return_type");
    assert(c.take(6).drop_last() =~= c.take(5));
    assert(c.take(6).last() == c[5]);
    assert(joined(c.take(6), ", "@) =~= "project, module, name, arity, args, return_type"@);
    assert(c.take(6) =~= c);
    reveal_strlit("?[");
    reveal_strlit("]");
    reveal_strlit("?[project, module, name, arity, args, return_type]");
    assert(("?["@ + joined(c, ", "@) + "]"@) =~= "?[project, module, name, arity, args, return_type]"@);
    reveal_strlit(r#"
        ?[project, module, name, arity, args, return_type] :=
            *functions{project, module, name, arity, args, return_type},
            "#);
    let t = functions_cozo_text(arity, use_regex, limit);
    let l = r#"
        ?[project, module, name, arity, args, return_type] :=
            *functions{project, module, name, arity, args, return_type},
            "#@;
    assert(t =~= Seq::<char>::empty() + l + t.subrange(l.len() as int, t.len() as int));
    assert(l.subrange(9, 59) =~= "?[project, module, name, arity, args, return_type]"@);
    lemma_contains_piece(Seq::<char>::empty(), l, t.subrange(l.len() as int, t.len() as int), 9, "?[project, module, name, arity, args, return_type]"@);
}

} // verus!
