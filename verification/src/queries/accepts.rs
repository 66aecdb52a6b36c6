//! Finding functions by the types their specs accept.

use vstd::prelude::*;
use crate::query_builders::{cozo_match, cozo_module_cond, push_cozo_match, push_cozo_module_cond};
use crate::text::{decimal_int, push_decimal};
use crate::text::{string_views, push_text, where_text, where_clause};
use crate::backend::{Database, QueryParams, QueryResult, Row, Value, ParamView, ValueType};
use crate::db::{DbError, cell_text, cell_text_or, cell_int_or, get_string, get_string_or, get_i64_or};
use crate::query_builders::{validate_regex_patterns, first_invalid_pattern, opt_str_view, pattern_views};
use crate::queries::rows::{CozoRecord, read_cozo_rows, decode_cozo_rows, RowRecord, views, read_rows, decode_rows, distinct_names, int_in_column, text_in_column, text_at_column, lemma_named_cell};
use crate::text::{pattern_escaped, escape_pattern, joined, join_strings};

use crate::backend::surreal_rows::{names_ascending, lemma_names_ascending_from_adjacent};
use crate::text::{lex_order, lemma_lex_less, contains_seq, lemma_contains_piece};

verus! {


/// Errors of the query.
#[derive(Debug)]
pub enum AcceptsError {
    QueryFailed { message: String },
    InvalidRegex { pattern: String },
}

impl AcceptsError {
    /// The error's text.
    pub open spec fn message(&self) -> Seq<char> {
        match self {
            AcceptsError::QueryFailed { message } => "Accepts query failed: "@ + message@,
            AcceptsError::InvalidRegex { pattern } => "Invalid regex pattern: "@ + pattern@,
        }
    }

    /// The error's text (what `Display` writes).
    pub fn to_string(&self) -> (r: String)
        ensures
            r@ == self.message(),
    {
        let mut r = String::new();
        match self {
            AcceptsError::QueryFailed { message } => {
                r.append("Accepts query failed: ");
                r.append(message.as_str());
            },
            AcceptsError::InvalidRegex { pattern } => {
                r.append("Invalid regex pattern: ");
                r.append(pattern.as_str());
            },
        }
        r
    }
}

/// A function with its input type specification
#[derive(Debug, Clone)]
pub struct AcceptsEntry {
    pub project: String,
    pub module: String,
    pub name: String,
    pub arity: i64,
    pub inputs_string: String,
    pub return_string: String,
    pub line: i64,
}

/// What a `AcceptsEntry` holds, as plain values.
pub struct AcceptsEntryView {
    pub project: Seq<char>,
    pub module: Seq<char>,
    pub name: Seq<char>,
    pub arity: i64,
    pub inputs_string: Seq<char>,
    pub return_string: Seq<char>,
    pub line: i64,
}

impl View for AcceptsEntry {
    type V = AcceptsEntryView;

    open spec fn view(&self) -> AcceptsEntryView {
        AcceptsEntryView {
            project: self.project@,
            module: self.module@,
            name: self.name@,
            arity: self.arity,
            inputs_string: self.inputs_string@,
            return_string: self.return_string@,
            line: self.line,
        }
    }
}

impl RowRecord for AcceptsEntry {
    open spec fn read(row: Seq<Value>) -> Option<AcceptsEntryView> {
        if row.len() >= 8 {
            match (cell_text(row, 1), cell_text(row, 5), cell_text(row, 6)) {
                (Some(v_name), Some(v_module), Some(v_project)) => Some(AcceptsEntryView { project: v_project, module: v_module, name: v_name, arity: cell_int_or(row, 0, 0), inputs_string: cell_text_or(row, 3, ""@), return_string: cell_text_or(row, 7, ""@), line: cell_int_or(row, 4, 0) }),
                _ => None,
            }
        } else {
            None
        }
    }

    fn from_row(row: &Row) -> (r: Option<AcceptsEntry>) {
        if row.len() < 8 {
            return None;
        }
        let project = get_string(row, 6)?;
        let module = get_string(row, 5)?;
        let name = get_string(row, 1)?;
        let arity = get_i64_or(row, 0, 0);
        let inputs_string = get_string_or(row, 3, "");
        let return_string = get_string_or(row, 7, "");
        let line = get_i64_or(row, 4, 0);
        Some(AcceptsEntry { project, module, name, arity, inputs_string, return_string, line })
    }
}

/// The filters of the query: on the joined input types when a pattern is
/// given, and on the module when a module pattern is given.
pub open spec fn accepts_conditions(pattern: Seq<char>, module_pattern: Option<Seq<char>>, use_regex: bool) -> Seq<Seq<char>> {
    let by_input = if pattern.len() == 0 {
        Seq::empty()
    } else if use_regex {
        seq!["array::len(array::filter(input_strings, |$v| string::matches($v, /^"@ + pattern_escaped(pattern) + "/))) > 0"@]
    } else {
        seq!["string::contains(array::join(input_strings, ' '), '"@ + pattern_escaped(pattern) + "')"@]
    };
    let by_module = match module_pattern {
        Some(m) => if use_regex {
            seq!["string::matches(module_name, /^"@ + pattern_escaped(m) + "/)"@]
        } else {
            seq!["module_name = '"@ + pattern_escaped(m) + "'"@]
        },
        None => Seq::empty(),
    };
    by_input + by_module
}

/// The query text for the given filters.
pub open spec fn accepts_query_text(pattern: Seq<char>, module_pattern: Option<Seq<char>>, use_regex: bool) -> Seq<char> {
    let conditions = accepts_conditions(pattern, module_pattern, use_regex);
    if conditions.len() == 0 {
        r#"
        SELECT
            id,
            module_name,
            function_name,
            arity,
            line,
            "default" as project,
            array::join(input_strings, ", ") as inputs_string,
            array::join(return_strings, ", ") as return_string
        FROM specs
        ORDER BY module_name, function_name, arity
        LIMIT $limit
        "#@
    } else {
        r#"
        SELECT
            id,
            module_name,
            function_name,
            arity,
            line,
            "default" as project,
            array::join(input_strings, ", ") as inputs_string,
            array::join(return_strings, ", ") as return_string
        FROM specs
        "#@ + "WHERE "@ + joined(conditions, " AND "@) + r#"
        ORDER BY module_name, function_name, arity
        LIMIT $limit
        "#@
    }
}

/// The parameters of the query.
pub open spec fn accepts_params(limit: u32) -> Map<Seq<char>, ParamView> {
    Map::empty().insert("limit"@, ParamView::Int(limit as i64))
}

fn accepts_conditions_of(pattern: &str, module_pattern: Option<&str>, use_regex: bool) -> (r: Vec<String>)
    ensures
        string_views(r@) == accepts_conditions(pattern@, opt_str_view(module_pattern), use_regex),
{
    let mut conditions: Vec<String> = Vec::new();
    if !pattern.is_empty() {
        let escaped = escape_pattern(pattern);
        let mut c = String::new();
        if use_regex {
            c.append("array::len(array::filter(input_strings, |$v| string::matches($v, /^");
            c.append(escaped.as_str());
            c.append("/))) > 0");
        } else {
            c.append("string::contains(array::join(input_strings, ' '), '");
            c.append(escaped.as_str());
            c.append("')");
        }
        conditions.push(c);
    }
    let ghost first = conditions@;
    match module_pattern {
        Some(mod_pat) => {
            let escaped = escape_pattern(mod_pat);
            let mut c = String::new();
            if use_regex {
                c.append("string::matches(module_name, /^");
                c.append(escaped.as_str());
                c.append("/)");
            } else {
                c.append("module_name = '");
                c.append(escaped.as_str());
                c.append("'");
            }
            conditions.push(c);
            assert(string_views(conditions@) =~= string_views(first) + seq![c@]);
        },
        None => {
            assert(string_views(conditions@) =~= string_views(first) + Seq::empty());
        },
    }
    conditions
}

/// Builds the query text and parameters.
pub fn accepts_query(pattern: &str, module_pattern: Option<&str>, use_regex: bool, limit: u32) -> (r: (String, QueryParams))
    ensures
        r.0@ == accepts_query_text(pattern@, opt_str_view(module_pattern), use_regex),
        r.1.binds_exactly(accepts_params(limit)),
{
    let conditions = accepts_conditions_of(pattern, module_pattern, use_regex);
    let mut query = String::new();
    if conditions.len() == 0 {
        query.append(r#"
        SELECT
            id,
            module_name,
            function_name,
            arity,
            line,
            "default" as project,
            array::join(input_strings, ", ") as inputs_string,
            array::join(return_strings, ", ") as return_string
        FROM specs
        ORDER BY module_name, function_name, arity
        LIMIT $limit
        "#);
    } else {
        let joined_conditions = join_strings(&conditions, " AND ");
        query.append(r#"
        SELECT
            id,
            module_name,
            function_name,
            arity,
            line,
            "default" as project,
            array::join(input_strings, ", ") as inputs_string,
            array::join(return_strings, ", ") as return_string
        FROM specs
        "#);
        query.append("WHERE ");
        query.append(joined_conditions.as_str());
        query.append(r#"
        ORDER BY module_name, function_name, arity
        LIMIT $limit
        "#);
    }
    let params = QueryParams::new().with_int("limit", limit as i64);
    (query, params)
}


/// Find functions whose spec accepts a type matching `pattern` (a substring
/// of the joined input types, or a regex anchored at the start of one input
/// type), optionally within modules matching `module_pattern`, ordered by
/// module, name and arity, at most `limit` of them.
pub fn find_accepts<D: Database + ?Sized>(db: &D, pattern: &str, _project: &str, use_regex: bool, module_pattern: Option<&str>, limit: u32) -> (r: Result<Vec<AcceptsEntry>, AcceptsError>)
    ensures
        match r {
            Err(AcceptsError::InvalidRegex { pattern: bad }) => first_invalid_pattern(use_regex, seq![Some(pattern@), opt_str_view(module_pattern)]) == Some(bad@),
            Err(AcceptsError::QueryFailed { message }) => first_invalid_pattern(use_regex, seq![Some(pattern@), opt_str_view(module_pattern)]) is None
                && exists|p: QueryParams, e: DbError| p.binds_exactly(accepts_params(limit))
                    && #[trigger] db.answers(accepts_query_text(pattern@, opt_str_view(module_pattern), use_regex), p, Err(e)) && message@ == e.message(),
            Ok(v) => first_invalid_pattern(use_regex, seq![Some(pattern@), opt_str_view(module_pattern)]) is None
                && exists|p: QueryParams, res: QueryResult| p.binds_exactly(accepts_params(limit))
                    && #[trigger] db.answers(accepts_query_text(pattern@, opt_str_view(module_pattern), use_regex), p, Ok(res))
                    && ({ let d = read_rows::<AcceptsEntry>(res.rows@); views(v@) == d }),
        },
{
    let pats: [Option<&str>; 2] = [Some(pattern), module_pattern];
    assert(pattern_views(pats@) =~= seq![Some(pattern@), opt_str_view(module_pattern)]);
    match validate_regex_patterns(use_regex, &pats) {
        Err(p) => {
            return Err(AcceptsError::InvalidRegex { pattern: p });
        },
        Ok(()) => {},
    }
    let (query, params) = accepts_query(pattern, module_pattern, use_regex, limit);
    let ghost gp = params;
    match db.execute_query(query.as_str(), params) {
        Ok(res) => {
            let v = decode_rows::<AcceptsEntry>(&res.rows);
            let out = v;
            assert(db.answers(query@, gp, Ok(res)));
            Ok(out)
        },
        Err(e) => {
            let ghost ge = e;
            let message = e.to_string();
            assert(db.answers(query@, gp, Err(ge)));
            Err(AcceptsError::QueryFailed { message })
        },
    }
}


/// The parameters of the CozoDB script.
pub open spec fn accepts_cozo_params(pattern: Seq<char>, project: Seq<char>, module_pattern: Option<Seq<char>>) -> Map<Seq<char>, ParamView> {
    let m = Map::<Seq<char>, ParamView>::empty();
    let m = m.insert("pattern"@, ParamView::Str(pattern));
    let m = m.insert("project"@, ParamView::Str(project));
    match module_pattern { Some(mp) => m.insert("module_pattern"@, ParamView::Str(mp)), None => m }
}

/// The CozoDB script for the given filters.
pub open spec fn accepts_cozo_text(module_pattern: Option<Seq<char>>, use_regex: bool, limit: u32) -> Seq<char> {
    r#"
        ?[project, module, name, arity, inputs_string, return_string, line] :=
            *specs{project, module, name, arity, inputs_string, return_string, line},
            project == $project,
            "#@
        + (cozo_match("inputs_string"@, "pattern"@, use_regex))
        + r#"
            "#@
        + (cozo_module_cond(module_pattern is Some, use_regex))
        + r#"

        :order module, name, arity
        :limit "#@
        + (decimal_int(limit as int))
        + r#"
        "#@
}

/// Builds the CozoDB script and its parameters.
pub fn accepts_cozo_script(pattern: &str, project: &str, module_pattern: Option<&str>, use_regex: bool, limit: u32) -> (r: (String, QueryParams))
    ensures
        r.0@ == accepts_cozo_text(opt_str_view(module_pattern), use_regex, limit),
        r.1.binds_exactly(accepts_cozo_params(pattern@, project@, opt_str_view(module_pattern))),
{
    let mut query = String::new();
    query.append(r#"
        ?[project, module, name, arity, inputs_string, return_string, line] :=
            *specs{project, module, name, arity, inputs_string, return_string, line},
            project == $project,
            "#);
    push_cozo_match(&mut query, "inputs_string", "pattern", use_regex);
    query.append(r#"
            "#);
    push_cozo_module_cond(&mut query, module_pattern.is_some(), use_regex);
    query.append(r#"

        :order module, name, arity
        :limit "#);
    push_decimal(&mut query, limit as i64);
    query.append(r#"
        "#);
    let mut params = QueryParams::new();
    params = params.with_str("pattern", pattern);
    params = params.with_str("project", project);
    match module_pattern {
        Some(mp) => {
            params = params.with_str("module_pattern", mp);
        },
        None => {},
    }
    assert(query@ =~= accepts_cozo_text(opt_str_view(module_pattern), use_regex, limit));
    (query, params)
}

impl CozoRecord for AcceptsEntry {
    open spec fn read_cozo(row: Seq<Value>) -> Option<AcceptsEntryView> {
        if row.len() >= 7 {
            match (cell_text(row, 0), cell_text(row, 1), cell_text(row, 2)) {
                (Some(v_project), Some(v_module), Some(v_name)) => Some(AcceptsEntryView { project: v_project, module: v_module, name: v_name, arity: cell_int_or(row, 3, 0), inputs_string: cell_text_or(row, 4, ""@), return_string: cell_text_or(row, 5, ""@), line: cell_int_or(row, 6, 0) }),
                _ => None,
            }
        } else {
            None
        }
    }

    fn from_cozo_row(row: &Row) -> (r: Option<AcceptsEntry>) {
        if row.len() < 7 {
            return None;
        }
        let project = get_string(row, 0)?;
        let module = get_string(row, 1)?;
        let name = get_string(row, 2)?;
        let arity = get_i64_or(row, 3, 0);
        let inputs_string = get_string_or(row, 4, "");
        let return_string = get_string_or(row, 5, "");
        let line = get_i64_or(row, 6, 0);
        Some(AcceptsEntry { project, module, name, arity, inputs_string, return_string, line })
    }
}

/// Find functions whose spec accepts a type matching `pattern`, on CozoDB:
/// the specs of the project whose joined input types match the pattern (by
/// regex or equality), optionally within modules matching `module_pattern`,
/// ordered by module, name and arity, at most `limit` of them, as the
/// script gives them.
pub fn find_accepts_cozo<D: Database + ?Sized>(db: &D, pattern: &str, project: &str, use_regex: bool, module_pattern: Option<&str>, limit: u32) -> (r: Result<Vec<AcceptsEntry>, AcceptsError>)
    ensures
        match r {
            Err(AcceptsError::InvalidRegex { pattern: bad }) => first_invalid_pattern(use_regex, seq![Some(pattern@), opt_str_view(module_pattern)]) == Some(bad@),
            Err(AcceptsError::QueryFailed { message }) => first_invalid_pattern(use_regex, seq![Some(pattern@), opt_str_view(module_pattern)]) is None
                && exists|p: QueryParams, e: DbError| p.binds_exactly(accepts_cozo_params(pattern@, project@, opt_str_view(module_pattern)))
                    && #[trigger] db.answers(accepts_cozo_text(opt_str_view(module_pattern), use_regex, limit), p, Err(e)) && message@ == e.message(),
            Ok(v) => first_invalid_pattern(use_regex, seq![Some(pattern@), opt_str_view(module_pattern)]) is None
                && exists|p: QueryParams, res: QueryResult| p.binds_exactly(accepts_cozo_params(pattern@, project@, opt_str_view(module_pattern)))
                    && #[trigger] db.answers(accepts_cozo_text(opt_str_view(module_pattern), use_regex, limit), p, Ok(res))
                    && views(v@) == read_cozo_rows::<AcceptsEntry>(res.rows@),
        },
{
    let pats: [Option<&str>; 2] = [Some(pattern), module_pattern];
    assert(pattern_views(pats@) =~= seq![Some(pattern@), opt_str_view(module_pattern)]);
    match validate_regex_patterns(use_regex, &pats) {
        Err(p) => {
            return Err(AcceptsError::InvalidRegex { pattern: p });
        },
        Ok(()) => {},
    }
    let (query, params) = accepts_cozo_script(pattern, project, module_pattern, use_regex, limit);
    let ghost gp = params;
    match db.execute_query(query.as_str(), params) {
        Ok(res) => {
            let v = decode_cozo_rows::<AcceptsEntry>(&res.rows);
            assert(db.answers(query@, gp, Ok(res)));
            Ok(v)
        },
        Err(e) => {
            let ghost ge = e;
            let message = e.to_string();
            assert(db.answers(query@, gp, Err(ge)));
            Err(AcceptsError::QueryFailed { message })
        },
    }
}

/// The columns of the query's answer, as SurrealDB gives them: the names
/// the query selects, in alphabetical order.
pub open spec fn accepts_columns() -> Seq<Seq<char>> {
    seq!["arity"@, "function_name"@, "id"@, "inputs_string"@, "line"@, "module_name"@, "project"@, "return_string"@]
}

proof fn lemma_accepts_columns_distinct()
    ensures
        distinct_names(accepts_columns()),
{
    let c = accepts_columns();
    reveal_strlit("arity");
    reveal_strlit("function_name");
    reveal_strlit("id");
    reveal_strlit("inputs_string");
    reveal_strlit("line");
    reveal_strlit("module_name");
    reveal_strlit("project");
    reveal_strlit("return_string");
    assert(c[0] == "arity"@);
    assert(c[1] == "function_name"@);
    assert(c[2] == "id"@);
    assert(c[3] == "inputs_string"@);
    assert(c[4] == "line"@);
    assert(c[5] == "module_name"@);
    assert(c[6] == "project"@);
    assert(c[7] == "return_string"@);
    assert(c[0].len() != c[1].len());
    assert(c[0] != c[1]);
    assert(c[0].len() != c[2].len());
    assert(c[0] != c[2]);
    assert(c[0].len() != c[3].len());
    assert(c[0] != c[3]);
    assert(c[0].len() != c[4].len());
    assert(c[0] != c[4]);
    assert(c[0].len() != c[5].len());
    assert(c[0] != c[5]);
    assert(c[0].len() != c[6].len());
    assert(c[0] != c[6]);
    assert(c[0].len() != c[7].len());
    assert(c[0] != c[7]);
    assert(c[1].len() != c[2].len());
    assert(c[1] != c[2]);
    assert(c[1][0] != c[3][0]);
    assert(c[1] != c[3]);
    assert(c[1].len() != c[4].len());
    assert(c[1] != c[4]);
    assert(c[1].len() != c[5].len());
    assert(c[1] != c[5]);
    assert(c[1].len() != c[6].len());
    assert(c[1] != c[6]);
    assert(c[1][0] != c[7][0]);
    assert(c[1] != c[7]);
    assert(c[2].len() != c[3].len());
    assert(c[2] != c[3]);
    assert(c[2].len() != c[4].len());
    assert(c[2] != c[4]);
    assert(c[2].len() != c[5].len());
    assert(c[2] != c[5]);
    assert(c[2].len() != c[6].len());
    assert(c[2] != c[6]);
    assert(c[2].len() != c[7].len());
    assert(c[2] != c[7]);
    assert(c[3].len() != c[4].len());
    assert(c[3] != c[4]);
    assert(c[3].len() != c[5].len());
    assert(c[3] != c[5]);
    assert(c[3].len() != c[6].len());
    assert(c[3] != c[6]);
    assert(c[3][0] != c[7][0]);
    assert(c[3] != c[7]);
    assert(c[4].len() != c[5].len());
    assert(c[4] != c[5]);
    assert(c[4].len() != c[6].len());
    assert(c[4] != c[6]);
    assert(c[4].len() != c[7].len());
    assert(c[4] != c[7]);
    assert(c[5].len() != c[6].len());
    assert(c[5] != c[6]);
    assert(c[5].len() != c[7].len());
    assert(c[5] != c[7]);
    assert(c[6].len() != c[7].len());
    assert(c[6] != c[7]);
    assert forall|i: int, j: int| 0 <= i < c.len() && 0 <= j < c.len() && i != j implies #[trigger] c[i] != #[trigger] c[j] by {
        assert(i == 0 || i == 1 || i == 2 || i == 3 || i == 4 || i == 5 || i == 6 || i == 7);
        assert(j == 0 || j == 1 || j == 2 || j == 3 || j == 4 || j == 5 || j == 6 || j == 7);
    }
}

/// Each field of a record read from a row of the answer is the value in the
/// column of that field's name; a row gives a record exactly when it has
/// every column and text in the columns `function_name`, `module_name`, `project`.
pub proof fn lemma_accepts_entry_named_columns(row: Seq<Value>)
    ensures
        AcceptsEntry::read(row) is Some <==> (row.len() >= accepts_columns().len() && text_at_column(accepts_columns(), row, "function_name"@) && text_at_column(accepts_columns(), row, "module_name"@) && text_at_column(accepts_columns(), row, "project"@)),
        AcceptsEntry::read(row) matches Some(m) ==> {
            &&& text_in_column(accepts_columns(), row, "project"@, m.project, ""@)
            &&& text_in_column(accepts_columns(), row, "module_name"@, m.module, ""@)
            &&& text_in_column(accepts_columns(), row, "function_name"@, m.name, ""@)
            &&& int_in_column(accepts_columns(), row, "arity"@, m.arity, 0)
            &&& text_in_column(accepts_columns(), row, "inputs_string"@, m.inputs_string, ""@)
            &&& text_in_column(accepts_columns(), row, "return_string"@, m.return_string, ""@)
            &&& int_in_column(accepts_columns(), row, "line"@, m.line, 0)
        },
{
    lemma_accepts_columns_distinct();
    let c = accepts_columns();
    assert(c[0] == "arity"@);
    lemma_named_cell(c, row, 0);
    assert(c[1] == "function_name"@);
    lemma_named_cell(c, row, 1);
    assert(c[3] == "inputs_string"@);
    lemma_named_cell(c, row, 3);
    assert(c[4] == "line"@);
    lemma_named_cell(c, row, 4);
    assert(c[5] == "module_name"@);
    lemma_named_cell(c, row, 5);
    assert(c[6] == "project"@);
    lemma_named_cell(c, row, 6);
    assert(c[7] == "return_string"@);
    lemma_named_cell(c, row, 7);
}

/// The columns of the script's answer: the head of its query rule, in order.
pub open spec fn accepts_cozo_columns() -> Seq<Seq<char>> {
    seq!["project"@, "module"@, "name"@, "arity"@, "inputs_string"@, "return_string"@, "line"@]
}

proof fn lemma_accepts_cozo_columns_distinct()
    ensures
        distinct_names(accepts_cozo_columns()),
{
    let c = accepts_cozo_columns();
    reveal_strlit("project");
    reveal_strlit("module");
    reveal_strlit("name");
    reveal_strlit("arity");
    reveal_strlit("inputs_string");
    reveal_strlit("return_string");
    reveal_strlit("line");
    assert(c[0] == "project"@);
    assert(c[1] == "module"@);
    assert(c[2] == "name"@);
    assert(c[3] == "arity"@);
    assert(c[4] == "inputs_string"@);
    assert(c[5] == "return_string"@);
    assert(c[6] == "line"@);
    assert(c[0].len() != c[1].len());
    assert(c[0] != c[1]);
    assert(c[0].len() != c[2].len());
    assert(c[0] != c[2]);
    assert(c[0].len() != c[3].len());
    assert(c[0] != c[3]);
    assert(c[0].len() != c[4].len());
    assert(c[0] != c[4]);
    assert(c[0].len() != c[5].len());
    assert(c[0] != c[5]);
    assert(c[0].len() != c[6].len());
    assert(c[0] != c[6]);
    assert(c[1].len() != c[2].len());
    assert(c[1] != c[2]);
    assert(c[1].len() != c[3].len());
    assert(c[1] != c[3]);
    assert(c[1].len() != c[4].len());
    assert(c[1] != c[4]);
    assert(c[1].len() != c[5].len());
    assert(c[1] != c[5]);
    assert(c[1].len() != c[6].len());
    assert(c[1] != c[6]);
    assert(c[2].len() != c[3].len());
    assert(c[2] != c[3]);
    assert(c[2].len() != c[4].len());
    assert(c[2] != c[4]);
    assert(c[2].len() != c[5].len());
    assert(c[2] != c[5]);
    assert(c[2][0] != c[6][0]);
    assert(c[2] != c[6]);
    assert(c[3].len() != c[4].len());
    assert(c[3] != c[4]);
    assert(c[3].len() != c[5].len());
    assert(c[3] != c[5]);
    assert(c[3].len() != c[6].len());
    assert(c[3] != c[6]);
    assert(c[4][0] != c[5][0]);
    assert(c[4] != c[5]);
    assert(c[4].len() != c[6].len());
    assert(c[4] != c[6]);
    assert(c[5].len() != c[6].len());
    assert(c[5] != c[6]);
    assert forall|i: int, j: int| 0 <= i < c.len() && 0 <= j < c.len() && i != j implies #[trigger] c[i] != #[trigger] c[j] by {
        assert(i == 0 || i == 1 || i == 2 || i == 3 || i == 4 || i == 5 || i == 6);
        assert(j == 0 || j == 1 || j == 2 || j == 3 || j == 4 || j == 5 || j == 6);
    }
}

/// Each field of a record read from a row of the answer is the value in the
/// column of that field's name; a row gives a record exactly when it has
/// every column and text in the columns `project`, `module`, `name`.
pub proof fn lemma_accepts_entry_cozo_named_columns(row: Seq<Value>)
    ensures
        AcceptsEntry::read_cozo(row) is Some <==> (row.len() >= accepts_cozo_columns().len() && text_at_column(accepts_cozo_columns(), row, "project"@) && text_at_column(accepts_cozo_columns(), row, "module"@) && text_at_column(accepts_cozo_columns(), row, "name"@)),
        AcceptsEntry::read_cozo(row) matches Some(m) ==> {
            &&& text_in_column(accepts_cozo_columns(), row, "project"@, m.project, ""@)
            &&& text_in_column(accepts_cozo_columns(), row, "module"@, m.module, ""@)
            &&& text_in_column(accepts_cozo_columns(), row, "name"@, m.name, ""@)
            &&& int_in_column(accepts_cozo_columns(), row, "arity"@, m.arity, 0)
            &&& text_in_column(accepts_cozo_columns(), row, "inputs_string"@, m.inputs_string, ""@)
            &&& text_in_column(accepts_cozo_columns(), row, "return_string"@, m.return_string, ""@)
            &&& int_in_column(accepts_cozo_columns(), row, "line"@, m.line, 0)
        },
{
    lemma_accepts_cozo_columns_distinct();
    let c = accepts_cozo_columns();
    assert(c[0] == "project"@);
    lemma_named_cell(c, row, 0);
    assert(c[1] == "module"@);
    lemma_named_cell(c, row, 1);
    assert(c[2] == "name"@);
    lemma_named_cell(c, row, 2);
    assert(c[3] == "arity"@);
    lemma_named_cell(c, row, 3);
    assert(c[4] == "inputs_string"@);
    lemma_named_cell(c, row, 4);
    assert(c[5] == "return_string"@);
    lemma_named_cell(c, row, 5);
    assert(c[6] == "line"@);
    lemma_named_cell(c, row, 6);
}

/// The query binds each of its parameters to the input of that name, and binds an optional one exactly when it is given.
pub proof fn lemma_accepts_cozo_params_bind_inputs(pattern: Seq<char>, project: Seq<char>, module_pattern: Option<Seq<char>>)
    ensures
        ({
            let m = accepts_cozo_params(pattern, project, module_pattern);
            &&& m.dom().contains("pattern"@) && m["pattern"@] == ParamView::Str(pattern)
            &&& m.dom().contains("project"@) && m["project"@] == ParamView::Str(project)
            &&& match module_pattern { Some(v) => m.dom().contains("module_pattern"@) && m["module_pattern"@] == ParamView::Str(v), None => !m.dom().contains("module_pattern"@) }
        }),
{
    reveal_strlit("pattern");
    reveal_strlit("project");
    reveal_strlit("module_pattern");
    assert("pattern"@[1] != "project"@[1]);
    assert("pattern"@.len() != "module_pattern"@.len());
    assert("project"@.len() != "module_pattern"@.len());
}

/// The columns are in ascending order of their names, as SurrealDB gives them.
pub proof fn lemma_accepts_columns_ascending()
    ensures
        names_ascending(accepts_columns()),
{
    let c = accepts_columns();
    reveal_strlit("arity");
    reveal_strlit("function_name");
    reveal_strlit("id");
    reveal_strlit("inputs_string");
    reveal_strlit("line");
    reveal_strlit("module_name");
    reveal_strlit("project");
    reveal_strlit("return_string");
    assert(c[0] == "arity"@ && c[1] == "function_name"@);
    assert((c[0][0] as int) < (c[1][0] as int));
    lemma_lex_less(c[0], c[1], 0);
    assert(c[1] == "function_name"@ && c[2] == "id"@);
    assert((c[1][0] as int) < (c[2][0] as int));
    lemma_lex_less(c[1], c[2], 0);
    assert(c[2] == "id"@ && c[3] == "inputs_string"@);
    assert(c[2].subrange(0, 1) =~= c[3].subrange(0, 1));
    assert forall|i: int| 0 <= i < 1 implies c[2][i] == c[3][i] by { assert(c[2][i] == c[2].subrange(0, 1)[i]); assert(c[3][i] == c[3].subrange(0, 1)[i]); }
    assert((c[2][1] as int) < (c[3][1] as int));
    lemma_lex_less(c[2], c[3], 1);
    assert(c[3] == "inputs_string"@ && c[4] == "line"@);
    assert((c[3][0] as int) < (c[4][0] as int));
    lemma_lex_less(c[3], c[4], 0);
    assert(c[4] == "line"@ && c[5] == "module_name"@);
    assert((c[4][0] as int) < (c[5][0] as int));
    lemma_lex_less(c[4], c[5], 0);
    assert(c[5] == "module_name"@ && c[6] == "project"@);
    assert((c[5][0] as int) < (c[6][0] as int));
    lemma_lex_less(c[5], c[6], 0);
    assert(c[6] == "project"@ && c[7] == "return_string"@);
    assert((c[6][0] as int) < (c[7][0] as int));
    lemma_lex_less(c[6], c[7], 0);
    assert forall|k: int| 0 <= k < c.len() - 1 implies lex_order(#[trigger] c[k], c[k + 1]) < 0 by {
        assert(k == 0 || k == 1 || k == 2 || k == 3 || k == 4 || k == 5 || k == 6);
    }
    lemma_names_ascending_from_adjacent(c);
}

/// The script's answer has the columns `accepts_cozo_columns` lists: they are the head of
/// its query rule.
pub proof fn lemma_accepts_cozo_columns_head(module_pattern: Option<Seq<char>>, use_regex: bool, limit: u32)
    ensures
        contains_seq(accepts_cozo_text(module_pattern, use_regex, limit), "?["@ + joined(accepts_cozo_columns(), ", "@) + "]"@),
{
    let c = accepts_cozo_columns();
    reveal_strlit(", ");
    reveal_strlit("project");
    reveal_strlit("module");
    reveal_strlit("name");
    reveal_strlit("arity");
    reveal_strlit("inputs_string");
    reveal_strlit("return_string");
    reveal_strlit("line");
    assert(c.take(1)[0] == c[0]);
    assert(joined(c.take(1), ", "@) =~= "project"@);
    reveal_strlit("project, module");
    assert(c.take(2).drop_last() =~= c.take(1));
    assert(c.take(2).last() == c[1]);
    assert(joined(c.take(2), ", "@) =~= "project, module"@);
    reveal_strlit("project, module, name");
    assert(c.take(3).drop_last() =~= c.take(2));
    assert(c.take(3).last() == c[2]);
    assert(joined(c.take(3), ", "@) =~= "project, module, name"@);
    reveal_strlit("project, module, name, arity");
    assert(c.take(4).drop_last() =~= c.take(3));
    assert(c.take(4).last() == c[3]);
    assert(joined(c.take(4), ", "@) =~= "project, module, name, arity"@);
    reveal_strlit("project, module, name, arity, inputs_string");
    assert(c.take(5).drop_last() =~= c.take(4));
    assert(c.take(5).last() == c[4]);
    assert(joined(c.take(5), ", "@) =~= "project, module, name, arity, inputs_string"@);
    reveal_strlit("project, module, name, arity, inputs_string, return_string");
    assert(c.take(6).drop_last() =~= c.take(5));
    assert(c.take(6).last() == c[5]);
    assert(joined(c.take(6), ", "@) =~= "project, module, name, arity, inputs_string, return_string"@);
    reveal_strlit("project, module, name, arity, inputs_string, return_string, line");
    assert(c.take(7).drop_last() =~= c.take(6));
    assert(c.take(7).last() == c[6]);
    assert(joined(c.take(7), ", "@) =~= "project, module, name, arity, inputs_string, return_string, line"@);
    assert(c.take(7) =~= c);
    reveal_strlit("?[");
    reveal_strlit("]");
    reveal_strlit("?[project, module, name, arity, inputs_string, return_string, line]");
    assert(("?["@ + joined(c, ", "@) + "]"@) =~= "?[project, module, name, arity, inputs_string, return_string, line]"@);
    reveal_strlit(r#"
        ?[project, module, name, arity, inputs_string, return_string, line] :=
            *specs{project, module, name, arity, inputs_string, return_string, line},
            project == $project,
            "#);
    let t = accepts_cozo_text(module_pattern, use_regex, limit);
    let l = r#"
        ?[project, module, name, arity, inputs_string, return_string, line] :=
            *specs{project, module, name, arity, inputs_string, return_string, line},
            project == $project,
            "#@;
    assert(t =~= Seq::<char>::empty() + l + t.subrange(l.len() as int, t.len() as int));
    assert(l.subrange(9, 76) =~= "?[project, module, name, arity, inputs_string, return_string, line]"@);
    lemma_contains_piece(Seq::<char>::empty(), l, t.subrange(l.len() as int, t.len() as int), 9, "?[project, module, name, arity, inputs_string, return_string, line]"@);
}

} // verus!
