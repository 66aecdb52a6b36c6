//! Finding functions by the types their specs return.

use vstd::prelude::*;
use crate::text::{string_views, push_text, where_text, where_clause};
use crate::backend::{Database, QueryParams, QueryResult, Row, Value, ParamView, ValueType};
use crate::db::{DbError, cell_text, cell_text_or, cell_int_or, get_string, get_string_or, get_i64_or};
use crate::query_builders::{validate_regex_patterns, first_invalid_pattern, opt_str_view, pattern_views};
use crate::queries::rows::{RowRecord, views, read_rows, decode_rows, distinct_names, int_in_column, text_in_column, text_at_column, lemma_named_cell};
use crate::text::{pattern_escaped, escape_pattern, joined, join_strings};

use crate::backend::surreal_rows::{names_ascending, lemma_names_ascending_from_adjacent};
use crate::text::{lex_order, lemma_lex_less};

verus! {


/// Errors of the query.
#[derive(Debug)]
pub enum ReturnsError {
    QueryFailed { message: String },
    InvalidRegex { pattern: String },
}

impl ReturnsError {
    /// The error's text.
    pub open spec fn message(&self) -> Seq<char> {
        match self {
            ReturnsError::QueryFailed { message } => "Returns query failed: "@ + message@,
            ReturnsError::InvalidRegex { pattern } => "Invalid regex pattern: "@ + pattern@,
        }
    }

    /// The error's text (what `Display` writes).
    pub fn to_string(&self) -> (r: String)
        ensures
            r@ == self.message(),
    {
        let mut r = String::new();
        match self {
            ReturnsError::QueryFailed { message } => {
                r.append("Returns query failed: ");
                r.append(message.as_str());
            },
            ReturnsError::InvalidRegex { pattern } => {
                r.append("Invalid regex pattern: ");
                r.append(pattern.as_str());
            },
        }
        r
    }
}

/// A function with its return type specification
#[derive(Debug, Clone)]
pub struct ReturnEntry {
    pub project: String,
    pub module: String,
    pub name: String,
    pub arity: i64,
    pub return_string: String,
    pub line: i64,
}

/// What a `ReturnEntry` holds, as plain values.
pub struct ReturnEntryView {
    pub project: Seq<char>,
    pub module: Seq<char>,
    pub name: Seq<char>,
    pub arity: i64,
    pub return_string: Seq<char>,
    pub line: i64,
}

impl View for ReturnEntry {
    type V = ReturnEntryView;

    open spec fn view(&self) -> ReturnEntryView {
        ReturnEntryView {
            project: self.project@,
            module: self.module@,
            name: self.name@,
            arity: self.arity,
            return_string: self.return_string@,
            line: self.line,
        }
    }
}

impl RowRecord for ReturnEntry {
    open spec fn read(row: Seq<Value>) -> Option<ReturnEntryView> {
        if row.len() >= 7 {
            match (cell_text(row, 1), cell_text(row, 4), cell_text(row, 5)) {
                (Some(v_name), Some(v_module), Some(v_project)) => Some(ReturnEntryView { project: v_project, module: v_module, name: v_name, arity: cell_int_or(row, 0, 0), return_string: cell_text_or(row, 6, ""@), line: cell_int_or(row, 3, 0) }),
                _ => None,
            }
        } else {
            None
        }
    }

    fn from_row(row: &Row) -> (r: Option<ReturnEntry>) {
        if row.len() < 7 {
            return None;
        }
        let project = get_string(row, 5)?;
        let module = get_string(row, 4)?;
        let name = get_string(row, 1)?;
        let arity = get_i64_or(row, 0, 0);
        let return_string = get_string_or(row, 6, "");
        let line = get_i64_or(row, 3, 0);
        Some(ReturnEntry { project, module, name, arity, return_string, line })
    }
}

/// The filters of the query: on the joined return types when a pattern is
/// given, and on the module when a module pattern is given.
pub open spec fn returns_conditions(pattern: Seq<char>, module_pattern: Option<Seq<char>>, use_regex: bool) -> Seq<Seq<char>> {
    let by_return = if pattern.len() == 0 {
        Seq::empty()
    } else if use_regex {
        seq!["array::len(array::filter(return_strings, |$v| string::matches($v, /^"@ + pattern_escaped(pattern) + "/))) > 0"@]
    } else {
        seq!["string::contains(array::join(return_strings, ', '), '"@ + pattern_escaped(pattern) + "')"@]
    };
    let by_module = match module_pattern {
        Some(m) => if use_regex {
            seq!["string::matches(module_name, /^"@ + pattern_escaped(m) + "/)"@]
        } else {
            seq!["module_name = '"@ + pattern_escaped(m) + "'"@]
        },
        None => Seq::empty(),
    };
    by_return + by_module
}

/// The query text for the given filters.
pub open spec fn returns_query_text(pattern: Seq<char>, module_pattern: Option<Seq<char>>, use_regex: bool) -> Seq<char> {
    let conditions = returns_conditions(pattern, module_pattern, use_regex);
    if conditions.len() == 0 {
        r#"
        SELECT
            id,
            module_name,
            function_name,
            arity,
            line,
            "default" as project,
            array::join(return_strings, ", ") as return_string
        FROM specs
        ORDER BY module_name, function_name, arity
        LIMIT $limit
        "#@
    } else {
        r#"
        SELECT
            id,
            module_name,
            function_name,
            arity,
            line,
            "default" as project,
            array::join(return_strings, ", ") as return_string
        FROM specs
        "#@ + "WHERE "@ + joined(conditions, " AND "@) + r#"
        ORDER BY module_name, function_name, arity
        LIMIT $limit
        "#@
    }
}

/// The parameters of the query.
pub open spec fn returns_params(limit: u32) -> Map<Seq<char>, ParamView> {
    Map::empty().insert("limit"@, ParamView::Int(limit as i64))
}

fn returns_conditions_of(pattern: &str, module_pattern: Option<&str>, use_regex: bool) -> (r: Vec<String>)
    ensures
        string_views(r@) == returns_conditions(pattern@, opt_str_view(module_pattern), use_regex),
{
    let mut conditions: Vec<String> = Vec::new();
    if !pattern.is_empty() {
        let escaped = escape_pattern(pattern);
        let mut c = String::new();
        if use_regex {
            c.append("array::len(array::filter(return_strings, |$v| string::matches($v, /^");
            c.append(escaped.as_str());
            c.append("/))) > 0");
        } else {
            c.append("string::contains(array::join(return_strings, ', '), '");
            c.append(escaped.as_str());
            c.append("')");
        }
        conditions.push(c);
    }
    let ghost first = conditions@;
    match module_pattern {
        Some(mod_pat) => {
            let escaped = escape_pattern(mod_pat);
            let mut c = String::new();
            if use_regex {
                c.append("string::matches(module_name, /^");
                c.append(escaped.as_str());
                c.append("/)");
            } else {
                c.append("module_name = '");
                c.append(escaped.as_str());
                c.append("'");
            }
            conditions.push(c);
            assert(string_views(conditions@) =~= string_views(first) + seq![c@]);
        },
        None => {
            assert(string_views(conditions@) =~= string_views(first) + Seq::empty());
        },
    }
    conditions
}

/// Builds the query text and parameters.
pub fn returns_query(pattern: &str, module_pattern: Option<&str>, use_regex: bool, limit: u32) -> (r: (String, QueryParams))
    ensures
        r.0@ == returns_query_text(pattern@, opt_str_view(module_pattern), use_regex),
        r.1.binds_exactly(returns_params(limit)),
{
    let conditions = returns_conditions_of(pattern, module_pattern, use_regex);
    let mut query = String::new();
    if conditions.len() == 0 {
        query.append(r#"
        SELECT
            id,
            module_name,
            function_name,
            arity,
            line,
            "default" as project,
            array::join(return_strings, ", ") as return_string
        FROM specs
        ORDER BY module_name, function_name, arity
        LIMIT $limit
        "#);
    } else {
        let joined_conditions = join_strings(&conditions, " AND ");
        query.append(r#"
        SELECT
            id,
            module_name,
            function_name,
            arity,
            line,
            "default" as project,
            array::join(return_strings, ", ") as return_string
        FROM specs
        "#);
        query.append("WHERE ");
        query.append(joined_conditions.as_str());
        query.append(r#"
        ORDER BY module_name, function_name, arity
        LIMIT $limit
        "#);
    }
    let params = QueryParams::new().with_int("limit", limit as i64);
    (query, params)
}


/// Find functions whose spec returns a type matching `pattern` (a substring
/// of the joined return types, or a regex anchored at the start of one return
/// type), optionally within modules matching `module_pattern`, ordered by
/// module, name and arity, at most `limit` of them.
pub fn find_returns<D: Database + ?Sized>(db: &D, pattern: &str, use_regex: bool, module_pattern: Option<&str>, limit: u32) -> (r: Result<Vec<ReturnEntry>, ReturnsError>)
    ensures
        match r {
            Err(ReturnsError::InvalidRegex { pattern: bad }) => first_invalid_pattern(use_regex, seq![Some(pattern@), opt_str_view(module_pattern)]) == Some(bad@),
            Err(ReturnsError::QueryFailed { message }) => first_invalid_pattern(use_regex, seq![Some(pattern@), opt_str_view(module_pattern)]) is None
                && exists|p: QueryParams, e: DbError| p.binds_exactly(returns_params(limit))
                    && #[trigger] db.answers(returns_query_text(pattern@, opt_str_view(module_pattern), use_regex), p, Err(e)) && message@ == e.message(),
            Ok(v) => first_invalid_pattern(use_regex, seq![Some(pattern@), opt_str_view(module_pattern)]) is None
                && exists|p: QueryParams, res: QueryResult| p.binds_exactly(returns_params(limit))
                    && #[trigger] db.answers(returns_query_text(pattern@, opt_str_view(module_pattern), use_regex), p, Ok(res))
                    && ({ let d = read_rows::<ReturnEntry>(res.rows@); views(v@) == d }),
        },
{
    let pats: [Option<&str>; 2] = [Some(pattern), module_pattern];
    assert(pattern_views(pats@) =~= seq![Some(pattern@), opt_str_view(module_pattern)]);
    match validate_regex_patterns(use_regex, &pats) {
        Err(p) => {
            return Err(ReturnsError::InvalidRegex { pattern: p });
        },
        Ok(()) => {},
    }
    let (query, params) = returns_query(pattern, module_pattern, use_regex, limit);
    let ghost gp = params;
    match db.execute_query(query.as_str(), params) {
        Ok(res) => {
            let v = decode_rows::<ReturnEntry>(&res.rows);
            let out = v;
            assert(db.answers(query@, gp, Ok(res)));
            Ok(out)
        },
        Err(e) => {
            let ghost ge = e;
            let message = e.to_string();
            assert(db.answers(query@, gp, Err(ge)));
            Err(ReturnsError::QueryFailed { message })
        },
    }
}

/// The columns of the query's answer, as SurrealDB gives them: the names
/// the query selects, in alphabetical order.
pub open spec fn returns_columns() -> Seq<Seq<char>> {
    seq!["arity"@, "function_name"@, "id"@, "line"@, "module_name"@, "project"@, "return_string"@]
}

proof fn lemma_returns_columns_distinct()
    ensures
        distinct_names(returns_columns()),
{
    let c = returns_columns();
    reveal_strlit("arity");
    reveal_strlit("function_name");
    reveal_strlit("id");
    reveal_strlit("line");
    reveal_strlit("module_name");
    reveal_strlit("project");
    reveal_strlit("return_string");
    assert(c[0] == "arity"@);
    assert(c[1] == "function_name"@);
    assert(c[2] == "id"@);
    assert(c[3] == "line"@);
    assert(c[4] == "module_name"@);
    assert(c[5] == "project"@);
    assert(c[6] == "return_string"@);
    assert(c[0].len() != c[1].len());
    assert(c[0] != c[1]);
    assert(c[0].len() != c[2].len());
    assert(c[0] != c[2]);
    assert(c[0].len() != c[3].len());
    assert(c[0] != c[3]);
    assert(c[0].len() != c[4].len());
    assert(c[0] != c[4]);
    assert(c[0].len() != c[5].len());
    assert(c[0] != c[5]);
    assert(c[0].len() != c[6].len());
    assert(c[0] != c[6]);
    assert(c[1].len() != c[2].len());
    assert(c[1] != c[2]);
    assert(c[1].len() != c[3].len());
    assert(c[1] != c[3]);
    assert(c[1].len() != c[4].len());
    assert(c[1] != c[4]);
    assert(c[1].len() != c[5].len());
    assert(c[1] != c[5]);
    assert(c[1][0] != c[6][0]);
    assert(c[1] != c[6]);
    assert(c[2].len() != c[3].len());
    assert(c[2] != c[3]);
    assert(c[2].len() != c[4].len());
    assert(c[2] != c[4]);
    assert(c[2].len() != c[5].len());
    assert(c[2] != c[5]);
    assert(c[2].len() != c[6].len());
    assert(c[2] != c[6]);
    assert(c[3].len() != c[4].len());
    assert(c[3] != c[4]);
    assert(c[3].len() != c[5].len());
    assert(c[3] != c[5]);
    assert(c[3].len() != c[6].len());
    assert(c[3] != c[6]);
    assert(c[4].len() != c[5].len());
    assert(c[4] != c[5]);
    assert(c[4].len() != c[6].len());
    assert(c[4] != c[6]);
    assert(c[5].len() != c[6].len());
    assert(c[5] != c[6]);
    assert forall|i: int, j: int| 0 <= i < c.len() && 0 <= j < c.len() && i != j implies #[trigger] c[i] != #[trigger] c[j] by {
        assert(i == 0 || i == 1 || i == 2 || i == 3 || i == 4 || i == 5 || i == 6);
        assert(j == 0 || j == 1 || j == 2 || j == 3 || j == 4 || j == 5 || j == 6);
    }
}

/// Each field of a record read from a row of the answer is the value in the
/// column of that field's name; a row gives a record exactly when it has
/// every column and text in the columns `function_name`, `module_name`, `project`.
pub proof fn lemma_return_entry_named_columns(row: Seq<Value>)
    ensures
        ReturnEntry::read(row) is Some <==> (row.len() >= returns_columns().len() && text_at_column(returns_columns(), row, "function_name"@) && text_at_column(returns_columns(), row, "module_name"@) && text_at_column(returns_columns(), row, "project"@)),
        ReturnEntry::read(row) matches Some(m) ==> {
            &&& text_in_column(returns_columns(), row, "project"@, m.project, ""@)
            &&& text_in_column(returns_columns(), row, "module_name"@, m.module, ""@)
            &&& text_in_column(returns_columns(), row, "function_name"@, m.name, ""@)
            &&& int_in_column(returns_columns(), row, "arity"@, m.arity, 0)
            &&& text_in_column(returns_columns(), row, "return_string"@, m.return_string, ""@)
            &&& int_in_column(returns_columns(), row, "line"@, m.line, 0)
        },
{
    lemma_returns_columns_distinct();
    let c = returns_columns();
    assert(c[0] == "arity"@);
    lemma_named_cell(c, row, 0);
    assert(c[1] == "function_name"@);
    lemma_named_cell(c, row, 1);
    assert(c[3] == "line"@);
    lemma_named_cell(c, row, 3);
    assert(c[4] == "module_name"@);
    lemma_named_cell(c, row, 4);
    assert(c[5] == "project"@);
    lemma_named_cell(c, row, 5);
    assert(c[6] == "return_string"@);
    lemma_named_cell(c, row, 6);
}

/// The columns are in ascending order of their names, as SurrealDB gives them.
pub proof fn lemma_returns_columns_ascending()
    ensures
        names_ascending(returns_columns()),
{
    let c = returns_columns();
    reveal_strlit("arity");
    reveal_strlit("function_name");
    reveal_strlit("id");
    reveal_strlit("line");
    reveal_strlit("module_name");
    reveal_strlit("project");
    reveal_strlit("return_string");
    assert(c[0] == "arity"@ && c[1] == "function_name"@);
    assert((c[0][0] as int) < (c[1][0] as int));
    lemma_lex_less(c[0], c[1], 0);
    assert(c[1] == "function_name"@ && c[2] == "id"@);
    assert((c[1][0] as int) < (c[2][0] as int));
    lemma_lex_less(c[1], c[2], 0);
    assert(c[2] == "id"@ && c[3] == "line"@);
    assert((c[2][0] as int) < (c[3][0] as int));
    lemma_lex_less(c[2], c[3], 0);
    assert(c[3] == "line"@ && c[4] == "module_name"@);
    assert((c[3][0] as int) < (c[4][0] as int));
    lemma_lex_less(c[3], c[4], 0);
    assert(c[4] == "module_name"@ && c[5] == "project"@);
    assert((c[4][0] as int) < (c[5][0] as int));
    lemma_lex_less(c[4], c[5], 0);
    assert(c[5] == "project"@ && c[6] == "return_string"@);
    assert((c[5][0] as int) < (c[6][0] as int));
    lemma_lex_less(c[5], c[6], 0);
    assert forall|k: int| 0 <= k < c.len() - 1 implies lex_order(#[trigger] c[k], c[k + 1]) < 0 by {
        assert(k == 0 || k == 1 || k == 2 || k == 3 || k == 4 || k == 5);
    }
    lemma_names_ascending_from_adjacent(c);
}

} // verus!
