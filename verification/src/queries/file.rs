//! Listing the functions defined in a module.

use vstd::prelude::*;
use crate::text::{string_views, push_text, where_text, where_clause};
use crate::backend::{Database, QueryParams, QueryResult, Row, Value, ParamView, ValueType};
use crate::db::{DbError, cell_text, cell_text_or, cell_int_or, get_string, get_string_or, get_i64_or};
use crate::query_builders::{validate_regex_patterns, first_invalid_pattern, opt_str_view, pattern_views};
use crate::queries::rows::{RowRecord, views, read_rows, decode_rows, distinct_names, int_in_column, text_in_column, text_at_column, lemma_named_cell};
use crate::sorting::{Keyed, KeyPart, SortField, key_view, sorted_by, stable_sort, ordered_by_key, lemma_sorted_by_ordered, lemma_sorted_by_permutation};
use crate::text::chars_of;


use crate::backend::surreal_rows::{names_ascending, lemma_names_ascending_from_adjacent};
use crate::text::{lex_order, lemma_lex_less};

verus! {

/// Errors of the query.
#[derive(Debug)]
pub enum FileError {
    QueryFailed { message: String },
    InvalidRegex { pattern: String },
}

impl FileError {
    /// The error's text.
    pub open spec fn message(&self) -> Seq<char> {
        match self {
            FileError::QueryFailed { message } => "File query failed: "@ + message@,
            FileError::InvalidRegex { pattern } => "Invalid regex pattern: "@ + pattern@,
        }
    }

    /// The error's text (what `Display` writes).
    pub fn to_string(&self) -> (r: String)
        ensures
            r@ == self.message(),
    {
        let mut r = String::new();
        match self {
            FileError::QueryFailed { message } => {
                r.append("File query failed: ");
                r.append(message.as_str());
            },
            FileError::InvalidRegex { pattern } => {
                r.append("Invalid regex pattern: ");
                r.append(pattern.as_str());
            },
        }
        r
    }
}

/// A function defined in a file
#[derive(Debug, Clone)]
pub struct FileFunctionDef {
    pub module: String,
    pub name: String,
    pub arity: i64,
    pub kind: String,
    pub line: i64,
    pub start_line: i64,
    pub end_line: i64,
    pub pattern: String,
    pub guard: String,
    pub file: String,
}

/// What a `FileFunctionDef` holds, as plain values.
pub struct FileFunctionDefView {
    pub module: Seq<char>,
    pub name: Seq<char>,
    pub arity: i64,
    pub kind: Seq<char>,
    pub line: i64,
    pub start_line: i64,
    pub end_line: i64,
    pub pattern: Seq<char>,
    pub guard: Seq<char>,
    pub file: Seq<char>,
}

impl View for FileFunctionDef {
    type V = FileFunctionDefView;

    open spec fn view(&self) -> FileFunctionDefView {
        FileFunctionDefView {
            module: self.module@,
            name: self.name@,
            arity: self.arity,
            kind: self.kind@,
            line: self.line,
            start_line: self.start_line,
            end_line: self.end_line,
            pattern: self.pattern@,
            guard: self.guard@,
            file: self.file@,
        }
    }
}

impl RowRecord for FileFunctionDef {
    open spec fn read(row: Seq<Value>) -> Option<FileFunctionDefView> {
        if row.len() >= 10 {
            match (cell_text(row, 2), cell_text(row, 6)) {
                (Some(v_name), Some(v_module)) => Some(FileFunctionDefView { module: v_module, name: v_name, arity: cell_int_or(row, 0, 0), kind: cell_text_or(row, 4, ""@), line: cell_int_or(row, 5, 0), start_line: cell_int_or(row, 9, 0), end_line: cell_int_or(row, 1, 0), pattern: cell_text_or(row, 7, ""@), guard: cell_text_or(row, 3, ""@), file: cell_text_or(row, 8, ""@) }),
                _ => None,
            }
        } else {
            None
        }
    }

    fn from_row(row: &Row) -> (r: Option<FileFunctionDef>) {
        if row.len() < 10 {
            return None;
        }
        let module = get_string(row, 6)?;
        let name = get_string(row, 2)?;
        let arity = get_i64_or(row, 0, 0);
        let kind = get_string_or(row, 4, "");
        let line = get_i64_or(row, 5, 0);
        let start_line = get_i64_or(row, 9, 0);
        let end_line = get_i64_or(row, 1, 0);
        let pattern = get_string_or(row, 7, "");
        let guard = get_string_or(row, 3, "");
        let file = get_string_or(row, 8, "");
        Some(FileFunctionDef { module, name, arity, kind, line, start_line, end_line, pattern, guard, file })
    }
}

impl Keyed for FileFunctionDef {
    open spec fn view_key(v: FileFunctionDefView) -> Seq<SortField> {
        seq![SortField::Text(v.module), SortField::Asc(v.start_line as int), SortField::Text(v.name), SortField::Asc(v.arity as int), SortField::Asc(v.line as int)]
    }

    fn key(&self) -> (k: Vec<KeyPart>) {
        let k = vec![KeyPart::Text(chars_of(self.module.as_str())), KeyPart::Asc(self.start_line), KeyPart::Text(chars_of(self.name.as_str())), KeyPart::Asc(self.arity), KeyPart::Asc(self.line)];
        assert(key_view(k@) =~= Self::view_key(self@));
        k
    }
}

/// The query text for the given filters.
pub open spec fn module_functions_query_text(use_regex: bool) -> Seq<char> {
    r#"
        SELECT
            arity,
            end_line,
            function_name,
            guard,
            kind,
            line,
            module_name,
            pattern,
            source_file,
            start_line
        FROM clauses
        "#@
        + (if use_regex { "WHERE string::matches(module_name, $module_pattern)"@ } else { "WHERE type::string(module_name) = $module_pattern"@ })
        + r#"
        ORDER BY module_name ASC, start_line ASC, function_name ASC, arity ASC, line ASC
        LIMIT $limit
        "#@
}

/// The parameters of the query.
pub open spec fn module_functions_params(module_pattern: Seq<char>, limit: u32) -> Map<Seq<char>, ParamView> {
    let m = Map::<Seq<char>, ParamView>::empty();
    let m = m.insert("module_pattern"@, ParamView::Str(module_pattern));
    let m = m.insert("limit"@, ParamView::Int(limit as i64));
    m
}

/// Builds the query text and parameters.
pub fn module_functions_query(module_pattern: &str, use_regex: bool, limit: u32) -> (r: (String, QueryParams))
    ensures
        r.0@ == module_functions_query_text(use_regex),
        r.1.binds_exactly(module_functions_params(module_pattern@, limit)),
{
    let mut query = String::new();
    query.append(r#"
        SELECT
            arity,
            end_line,
            function_name,
            guard,
            kind,
            line,
            module_name,
            pattern,
            source_file,
            start_line
        FROM clauses
        "#);
    let part_where_clause: &str = if use_regex { "WHERE string::matches(module_name, $module_pattern)" } else { "WHERE type::string(module_name) = $module_pattern" };
    query.append(part_where_clause);
    query.append(r#"
        ORDER BY module_name ASC, start_line ASC, function_name ASC, arity ASC, line ASC
        LIMIT $limit
        "#);
    let mut params = QueryParams::new();
    params = params.with_str("module_pattern", module_pattern);
    params = params.with_int("limit", limit as i64);
    (query, params)
}

/// Find the clauses defined in the modules matching `module_pattern`,
/// ordered by module, start line, name, arity and line.
pub fn find_functions_in_module<D: Database + ?Sized>(db: &D, module_pattern: &str, use_regex: bool, limit: u32) -> (r: Result<Vec<FileFunctionDef>, FileError>)
    ensures
        match r {
            Err(FileError::InvalidRegex { pattern: bad }) => first_invalid_pattern(use_regex, seq![Some(module_pattern@)]) == Some(bad@),
            Err(FileError::QueryFailed { message }) => first_invalid_pattern(use_regex, seq![Some(module_pattern@)]) is None
                && exists|p: QueryParams, e: DbError| p.binds_exactly(module_functions_params(module_pattern@, limit))
                    && #[trigger] db.answers(module_functions_query_text(use_regex), p, Err(e)) && message@ == e.message(),
            Ok(v) => first_invalid_pattern(use_regex, seq![Some(module_pattern@)]) is None
                && exists|p: QueryParams, res: QueryResult| p.binds_exactly(module_functions_params(module_pattern@, limit))
                    && #[trigger] db.answers(module_functions_query_text(use_regex), p, Ok(res))
                    && ({ let d = read_rows::<FileFunctionDef>(res.rows@); views(v@) == sorted_by::<FileFunctionDef>(d) })
                    && ({ let d = read_rows::<FileFunctionDef>(res.rows@); ordered_by_key::<FileFunctionDef>(views(v@)) && views(v@).to_multiset() == d.to_multiset() }),
        },
{
    let pats: [Option<&str>; 1] = [Some(module_pattern)];
    assert(pattern_views(pats@) =~= seq![Some(module_pattern@)]);
    match validate_regex_patterns(use_regex, &pats) {
        Err(p) => {
            return Err(FileError::InvalidRegex { pattern: p });
        },
        Ok(()) => {},
    }
    let (query, params) = module_functions_query(module_pattern, use_regex, limit);
    let ghost gp = params;
    match db.execute_query(query.as_str(), params) {
        Ok(res) => {
            let v = decode_rows::<FileFunctionDef>(&res.rows);
            let ghost decoded = views(v@);
            let out = stable_sort(v);
            proof {
                lemma_sorted_by_ordered::<FileFunctionDef>(decoded);
                lemma_sorted_by_permutation::<FileFunctionDef>(decoded);
            }
            assert(db.answers(query@, gp, Ok(res)));
            Ok(out)
        },
        Err(e) => {
            let ghost ge = e;
            let message = e.to_string();
            assert(db.answers(query@, gp, Err(ge)));
            Err(FileError::QueryFailed { message })
        },
    }
}


/// The columns of the query's answer, as SurrealDB gives them: the names
/// the query selects, in alphabetical order.
pub open spec fn module_functions_columns() -> Seq<Seq<char>> {
    seq!["arity"@, "end_line"@, "function_name"@, "guard"@, "kind"@, "line"@, "module_name"@, "pattern"@, "source_file"@, "start_line"@]
}

proof fn lemma_module_functions_columns_distinct()
    ensures
        distinct_names(module_functions_columns()),
{
    let c = module_functions_columns();
    reveal_strlit("arity");
    reveal_strlit("end_line");
    reveal_strlit("function_name");
    reveal_strlit("guard");
    reveal_strlit("kind");
    reveal_strlit("line");
    reveal_strlit("module_name");
    reveal_strlit("pattern");
    reveal_strlit("source_file");
    reveal_strlit("start_line");
    assert(c[0] == "arity"@);
    assert(c[1] == "end_line"@);
    assert(c[2] == "function_name"@);
    assert(c[3] == "guard"@);
    assert(c[4] == "kind"@);
    assert(c[5] == "line"@);
    assert(c[6] == "module_name"@);
    assert(c[7] == "pattern"@);
    assert(c[8] == "source_file"@);
    assert(c[9] == "start_line"@);
    assert(c[0].len() != c[1].len());
    assert(c[0] != c[1]);
    assert(c[0].len() != c[2].len());
    assert(c[0] != c[2]);
    assert(c[0][0] != c[3][0]);
    assert(c[0] != c[3]);
    assert(c[0].len() != c[4].len());
    assert(c[0] != c[4]);
    assert(c[0].len() != c[5].len());
    assert(c[0] != c[5]);
    assert(c[0].len() != c[6].len());
    assert(c[0] != c[6]);
    assert(c[0].len() != c[7].len());
    assert(c[0] != c[7]);
    assert(c[0].len() != c[8].len());
    assert(c[0] != c[8]);
    assert(c[0].len() != c[9].len());
    assert(c[0] != c[9]);
    assert(c[1].len() != c[2].len());
    assert(c[1] != c[2]);
    assert(c[1].len() != c[3].len());
    assert(c[1] != c[3]);
    assert(c[1].len() != c[4].len());
    assert(c[1] != c[4]);
    assert(c[1].len() != c[5].len());
    assert(c[1] != c[5]);
    assert(c[1].len() != c[6].len());
    assert(c[1] != c[6]);
    assert(c[1].len() != c[7].len());
    assert(c[1] != c[7]);
    assert(c[1].len() != c[8].len());
    assert(c[1] != c[8]);
    assert(c[1].len() != c[9].len());
    assert(c[1] != c[9]);
    assert(c[2].len() != c[3].len());
    assert(c[2] != c[3]);
    assert(c[2].len() != c[4].len());
    assert(c[2] != c[4]);
    assert(c[2].len() != c[5].len());
    assert(c[2] != c[5]);
    assert(c[2].len() != c[6].len());
    assert(c[2] != c[6]);
    assert(c[2].len() != c[7].len());
    assert(c[2] != c[7]);
    assert(c[2].len() != c[8].len());
    assert(c[2] != c[8]);
    assert(c[2].len() != c[9].len());
    assert(c[2] != c[9]);
    assert(c[3].len() != c[4].len());
    assert(c[3] != c[4]);
    assert(c[3].len() != c[5].len());
    assert(c[3] != c[5]);
    assert(c[3].len() != c[6].len());
    assert(c[3] != c[6]);
    assert(c[3].len() != c[7].len());
    assert(c[3] != c[7]);
    assert(c[3].len() != c[8].len());
    assert(c[3] != c[8]);
    assert(c[3].len() != c[9].len());
    assert(c[3] != c[9]);
    assert(c[4][0] != c[5][0]);
    assert(c[4] != c[5]);
    assert(c[4].len() != c[6].len());
    assert(c[4] != c[6]);
    assert(c[4].len() != c[7].len());
    assert(c[4] != c[7]);
    assert(c[4].len() != c[8].len());
    assert(c[4] != c[8]);
    assert(c[4].len() != c[9].len());
    assert(c[4] != c[9]);
    assert(c[5].len() != c[6].len());
    assert(c[5] != c[6]);
    assert(c[5].len() != c[7].len());
    assert(c[5] != c[7]);
    assert(c[5].len() != c[8].len());
    assert(c[5] != c[8]);
    assert(c[5].len() != c[9].len());
    assert(c[5] != c[9]);
    assert(c[6].len() != c[7].len());
    assert(c[6] != c[7]);
    assert(c[6][0] != c[8][0]);
    assert(c[6] != c[8]);
    assert(c[6].len() != c[9].len());
    assert(c[6] != c[9]);
    assert(c[7].len() != c[8].len());
    assert(c[7] != c[8]);
    assert(c[7].len() != c[9].len());
    assert(c[7] != c[9]);
    assert(c[8].len() != c[9].len());
    assert(c[8] != c[9]);
    assert forall|i: int, j: int| 0 <= i < c.len() && 0 <= j < c.len() && i != j implies #[trigger] c[i] != #[trigger] c[j] by {
        assert(i == 0 || i == 1 || i == 2 || i == 3 || i == 4 || i == 5 || i == 6 || i == 7 || i == 8 || i == 9);
        assert(j == 0 || j == 1 || j == 2 || j == 3 || j == 4 || j == 5 || j == 6 || j == 7 || j == 8 || j == 9);
    }
}

/// Each field of a record read from a row of the answer is the value in the
/// column of that field's name; a row gives a record exactly when it has
/// every column and text in the columns `function_name`, `module_name`.
pub proof fn lemma_file_function_def_named_columns(row: Seq<Value>)
    ensures
        FileFunctionDef::read(row) is Some <==> (row.len() >= module_functions_columns().len() && text_at_column(module_functions_columns(), row, "function_name"@) && text_at_column(module_functions_columns(), row, "module_name"@)),
        FileFunctionDef::read(row) matches Some(m) ==> {
            &&& text_in_column(module_functions_columns(), row, "module_name"@, m.module, ""@)
            &&& text_in_column(module_functions_columns(), row, "function_name"@, m.name, ""@)
            &&& int_in_column(module_functions_columns(), row, "arity"@, m.arity, 0)
            &&& text_in_column(module_functions_columns(), row, "kind"@, m.kind, ""@)
            &&& int_in_column(module_functions_columns(), row, "line"@, m.line, 0)
            &&& int_in_column(module_functions_columns(), row, "start_line"@, m.start_line, 0)
            &&& int_in_column(module_functions_columns(), row, "end_line"@, m.end_line, 0)
            &&& text_in_column(module_functions_columns(), row, "pattern"@, m.pattern, ""@)
            &&& text_in_column(module_functions_columns(), row, "guard"@, m.guard, ""@)
            &&& text_in_column(module_functions_columns(), row, "source_file"@, m.file, ""@)
        },
{
    lemma_module_functions_columns_distinct();
    let c = module_functions_columns();
    assert(c[0] == "arity"@);
    lemma_named_cell(c, row, 0);
    assert(c[1] == "end_line"@);
    lemma_named_cell(c, row, 1);
    assert(c[2] == "function_name"@);
    lemma_named_cell(c, row, 2);
    assert(c[3] == "guard"@);
    lemma_named_cell(c, row, 3);
    assert(c[4] == "kind"@);
    lemma_named_cell(c, row, 4);
    assert(c[5] == "line"@);
    lemma_named_cell(c, row, 5);
    assert(c[6] == "module_name"@);
    lemma_named_cell(c, row, 6);
    assert(c[7] == "pattern"@);
    lemma_named_cell(c, row, 7);
    assert(c[8] == "source_file"@);
    lemma_named_cell(c, row, 8);
    assert(c[9] == "start_line"@);
    lemma_named_cell(c, row, 9);
}

/// The query binds each of its parameters to the input of that name, and binds an optional one exactly when it is given.
pub proof fn lemma_module_functions_params_bind_inputs(module_pattern: Seq<char>, limit: u32)
    ensures
        ({
            let m = module_functions_params(module_pattern, limit);
            &&& m.dom().contains("module_pattern"@) && m["module_pattern"@] == ParamView::Str(module_pattern)
            &&& m.dom().contains("limit"@) && m["limit"@] == ParamView::Int(limit as i64)
        }),
{
    reveal_strlit("module_pattern");
    reveal_strlit("limit");
    assert("module_pattern"@.len() != "limit"@.len());
}

/// The columns are in ascending order of their names, as SurrealDB gives them.
pub proof fn lemma_module_functions_columns_ascending()
    ensures
        names_ascending(module_functions_columns()),
{
    let c = module_functions_columns();
    reveal_strlit("arity");
    reveal_strlit("end_line");
    reveal_strlit("function_name");
    reveal_strlit("guard");
    reveal_strlit("kind");
    reveal_strlit("line");
    reveal_strlit("module_name");
    reveal_strlit("pattern");
    reveal_strlit("source_file");
    reveal_strlit("start_line");
    assert(c[0] == "arity"@ && c[1] == "end_line"@);
    assert((c[0][0] as int) < (c[1][0] as int));
    lemma_lex_less(c[0], c[1], 0);
    assert(c[1] == "end_line"@ && c[2] == "function_name"@);
    assert((c[1][0] as int) < (c[2][0] as int));
    lemma_lex_less(c[1], c[2], 0);
    assert(c[2] == "function_name"@ && c[3] == "guard"@);
    assert((c[2][0] as int) < (c[3][0] as int));
    lemma_lex_less(c[2], c[3], 0);
    assert(c[3] == "guard"@ && c[4] == "kind"@);
    assert((c[3][0] as int) < (c[4][0] as int));
    lemma_lex_less(c[3], c[4], 0);
    assert(c[4] == "kind"@ && c[5] == "line"@);
    assert((c[4][0] as int) < (c[5][0] as int));
    lemma_lex_less(c[4], c[5], 0);
    assert(c[5] == "line"@ && c[6] == "module_name"@);
    assert((c[5][0] as int) < (c[6][0] as int));
    lemma_lex_less(c[5], c[6], 0);
    assert(c[6] == "module_name"@ && c[7] == "pattern"@);
    assert((c[6][0] as int) < (c[7][0] as int));
    lemma_lex_less(c[6], c[7], 0);
    assert(c[7] == "pattern"@ && c[8] == "source_file"@);
    assert((c[7][0] as int) < (c[8][0] as int));
    lemma_lex_less(c[7], c[8], 0);
    assert(c[8] == "source_file"@ && c[9] == "start_line"@);
    assert(c[8].subrange(0, 1) =~= c[9].subrange(0, 1));
    assert forall|i: int| 0 <= i < 1 implies c[8][i] == c[9][i] by { assert(c[8][i] == c[8].subrange(0, 1)[i]); assert(c[9][i] == c[9].subrange(0, 1)[i]); }
    assert((c[8][1] as int) < (c[9][1] as int));
    lemma_lex_less(c[8], c[9], 1);
    assert forall|k: int| 0 <= k < c.len() - 1 implies lex_order(#[trigger] c[k], c[k + 1]) < 0 by {
        assert(k == 0 || k == 1 || k == 2 || k == 3 || k == 4 || k == 5 || k == 6 || k == 7 || k == 8);
    }
    lemma_names_ascending_from_adjacent(c);
}

} // verus!
