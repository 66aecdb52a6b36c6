//! Finding functions with duplicate implementations (same AST or source hash).

use vstd::prelude::*;
use crate::query_builders::{cozo_match, cozo_module_cond, push_cozo_match, push_cozo_module_cond};
use crate::text::{decimal_int, push_decimal};
use crate::backend::{Database, QueryParams, QueryResult, Row, Value, ParamView};
use crate::db::{DbError, cell_text, cell_text_or, cell_int_or, get_string, get_string_or, get_i64_or};
use crate::query_builders::{validate_regex_patterns, first_invalid_pattern, opt_str_view, pattern_views, regex_finds, regex_is_match, regex_compiles};
use crate::queries::hotspots::{first_position, find_col, first_of_its_name, lemma_first_position_is_first};
use crate::queries::rows::{views, CozoRecord, read_cozo_rows, decode_cozo_rows, distinct_names, int_in_column, text_in_column, text_at_column, lemma_named_cell};
use crate::text::{contains_seq, str_contains, str_equal, string_views};

verus! {

/// A function that has a duplicate implementation (same AST or source hash)
#[derive(Debug, Clone)]
pub struct DuplicateFunction {
    pub hash: String,
    pub module: String,
    pub name: String,
    pub arity: i64,
    pub line: i64,
    pub file: String,
}

/// What a `DuplicateFunction` holds, as plain values.
pub struct DuplicateFunctionView {
    pub hash: Seq<char>,
    pub module: Seq<char>,
    pub name: Seq<char>,
    pub arity: i64,
    pub line: i64,
    pub file: Seq<char>,
}

impl View for DuplicateFunction {
    type V = DuplicateFunctionView;

    open spec fn view(&self) -> DuplicateFunctionView {
        DuplicateFunctionView {
            hash: self.hash@,
            module: self.module@,
            name: self.name@,
            arity: self.arity,
            line: self.line,
            file: self.file@,
        }
    }
}

/// Errors of the query.
#[derive(Debug)]
pub enum DuplicatesError {
    QueryFailed { message: String },
    InvalidRegex { pattern: String },
}

impl DuplicatesError {
    /// The error's text.
    pub open spec fn message(&self) -> Seq<char> {
        match self {
            DuplicatesError::QueryFailed { message } => "Duplicates query failed: "@ + message@,
            DuplicatesError::InvalidRegex { pattern } => "Invalid regex pattern: "@ + pattern@,
        }
    }

    /// The error's text (what `Display` writes).
    pub fn to_string(&self) -> (r: String)
        ensures
            r@ == self.message(),
    {
        let mut r = String::new();
        match self {
            DuplicatesError::QueryFailed { message } => {
                r.append("Duplicates query failed: ");
                r.append(message.as_str());
            },
            DuplicatesError::InvalidRegex { pattern } => {
                r.append("Invalid regex pattern: ");
                r.append(pattern.as_str());
            },
        }
        r
    }
}

/// The query text: clauses with a non-empty hash (the source hash when
/// `use_exact`, else the AST hash), generated code left out when asked.
pub open spec fn duplicates_query_text(use_exact: bool, exclude_generated: bool) -> Seq<char> {
    let hash_field = if use_exact { "source_sha"@ } else { "ast_sha"@ };
    let generated_filter = if exclude_generated { " AND (generated_by IS NONE)"@ } else { ""@ };
    "SELECT "@ + hash_field
        + " as hash, module_name as module, function_name as name, arity, line, source_file as file FROM clauses WHERE "@
        + hash_field + r#" != """#@ + generated_filter + " ORDER BY hash, module, name, arity"@
}

/// Builds the query text.
pub fn duplicates_query(use_exact: bool, exclude_generated: bool) -> (r: String)
    ensures
        r@ == duplicates_query_text(use_exact, exclude_generated),
{
    let hash_field = if use_exact { "source_sha" } else { "ast_sha" };
    let generated_filter = if exclude_generated { " AND (generated_by IS NONE)" } else { "" };
    let mut q = String::new();
    q.append("SELECT ");
    q.append(hash_field);
    q.append(" as hash, module_name as module, function_name as name, arity, line, source_file as file FROM clauses WHERE ");
    q.append(hash_field);
    q.append(r#" != """#);
    q.append(generated_filter);
    q.append(" ORDER BY hash, module, name, arity");
    q
}

/// The position of the column named `name`, or `default` when there is none.
pub open spec fn column_or(headers: Seq<Seq<char>>, name: Seq<char>, default: int) -> int {
    match first_position(headers, name) {
        Some(i) => i,
        None => default,
    }
}

fn column_or_exec(headers: &Vec<String>, name: &str, default: usize) -> (r: usize)
    ensures
        r as int == column_or(string_views(headers@), name@, default as int),
{
    match find_col(headers, name) {
        Some(i) => i,
        None => default,
    }
}

/// Column positions of hash, module, name, arity, line and file.
#[derive(Debug, Clone)]
pub struct DuplicateColumns {
    pub hash: usize,
    pub module: usize,
    pub name: usize,
    pub arity: usize,
    pub line: usize,
    pub file: usize,
}

pub open spec fn duplicate_columns(headers: Seq<Seq<char>>) -> DuplicateColumns {
    DuplicateColumns {
        hash: column_or(headers, "hash"@, 0) as usize,
        module: column_or(headers, "module"@, 1) as usize,
        name: column_or(headers, "name"@, 2) as usize,
        arity: column_or(headers, "arity"@, 3) as usize,
        line: column_or(headers, "line"@, 4) as usize,
        file: column_or(headers, "file"@, 5) as usize,
    }
}

/// The clause a row describes, when the row has all six columns and a
/// non-empty hash, module, name and file (missing strings read as empty).
pub open spec fn duplicate_of_row(row: Seq<Value>, c: DuplicateColumns) -> Option<DuplicateFunctionView> {
    if row.len() >= 6 {
        let hash = cell_text_or(row, c.hash as int, Seq::empty());
        let module = cell_text_or(row, c.module as int, Seq::empty());
        let name = cell_text_or(row, c.name as int, Seq::empty());
        let file = cell_text_or(row, c.file as int, Seq::empty());
        if hash.len() > 0 && module.len() > 0 && name.len() > 0 && file.len() > 0 {
            Some(DuplicateFunctionView {
                hash,
                module,
                name,
                arity: cell_int_or(row, c.arity as int, 0),
                line: cell_int_or(row, c.line as int, 0),
                file,
            })
        } else {
            None
        }
    } else {
        None
    }
}

/// The clauses the result describes, in row order.
pub open spec fn duplicate_candidates(res: QueryResult) -> Seq<DuplicateFunctionView> {
    let c = duplicate_columns(string_views(res.headers@));
    res.rows@.filter_map(|r: Row| duplicate_of_row(r.values@, c))
}

/// How many of the clauses carry hash `h`.
pub open spec fn hash_count(items: Seq<DuplicateFunctionView>, h: Seq<char>) -> nat {
    items.filter(|x: DuplicateFunctionView| x.hash == h).len()
}

/// Whether a module passes the module filter: a regex match, or containing
/// the pattern; any module passes when there is no pattern.
pub open spec fn duplicate_module_selected(module_pattern: Option<Seq<char>>, use_regex: bool, module: Seq<char>) -> bool {
    match module_pattern {
        Some(p) => if use_regex { regex_finds(p, module) } else { contains_seq(module, p) },
        None => true,
    }
}

/// The clauses whose hash occurs more than once among all the clauses, then
/// those passing the module filter, in row order.
pub open spec fn duplicates_of(items: Seq<DuplicateFunctionView>, module_pattern: Option<Seq<char>>, use_regex: bool) -> Seq<DuplicateFunctionView> {
    items.filter(|x: DuplicateFunctionView| hash_count(items, x.hash) > 1 && duplicate_module_selected(module_pattern, use_regex, x.module))
}

fn duplicate_from_row(row: &Row, c: &DuplicateColumns) -> (r: Option<DuplicateFunction>)
    ensures
        match r {
            Some(d) => duplicate_of_row(row.values@, *c) == Some(d@),
            None => duplicate_of_row(row.values@, *c) is None,
        },
{
    if row.len() < 6 {
        return None;
    }
    let hash = get_string_or(row, c.hash, "");
    let module = get_string_or(row, c.module, "");
    let name = get_string_or(row, c.name, "");
    let arity = get_i64_or(row, c.arity, 0);
    let line = get_i64_or(row, c.line, 0);
    let file = get_string_or(row, c.file, "");
    proof {
        reveal_strlit("");
    }
    if !hash.as_str().is_empty() && !module.as_str().is_empty() && !name.as_str().is_empty() && !file.as_str().is_empty() {
        Some(DuplicateFunction { hash, module, name, arity, line, file })
    } else {
        None
    }
}

fn count_hash(items: &Vec<DuplicateFunction>, h: &str) -> (r: usize)
    ensures
        r as nat == hash_count(views(items@), h@),
{
    let ghost all = views(items@);
    let ghost pred = |x: DuplicateFunctionView| x.hash == h@;
    let mut n: usize = 0;
    let mut i: usize = 0;
    while i < items.len()
        invariant
            i <= items@.len(),
            all == views(items@),
            pred == (|x: DuplicateFunctionView| x.hash == h@),
            n as nat == all.take(i as int).filter(pred).len(),
            n <= i,
        decreases items@.len() - i,
    {
        proof {
            reveal(Seq::filter);
            assert(all.take(i + 1).drop_last() =~= all.take(i as int));
            assert(all.take(i + 1).last() == items@[i as int]@);
        }
        if str_equal(items[i].hash.as_str(), h) {
            n = n + 1;
        }
        i = i + 1;
    }
    assert(all.take(i as int) =~= all);
    n
}

/// Find the functions that have a duplicate implementation: clauses with a
/// non-empty hash, module, name and file whose hash occurs more than once,
/// then (with a module pattern) those whose module matches it (regex) or
/// contains it, in the order of the query's rows.
pub fn find_duplicates<D: Database + ?Sized>(
    db: &D,
    _project: &str,
    module_pattern: Option<&str>,
    use_regex: bool,
    use_exact: bool,
    exclude_generated: bool,
) -> (r: Result<Vec<DuplicateFunction>, DuplicatesError>)
    ensures
        match r {
            Err(DuplicatesError::InvalidRegex { pattern: bad }) => first_invalid_pattern(use_regex, seq![opt_str_view(module_pattern)]) == Some(bad@),
            Err(DuplicatesError::QueryFailed { message }) => first_invalid_pattern(use_regex, seq![opt_str_view(module_pattern)]) is None
                && exists|p: QueryParams, e: DbError| p.binds_exactly(Map::empty())
                    && #[trigger] db.answers(duplicates_query_text(use_exact, exclude_generated), p, Err(e)) && message@ == e.message(),
            Ok(v) => first_invalid_pattern(use_regex, seq![opt_str_view(module_pattern)]) is None
                && exists|p: QueryParams, res: QueryResult| p.binds_exactly(Map::empty())
                    && #[trigger] db.answers(duplicates_query_text(use_exact, exclude_generated), p, Ok(res))
                    && views(v@) == duplicates_of(duplicate_candidates(res), opt_str_view(module_pattern), use_regex),
        },
{
    let pats: [Option<&str>; 1] = [module_pattern];
    assert(pattern_views(pats@) =~= seq![opt_str_view(module_pattern)]);
    match validate_regex_patterns(use_regex, &pats) {
        Err(p) => {
            return Err(DuplicatesError::InvalidRegex { pattern: p });
        },
        Ok(()) => {},
    }
    proof {
        if use_regex && module_pattern is Some {
            reveal_with_fuel(first_invalid_pattern, 2);
            assert(seq![opt_str_view(module_pattern)].drop_first() =~= Seq::<Option<Seq<char>>>::empty());
        }
    }
    let query = duplicates_query(use_exact, exclude_generated);
    let params = QueryParams::new();
    let ghost gp = params;
    let result = match db.execute_query(query.as_str(), params) {
        Ok(res) => res,
        Err(e) => {
            let message = e.to_string();
            assert(db.answers(query@, gp, Err(e)));
            return Err(DuplicatesError::QueryFailed { message });
        },
    };
    let headers = &result.headers;
    let c = DuplicateColumns {
        hash: column_or_exec(headers, "hash", 0),
        module: column_or_exec(headers, "module", 1),
        name: column_or_exec(headers, "name", 2),
        arity: column_or_exec(headers, "arity", 3),
        line: column_or_exec(headers, "line", 4),
        file: column_or_exec(headers, "file", 5),
    };
    assert(c == duplicate_columns(string_views(result.headers@)));
    let rows = &result.rows;
    let ghost pick = |r: Row| duplicate_of_row(r.values@, c);
    let mut all_items: Vec<DuplicateFunction> = Vec::new();
    let mut i: usize = 0;
    while i < rows.len()
        invariant
            i <= rows@.len(),
            pick == (|r: Row| duplicate_of_row(r.values@, c)),
            views(all_items@) == rows@.take(i as int).filter_map(pick),
        decreases rows@.len() - i,
    {
        let ghost before = all_items@;
        let ghost t = rows@.take(i + 1);
        assert(t.drop_last() =~= rows@.take(i as int));
        assert(t.last() == rows@[i as int]);
        match duplicate_from_row(&rows[i], &c) {
            Some(d) => {
                all_items.push(d);
                assert(views(all_items@) =~= views(before) + seq![d@]);
            },
            None => {},
        }
        i = i + 1;
    }
    assert(rows@.take(rows@.len() as int) =~= rows@);
    let ghost items = views(all_items@);
    assert(items == duplicate_candidates(result));
    let ghost mp = opt_str_view(module_pattern);
    let ghost keep = |x: DuplicateFunctionView| hash_count(items, x.hash) > 1 && duplicate_module_selected(mp, use_regex, x.module);
    let mut out: Vec<DuplicateFunction> = Vec::new();
    let mut j: usize = 0;
    while j < all_items.len()
        invariant
            j <= all_items@.len(),
            items == views(all_items@),
            mp == opt_str_view(module_pattern),
            use_regex && module_pattern is Some ==> regex_compiles(module_pattern.unwrap()@),
            keep == (|x: DuplicateFunctionView| hash_count(items, x.hash) > 1 && duplicate_module_selected(mp, use_regex, x.module)),
            views(out@) == items.take(j as int).filter(keep),
        decreases all_items@.len() - j,
    {
        proof {
            reveal(Seq::filter);
            assert(items.take(j + 1).drop_last() =~= items.take(j as int));
            assert(items.take(j + 1).last() == all_items@[j as int]@);
        }
        let item = &all_items[j];
        let repeated = count_hash(&all_items, item.hash.as_str()) > 1;
        let selected = match module_pattern {
            Some(p) => if use_regex { regex_is_match(p, item.module.as_str()) } else { str_contains(item.module.as_str(), p) },
            None => true,
        };
        if repeated && selected {
            let ghost before = views(out@);
            out.push(DuplicateFunction {
                hash: item.hash.clone(),
                module: item.module.clone(),
                name: item.name.clone(),
                arity: item.arity,
                line: item.line,
                file: item.file.clone(),
            });
            assert(views(out@) =~= before.push(item@));
        }
        j = j + 1;
    }
    assert(items.take(j as int) =~= items);
    assert(db.answers(query@, gp, Ok(result)));
    Ok(out)
}


/// The parameters of the CozoDB script.
pub open spec fn duplicates_cozo_params(project: Seq<char>, module_pattern: Option<Seq<char>>) -> Map<Seq<char>, ParamView> {
    let m = Map::<Seq<char>, ParamView>::empty().insert("project"@, ParamView::Str(project));
    match module_pattern { Some(mp) => m.insert("module_pattern"@, ParamView::Str(mp)), None => m }
}

/// The CozoDB script for the given options.
pub open spec fn duplicates_cozo_text(module_pattern: Option<Seq<char>>, use_regex: bool, use_exact: bool, exclude_generated: bool) -> Seq<char> {
    r#"
        # Find hashes that appear more than once (count unique functions per hash)
        hash_counts["#@
        + (if use_exact { "source_sha"@ } else { "ast_sha"@ })
        + r#", count(module)] :=
            *function_locations{project, module, name, arity, "#@
        + (if use_exact { "source_sha"@ } else { "ast_sha"@ })
        + r#", generated_by},
            project == $project,
            "#@
        + (if use_exact { "source_sha"@ } else { "ast_sha"@ })
        + r#" != ""
            "#@
        + (if exclude_generated { ", generated_by == \"\""@ } else { ""@ })
        + r#"

        # Get all functions with duplicate hashes
        ?["#@
        + (if use_exact { "source_sha"@ } else { "ast_sha"@ })
        + r#", module, name, arity, line, file] :=
            *function_locations{project, module, name, arity, line, file, "#@
        + (if use_exact { "source_sha"@ } else { "ast_sha"@ })
        + r#", generated_by},
            hash_counts["#@
        + (if use_exact { "source_sha"@ } else { "ast_sha"@ })
        + r#", cnt],
            cnt > 1,
            project == $project
            "#@
        + (cozo_module_cond(module_pattern is Some, use_regex))
        + r#"
            "#@
        + (if exclude_generated { ", generated_by == \"\""@ } else { ""@ })
        + r#"

        :order "#@
        + (if use_exact { "source_sha"@ } else { "ast_sha"@ })
        + r#", module, name, arity
        "#@
}

/// Builds the CozoDB script and its parameters.
pub fn duplicates_cozo_script(project: &str, module_pattern: Option<&str>, use_regex: bool, use_exact: bool, exclude_generated: bool) -> (r: (String, QueryParams))
    ensures
        r.0@ == duplicates_cozo_text(opt_str_view(module_pattern), use_regex, use_exact, exclude_generated),
        r.1.binds_exactly(duplicates_cozo_params(project@, opt_str_view(module_pattern))),
{
    let hash_field: &str = if use_exact { "source_sha" } else { "ast_sha" };
    let generated_filter: &str = if exclude_generated { ", generated_by == \"\"" } else { "" };
    let mut query = String::new();
    query.append(r#"
        # Find hashes that appear more than once (count unique functions per hash)
        hash_counts["#);
    query.append(hash_field);
    query.append(r#", count(module)] :=
            *function_locations{project, module, name, arity, "#);
    query.append(hash_field);
    query.append(r#", generated_by},
            project == $project,
            "#);
    query.append(hash_field);
    query.append(r#" != ""
            "#);
    query.append(generated_filter);
    query.append(r#"

        # Get all functions with duplicate hashes
        ?["#);
    query.append(hash_field);
    query.append(r#", module, name, arity, line, file] :=
            *function_locations{project, module, name, arity, line, file, "#);
    query.append(hash_field);
    query.append(r#", generated_by},
            hash_counts["#);
    query.append(hash_field);
    query.append(r#", cnt],
            cnt > 1,
            project == $project
            "#);
    push_cozo_module_cond(&mut query, module_pattern.is_some(), use_regex);
    query.append(r#"
            "#);
    query.append(generated_filter);
    query.append(r#"

        :order "#);
    query.append(hash_field);
    query.append(r#", module, name, arity
        "#);
    let mut params = QueryParams::new();
    params = params.with_str("project", project);
    match module_pattern {
        Some(mp) => {
            params = params.with_str("module_pattern", mp);
        },
        None => {},
    }
    assert(query@ =~= duplicates_cozo_text(opt_str_view(module_pattern), use_regex, use_exact, exclude_generated));
    (query, params)
}

impl CozoRecord for DuplicateFunction {
    open spec fn read_cozo(row: Seq<Value>) -> Option<DuplicateFunctionView> {
        if row.len() >= 6 {
            match (cell_text(row, 0), cell_text(row, 1), cell_text(row, 2), cell_text(row, 5)) {
                (Some(v_hash), Some(v_module), Some(v_name), Some(v_file)) => Some(DuplicateFunctionView { hash: v_hash, module: v_module, name: v_name, arity: cell_int_or(row, 3, 0), line: cell_int_or(row, 4, 0), file: v_file }),
                _ => None,
            }
        } else {
            None
        }
    }

    fn from_cozo_row(row: &Row) -> (r: Option<DuplicateFunction>) {
        if row.len() < 6 {
            return None;
        }
        let hash = get_string(row, 0)?;
        let module = get_string(row, 1)?;
        let name = get_string(row, 2)?;
        let arity = get_i64_or(row, 3, 0);
        let line = get_i64_or(row, 4, 0);
        let file = get_string(row, 5)?;
        Some(DuplicateFunction { hash, module, name, arity, line, file })
    }
}

/// Find functions with identical bodies on CozoDB: the clauses of the project
/// whose hash (source or AST) occurs more than once, within modules matching
/// `module_pattern`, ordered by hash, module, name and arity, as the script
/// gives them.
pub fn find_duplicates_cozo<D: Database + ?Sized>(db: &D, project: &str, module_pattern: Option<&str>, use_regex: bool, use_exact: bool, exclude_generated: bool) -> (r: Result<Vec<DuplicateFunction>, DuplicatesError>)
    ensures
        match r {
            Err(DuplicatesError::InvalidRegex { pattern: bad }) => first_invalid_pattern(use_regex, seq![opt_str_view(module_pattern)]) == Some(bad@),
            Err(DuplicatesError::QueryFailed { message }) => first_invalid_pattern(use_regex, seq![opt_str_view(module_pattern)]) is None
                && exists|p: QueryParams, e: DbError| p.binds_exactly(duplicates_cozo_params(project@, opt_str_view(module_pattern)))
                    && #[trigger] db.answers(duplicates_cozo_text(opt_str_view(module_pattern), use_regex, use_exact, exclude_generated), p, Err(e)) && message@ == e.message(),
            Ok(v) => first_invalid_pattern(use_regex, seq![opt_str_view(module_pattern)]) is None
                && exists|p: QueryParams, res: QueryResult| p.binds_exactly(duplicates_cozo_params(project@, opt_str_view(module_pattern)))
                    && #[trigger] db.answers(duplicates_cozo_text(opt_str_view(module_pattern), use_regex, use_exact, exclude_generated), p, Ok(res))
                    && views(v@) == read_cozo_rows::<DuplicateFunction>(res.rows@),
        },
{
    let pats: [Option<&str>; 1] = [module_pattern];
    assert(pattern_views(pats@) =~= seq![opt_str_view(module_pattern)]);
    match validate_regex_patterns(use_regex, &pats) {
        Err(p) => {
            return Err(DuplicatesError::InvalidRegex { pattern: p });
        },
        Ok(()) => {},
    }
    let (query, params) = duplicates_cozo_script(project, module_pattern, use_regex, use_exact, exclude_generated);
    let ghost gp = params;
    match db.execute_query(query.as_str(), params) {
        Ok(res) => {
            let v = decode_cozo_rows::<DuplicateFunction>(&res.rows);
            assert(db.answers(query@, gp, Ok(res)));
            Ok(v)
        },
        Err(e) => {
            let ghost ge = e;
            let message = e.to_string();
            assert(db.answers(query@, gp, Err(ge)));
            Err(DuplicatesError::QueryFailed { message })
        },
    }
}

proof fn lemma_column_or_first(headers: Seq<Seq<char>>, name: Seq<char>, default: int, i: int)
    requires
        first_of_its_name(headers, i),
        headers[i] == name,
    ensures
        column_or(headers, name, default) == i,
{
    lemma_first_position_is_first(headers, name, i);
}

/// A duplicate read from a row takes each field from the first column whose
/// header carries that field's name: the hash from `hash`, the module from
/// `module`, the name from `name`, the arity from `arity`, the line from
/// `line` and the file from `file`.
pub proof fn lemma_duplicate_reads_named_columns(headers: Seq<Seq<char>>, row: Seq<Value>)
    requires
        headers.len() <= usize::MAX,
    ensures
        duplicate_of_row(row, duplicate_columns(headers)) matches Some(d) ==> forall|i: int| #[trigger] first_of_its_name(headers, i) ==> {
            &&& headers[i] == "hash"@ ==> d.hash == cell_text_or(row, i, Seq::empty())
            &&& headers[i] == "module"@ ==> d.module == cell_text_or(row, i, Seq::empty())
            &&& headers[i] == "name"@ ==> d.name == cell_text_or(row, i, Seq::empty())
            &&& headers[i] == "arity"@ ==> d.arity == cell_int_or(row, i, 0)
            &&& headers[i] == "line"@ ==> d.line == cell_int_or(row, i, 0)
            &&& headers[i] == "file"@ ==> d.file == cell_text_or(row, i, Seq::empty())
        },
{
    assert forall|i: int| #[trigger] first_of_its_name(headers, i) implies {
        &&& headers[i] == "hash"@ ==> column_or(headers, "hash"@, 0) == i
        &&& headers[i] == "module"@ ==> column_or(headers, "module"@, 1) == i
        &&& headers[i] == "name"@ ==> column_or(headers, "name"@, 2) == i
        &&& headers[i] == "arity"@ ==> column_or(headers, "arity"@, 3) == i
        &&& headers[i] == "line"@ ==> column_or(headers, "line"@, 4) == i
        &&& headers[i] == "file"@ ==> column_or(headers, "file"@, 5) == i
    } by {
        if headers[i] == "hash"@ { lemma_column_or_first(headers, "hash"@, 0, i); }
        if headers[i] == "module"@ { lemma_column_or_first(headers, "module"@, 1, i); }
        if headers[i] == "name"@ { lemma_column_or_first(headers, "name"@, 2, i); }
        if headers[i] == "arity"@ { lemma_column_or_first(headers, "arity"@, 3, i); }
        if headers[i] == "line"@ { lemma_column_or_first(headers, "line"@, 4, i); }
        if headers[i] == "file"@ { lemma_column_or_first(headers, "file"@, 5, i); }
    }
}

/// The columns of the script's answer: the head of its query rule, in order
/// (the hash column is `source_sha` for exact duplicates, `ast_sha` otherwise).
pub open spec fn duplicates_cozo_columns(use_exact: bool) -> Seq<Seq<char>> {
    seq![if use_exact { "source_sha"@ } else { "ast_sha"@ }, "module"@, "name"@, "arity"@, "line"@, "file"@]
}

proof fn lemma_duplicates_cozo_columns_distinct(use_exact: bool)
    ensures
        distinct_names(duplicates_cozo_columns(use_exact)),
{
    if use_exact {
        let c = duplicates_cozo_columns(true);
        reveal_strlit("source_sha");
        reveal_strlit("module");
        reveal_strlit("name");
        reveal_strlit("arity");
        reveal_strlit("line");
        reveal_strlit("file");
        assert(c[0] == "source_sha"@);
        assert(c[1] == "module"@);
        assert(c[2] == "name"@);
        assert(c[3] == "arity"@);
        assert(c[4] == "line"@);
        assert(c[5] == "file"@);
        assert(c[0].len() != c[1].len());
        assert(c[0] != c[1]);
        assert(c[0].len() != c[2].len());
        assert(c[0] != c[2]);
        assert(c[0].len() != c[3].len());
        assert(c[0] != c[3]);
        assert(c[0].len() != c[4].len());
        assert(c[0] != c[4]);
        assert(c[0].len() != c[5].len());
        assert(c[0] != c[5]);
        assert(c[1].len() != c[2].len());
        assert(c[1] != c[2]);
        assert(c[1].len() != c[3].len());
        assert(c[1] != c[3]);
        assert(c[1].len() != c[4].len());
        assert(c[1] != c[4]);
        assert(c[1].len() != c[5].len());
        assert(c[1] != c[5]);
        assert(c[2].len() != c[3].len());
        assert(c[2] != c[3]);
        assert(c[2][0] != c[4][0]);
        assert(c[2] != c[4]);
        assert(c[2][0] != c[5][0]);
        assert(c[2] != c[5]);
        assert(c[3].len() != c[4].len());
        assert(c[3] != c[4]);
        assert(c[3].len() != c[5].len());
        assert(c[3] != c[5]);
        assert(c[4][0] != c[5][0]);
        assert(c[4] != c[5]);
        assert forall|i: int, j: int| 0 <= i < c.len() && 0 <= j < c.len() && i != j implies #[trigger] c[i] != #[trigger] c[j] by {
            assert(i == 0 || i == 1 || i == 2 || i == 3 || i == 4 || i == 5);
            assert(j == 0 || j == 1 || j == 2 || j == 3 || j == 4 || j == 5);
        }
    } else {
        let c = duplicates_cozo_columns(false);
        reveal_strlit("ast_sha");
        reveal_strlit("module");
        reveal_strlit("name");
        reveal_strlit("arity");
        reveal_strlit("line");
        reveal_strlit("file");
        assert(c[0] == "ast_sha"@);
        assert(c[1] == "module"@);
        assert(c[2] == "name"@);
        assert(c[3] == "arity"@);
        assert(c[4] == "line"@);
        assert(c[5] == "file"@);
        assert(c[0].len() != c[1].len());
        assert(c[0] != c[1]);
        assert(c[0].len() != c[2].len());
        assert(c[0] != c[2]);
        assert(c[0].len() != c[3].len());
        assert(c[0] != c[3]);
        assert(c[0].len() != c[4].len());
        assert(c[0] != c[4]);
        assert(c[0].len() != c[5].len());
        assert(c[0] != c[5]);
        assert(c[1].len() != c[2].len());
        assert(c[1] != c[2]);
        assert(c[1].len() != c[3].len());
        assert(c[1] != c[3]);
        assert(c[1].len() != c[4].len());
        assert(c[1] != c[4]);
        assert(c[1].len() != c[5].len());
        assert(c[1] != c[5]);
        assert(c[2].len() != c[3].len());
        assert(c[2] != c[3]);
        assert(c[2][0] != c[4][0]);
        assert(c[2] != c[4]);
        assert(c[2][0] != c[5][0]);
        assert(c[2] != c[5]);
        assert(c[3].len() != c[4].len());
        assert(c[3] != c[4]);
        assert(c[3].len() != c[5].len());
        assert(c[3] != c[5]);
        assert(c[4][0] != c[5][0]);
        assert(c[4] != c[5]);
        assert forall|i: int, j: int| 0 <= i < c.len() && 0 <= j < c.len() && i != j implies #[trigger] c[i] != #[trigger] c[j] by {
            assert(i == 0 || i == 1 || i == 2 || i == 3 || i == 4 || i == 5);
            assert(j == 0 || j == 1 || j == 2 || j == 3 || j == 4 || j == 5);
        }
    }
}

/// Each field of a duplicate read from a row of the script's answer is the
/// value in the column of that field's name (the hash in the hash column); a
/// row gives a duplicate exactly when it has every column and text in the
/// hash, `module`, `name` and `file` columns.
pub proof fn lemma_duplicate_function_cozo_named_columns(use_exact: bool, row: Seq<Value>)
    ensures
        DuplicateFunction::read_cozo(row) is Some <==> (row.len() >= duplicates_cozo_columns(use_exact).len()
            && text_at_column(duplicates_cozo_columns(use_exact), row, duplicates_cozo_columns(use_exact)[0])
            && text_at_column(duplicates_cozo_columns(use_exact), row, "module"@)
            && text_at_column(duplicates_cozo_columns(use_exact), row, "name"@)
            && text_at_column(duplicates_cozo_columns(use_exact), row, "file"@)),
        DuplicateFunction::read_cozo(row) matches Some(m) ==> {
            &&& text_in_column(duplicates_cozo_columns(use_exact), row, duplicates_cozo_columns(use_exact)[0], m.hash, ""@)
            &&& text_in_column(duplicates_cozo_columns(use_exact), row, "module"@, m.module, ""@)
            &&& text_in_column(duplicates_cozo_columns(use_exact), row, "name"@, m.name, ""@)
            &&& int_in_column(duplicates_cozo_columns(use_exact), row, "arity"@, m.arity, 0)
            &&& int_in_column(duplicates_cozo_columns(use_exact), row, "line"@, m.line, 0)
            &&& text_in_column(duplicates_cozo_columns(use_exact), row, "file"@, m.file, ""@)
        },
{
    lemma_duplicates_cozo_columns_distinct(use_exact);
    let c = duplicates_cozo_columns(use_exact);
    lemma_named_cell(c, row, 0);
    assert(c[1] == "module"@);
    lemma_named_cell(c, row, 1);
    assert(c[2] == "name"@);
    lemma_named_cell(c, row, 2);
    assert(c[3] == "arity"@);
    lemma_named_cell(c, row, 3);
    assert(c[4] == "line"@);
    lemma_named_cell(c, row, 4);
    assert(c[5] == "file"@);
    lemma_named_cell(c, row, 5);
}

/// The query binds each of its parameters to the input of that name, and binds an optional one exactly when it is given.
pub proof fn lemma_duplicates_cozo_params_bind_inputs(project: Seq<char>, module_pattern: Option<Seq<char>>)
    ensures
        ({
            let m = duplicates_cozo_params(project, module_pattern);
            &&& m.dom().contains("project"@) && m["project"@] == ParamView::Str(project)
            &&& match module_pattern { Some(v) => m.dom().contains("module_pattern"@) && m["module_pattern"@] == ParamView::Str(v), None => !m.dom().contains("module_pattern"@) }
        }),
{
    reveal_strlit("project");
    reveal_strlit("module_pattern");
    assert("project"@.len() != "module_pattern"@.len());
}

proof fn lemma_hash_count_witnesses(items: Seq<DuplicateFunctionView>, h: Seq<char>)
    ensures
        hash_count(items, h) >= 1 ==> exists|j: int| 0 <= j < items.len() && #[trigger] items[j].hash == h,
        hash_count(items, h) >= 2 ==> exists|j: int, k: int| 0 <= j < k < items.len() && #[trigger] items[j].hash == h && #[trigger] items[k].hash == h,
    decreases items.len(),
{
    reveal(Seq::filter);
    if items.len() > 0 {
        let d = items.drop_last();
        lemma_hash_count_witnesses(d, h);
        let n = items.len() - 1;
        assert(items[n] == items.last());
        assert forall|j: int| 0 <= j < d.len() implies items[j] == d[j] by {}
        if items.last().hash == h {
            assert(hash_count(items, h) == hash_count(d, h) + 1);
            if hash_count(items, h) >= 2 {
                let j = choose|j: int| 0 <= j < d.len() && #[trigger] d[j].hash == h;
                assert(items[j].hash == h);
                assert(items[n].hash == h);
            }
            assert(items[n].hash == h);
        } else {
            assert(hash_count(items, h) == hash_count(d, h));
            if hash_count(items, h) >= 2 {
                let (j, k) = choose|j: int, k: int| 0 <= j < k < d.len() && #[trigger] d[j].hash == h && #[trigger] d[k].hash == h;
                assert(items[j].hash == h && items[k].hash == h);
            }
            if hash_count(items, h) >= 1 {
                let j = choose|j: int| 0 <= j < d.len() && #[trigger] d[j].hash == h;
                assert(items[j].hash == h);
            }
        }
    }
}

/// Every reported duplicate is one of the clauses read, and its hash is
/// carried by at least two of those clauses.
pub proof fn lemma_duplicates_share_a_hash(items: Seq<DuplicateFunctionView>, module_pattern: Option<Seq<char>>, use_regex: bool)
    ensures
        forall|d: DuplicateFunctionView| #[trigger] duplicates_of(items, module_pattern, use_regex).contains(d) ==> {
            &&& items.contains(d)
            &&& exists|j: int, k: int| 0 <= j < k < items.len() && #[trigger] items[j].hash == d.hash && #[trigger] items[k].hash == d.hash
        },
{
    let f = |x: DuplicateFunctionView| hash_count(items, x.hash) > 1 && duplicate_module_selected(module_pattern, use_regex, x.module);
    assert forall|d: DuplicateFunctionView| #[trigger] duplicates_of(items, module_pattern, use_regex).contains(d) implies {
        &&& items.contains(d)
        &&& exists|j: int, k: int| 0 <= j < k < items.len() && #[trigger] items[j].hash == d.hash && #[trigger] items[k].hash == d.hash
    } by {
        assert(duplicates_of(items, module_pattern, use_regex) == items.filter(f));
        items.lemma_filter_contains_rev(f, d);
        items.filter_lemma(f);
        let idx = choose|idx: int| 0 <= idx < items.filter(f).len() && items.filter(f)[idx] == d;
        assert(f(items.filter(f)[idx]));
        lemma_hash_count_witnesses(items, d.hash);
    }
}

} // verus!
