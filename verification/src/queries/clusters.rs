//! The calls between different modules, for cluster analysis.
//!
//! Clusters are computed by grouping modules by namespace; this query gives
//! the calls that connect modules.

use vstd::prelude::*;
use crate::backend::{Database, ParamView, QueryParams, QueryResult, Row, Value};
use crate::queries::hotspots::{find_col, first_position};
use crate::text::string_views;
use crate::db::{DbError, cell_text, get_string};
use crate::queries::rows::{RowRecord, views, read_rows, decode_rows, distinct_names, int_in_column, text_in_column, text_at_column, lemma_named_cell};

use crate::backend::surreal_rows::{names_ascending, lemma_names_ascending_from_adjacent};
use crate::text::{lex_order, lemma_lex_less};

verus! {

/// Represents a call between two different modules
#[derive(Debug, Clone)]
pub struct ModuleCall {
    pub caller_module: String,
    pub callee_module: String,
}

/// What a `ModuleCall` holds, as plain values.
pub struct ModuleCallView {
    pub caller_module: Seq<char>,
    pub callee_module: Seq<char>,
}

impl View for ModuleCall {
    type V = ModuleCallView;

    open spec fn view(&self) -> ModuleCallView {
        ModuleCallView {
            caller_module: self.caller_module@,
            callee_module: self.callee_module@,
        }
    }
}

impl RowRecord for ModuleCall {
    open spec fn read(row: Seq<Value>) -> Option<ModuleCallView> {
        if row.len() >= 2 {
            match (cell_text(row, 0), cell_text(row, 1)) {
                (Some(v_callee_module), Some(v_caller_module)) => Some(ModuleCallView { caller_module: v_caller_module, callee_module: v_callee_module }),
                _ => None,
            }
        } else {
            None
        }
    }

    fn from_row(row: &Row) -> (r: Option<ModuleCall>) {
        if row.len() < 2 {
            return None;
        }
        let caller_module = get_string(row, 1)?;
        let callee_module = get_string(row, 0)?;
        Some(ModuleCall { caller_module, callee_module })
    }
}

/// Query listing the caller and callee module of every call between
/// different modules.
pub const MODULE_CALLS_QUERY: &'static str = r#"
        SELECT
            in.module_name as caller_module,
            out.module_name as callee_module
        FROM calls
        WHERE in.module_name != out.module_name
    "#;

/// Get all inter-module calls (calls between different modules), in the
/// order of the result rows.
pub fn get_module_calls<D: Database + ?Sized>(db: &D, _project: &str) -> (r: Result<Vec<ModuleCall>, DbError>)
    ensures
        match r {
            Err(e) => exists|p: QueryParams| p.size() == 0 && #[trigger] db.answers(MODULE_CALLS_QUERY@, p, Err(e)),
            Ok(v) => exists|p: QueryParams, res: QueryResult| p.size() == 0
                && #[trigger] db.answers(MODULE_CALLS_QUERY@, p, Ok(res))
                && views(v@) == read_rows::<ModuleCall>(res.rows@),
        },
{
    match db.execute_query_no_params(MODULE_CALLS_QUERY) {
        Ok(res) => {
            let v = decode_rows::<ModuleCall>(&res.rows);
            Ok(v)
        },
        Err(e) => Err(e),
    }
}


/// The CozoDB script listing the caller and callee module of every call of
/// the project between different modules.
pub const COZO_MODULE_CALLS_SCRIPT: &'static str = r#"
        ?[caller_module, callee_module] :=
            *calls{project, caller_module, callee_module},
            project == $project,
            caller_module != callee_module
    "#;

/// The parameters of a CozoDB script that takes only the project.
pub open spec fn cozo_project_params(project: Seq<char>) -> Map<Seq<char>, ParamView> {
    Map::empty().insert("project"@, ParamView::Str(project))
}

/// The call a CozoDB row gives: its caller and callee module cells (at the
/// given columns) when both are strings.
pub open spec fn cozo_module_call_of_row(row: Seq<Value>, ci: int, mi: int) -> Option<ModuleCallView> {
    match (cell_text(row, ci), cell_text(row, mi)) {
        (Some(c), Some(m)) => Some(ModuleCallView { caller_module: c, callee_module: m }),
        _ => None,
    }
}

/// The calls of CozoDB's answer, in row order.
pub open spec fn cozo_module_calls_of(rows: Seq<Row>, ci: int, mi: int) -> Seq<ModuleCallView> {
    rows.filter_map(|r: Row| cozo_module_call_of_row(r.values@, ci, mi))
}

/// Get all inter-module calls on CozoDB, in the order of the result rows;
/// the `caller_module` and `callee_module` columns are found by name.
pub fn get_module_calls_cozo<D: Database + ?Sized>(db: &D, project: &str) -> (r: Result<Vec<ModuleCall>, DbError>)
    ensures
        match r {
            Err(e) => (exists|p: QueryParams| p.binds_exactly(cozo_project_params(project@))
                && #[trigger] db.answers(COZO_MODULE_CALLS_SCRIPT@, p, Err(e)))
                || (e matches DbError::MissingColumn { name } && exists|p: QueryParams, res: QueryResult|
                p.binds_exactly(cozo_project_params(project@)) && #[trigger] db.answers(COZO_MODULE_CALLS_SCRIPT@, p, Ok(res))
                && (if first_position(string_views(res.headers@), "caller_module"@) is None { name@ == "caller_module"@ } else {
                    first_position(string_views(res.headers@), "callee_module"@) is None && name@ == "callee_module"@ })),
            Ok(v) => exists|p: QueryParams, res: QueryResult|
                p.binds_exactly(cozo_project_params(project@)) && #[trigger] db.answers(COZO_MODULE_CALLS_SCRIPT@, p, Ok(res))
                && first_position(string_views(res.headers@), "caller_module"@) is Some
                && first_position(string_views(res.headers@), "callee_module"@) is Some
                && views(v@) == cozo_module_calls_of(res.rows@,
                    first_position(string_views(res.headers@), "caller_module"@).unwrap(),
                    first_position(string_views(res.headers@), "callee_module"@).unwrap()),
        },
{
    let params = QueryParams::new().with_str("project", project);
    let ghost gp = params;
    proof {
        assert(gp.binds_exactly(cozo_project_params(project@)));
    }
    let result = match db.execute_query(COZO_MODULE_CALLS_SCRIPT, params) {
        Ok(res) => res,
        Err(e) => {
            assert(db.answers(COZO_MODULE_CALLS_SCRIPT@, gp, Err(e)));
            return Err(e);
        },
    };
    assert(db.answers(COZO_MODULE_CALLS_SCRIPT@, gp, Ok(result)));
    let caller_idx = match find_col(&result.headers, "caller_module") {
        Some(i) => i,
        None => {
            return Err(DbError::MissingColumn { name: "caller_module".to_owned() });
        },
    };
    let callee_idx = match find_col(&result.headers, "callee_module") {
        Some(i) => i,
        None => {
            return Err(DbError::MissingColumn { name: "callee_module".to_owned() });
        },
    };
    let rows = &result.rows;
    let mut calls: Vec<ModuleCall> = Vec::new();
    let mut i: usize = 0;
    while i < rows.len()
        invariant
            i <= rows@.len(),
            rows@ == result.rows@,
            views(calls@) == cozo_module_calls_of(rows@.take(i as int), caller_idx as int, callee_idx as int),
        decreases rows@.len() - i,
    {
        let ghost before = views(calls@);
        let ghost t = rows@.take(i + 1);
        assert(t.drop_last() =~= rows@.take(i as int));
        assert(t.last() == rows@[i as int]);
        let row = &rows[i];
        match (get_string(row, caller_idx), get_string(row, callee_idx)) {
            (Some(caller_module), Some(callee_module)) => {
                let m = ModuleCall { caller_module, callee_module };
                calls.push(m);
                assert(views(calls@) =~= before + seq![m@]);
            },
            _ => {},
        }
        i = i + 1;
    }
    assert(rows@.take(rows@.len() as int) =~= rows@);
    Ok(calls)
}

/// The columns of the query's answer, as SurrealDB gives them: the names
/// the query selects, in alphabetical order.
pub open spec fn module_calls_columns() -> Seq<Seq<char>> {
    seq!["callee_module"@, "caller_module"@]
}

proof fn lemma_module_calls_columns_distinct()
    ensures
        distinct_names(module_calls_columns()),
{
    let c = module_calls_columns();
    reveal_strlit("callee_module");
    reveal_strlit("caller_module");
    assert(c[0] == "callee_module"@);
    assert(c[1] == "caller_module"@);
    assert(c[0][5] != c[1][5]);
    assert(c[0] != c[1]);
    assert forall|i: int, j: int| 0 <= i < c.len() && 0 <= j < c.len() && i != j implies #[trigger] c[i] != #[trigger] c[j] by {
        assert(i == 0 || i == 1);
        assert(j == 0 || j == 1);
    }
}

/// Each field of a record read from a row of the answer is the value in the
/// column of that field's name; a row gives a record exactly when it has
/// every column and text in the columns `callee_module`, `caller_module`.
pub proof fn lemma_module_call_named_columns(row: Seq<Value>)
    ensures
        ModuleCall::read(row) is Some <==> (row.len() >= module_calls_columns().len() && text_at_column(module_calls_columns(), row, "callee_module"@) && text_at_column(module_calls_columns(), row, "caller_module"@)),
        ModuleCall::read(row) matches Some(m) ==> {
            &&& text_in_column(module_calls_columns(), row, "caller_module"@, m.caller_module, ""@)
            &&& text_in_column(module_calls_columns(), row, "callee_module"@, m.callee_module, ""@)
        },
{
    lemma_module_calls_columns_distinct();
    let c = module_calls_columns();
    assert(c[0] == "callee_module"@);
    lemma_named_cell(c, row, 0);
    assert(c[1] == "caller_module"@);
    lemma_named_cell(c, row, 1);
}

/// The columns are in ascending order of their names, as SurrealDB gives them.
pub proof fn lemma_module_calls_columns_ascending()
    ensures
        names_ascending(module_calls_columns()),
{
    let c = module_calls_columns();
    reveal_strlit("callee_module");
    reveal_strlit("caller_module");
    assert(c[0] == "callee_module"@ && c[1] == "caller_module"@);
    assert(c[0].subrange(0, 5) =~= c[1].subrange(0, 5));
    assert forall|i: int| 0 <= i < 5 implies c[0][i] == c[1][i] by { assert(c[0][i] == c[0].subrange(0, 5)[i]); assert(c[1][i] == c[1].subrange(0, 5)[i]); }
    assert((c[0][5] as int) < (c[1][5] as int));
    lemma_lex_less(c[0], c[1], 5);
    assert forall|k: int| 0 <= k < c.len() - 1 implies lex_order(#[trigger] c[k], c[k + 1]) < 0 by {
        assert(k == 0);
    }
    lemma_names_ascending_from_adjacent(c);
}

} // verus!
