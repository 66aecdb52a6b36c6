//! Finding the shortest call path between two functions.
//!
//! The database walks the call graph from the source function; each pair of
//! consecutive functions on the walk becomes a step, with the line and file
//! of the call looked up separately.

use vstd::prelude::*;
use crate::backend::{Database, QueryParams, QueryResult, Row, Value, ParamView};
use crate::db::DbError;
use crate::queries::dependencies::{function_ref_of, extract_function_ref_from_value};
use crate::queries::hotspots::{first_position, find_col};
use crate::queries::rows::views;
use crate::text::{decimal_nat, push_decimal, string_views, contains_seq, lemma_contains_piece};

verus! {

/// Errors of the path query.
#[derive(Debug)]
pub enum PathError {
    QueryFailed { message: String },
    ArityRequired { message: String },
}

impl PathError {
    /// The error's text.
    pub open spec fn message(&self) -> Seq<char> {
        match self {
            PathError::QueryFailed { message } => "Path query failed: "@ + message@,
            PathError::ArityRequired { message } => "Arity required: "@ + message@,
        }
    }

    /// The error's text (what `Display` writes).
    pub fn to_string(&self) -> (r: String)
        ensures
            r@ == self.message(),
    {
        let mut r = String::new();
        match self {
            PathError::QueryFailed { message } => {
                r.append("Path query failed: ");
                r.append(message.as_str());
            },
            PathError::ArityRequired { message } => {
                r.append("Arity required: ");
                r.append(message.as_str());
            },
        }
        r
    }
}

/// A single step in a call path
#[derive(Debug, Clone)]
pub struct PathStep {
    pub depth: i64,
    pub caller_module: String,
    pub caller_function: String,
    pub callee_module: String,
    pub callee_function: String,
    pub callee_arity: i64,
    pub file: String,
    pub line: i64,
}

/// What a `PathStep` holds, as plain values.
pub struct PathStepView {
    pub depth: i64,
    pub caller_module: Seq<char>,
    pub caller_function: Seq<char>,
    pub callee_module: Seq<char>,
    pub callee_function: Seq<char>,
    pub callee_arity: i64,
    pub file: Seq<char>,
    pub line: i64,
}

impl View for PathStep {
    type V = PathStepView;

    open spec fn view(&self) -> PathStepView {
        PathStepView {
            depth: self.depth,
            caller_module: self.caller_module@,
            caller_function: self.caller_function@,
            callee_module: self.callee_module@,
            callee_function: self.callee_function@,
            callee_arity: self.callee_arity,
            file: self.file@,
            line: self.line,
        }
    }
}

/// A complete path from source to target
#[derive(Debug, Clone)]
pub struct CallPath {
    pub steps: Vec<PathStep>,
}

/// The query walking the calls from the source to the target, at most
/// `max_depth` calls deep, keeping the shortest walk.
pub open spec fn path_query_text(max_depth: u32) -> Seq<char> {
    "SELECT @.{.."@ + decimal_nat(max_depth as nat) + "+shortest=functions:[$target_module, $target_fn, $target_arity]+inclusive}->calls->functions AS path FROM functions:[$source_module, $source_fn, $source_arity];"@
}

/// The parameters of the path query.
pub open spec fn path_params(
    from_module: Seq<char>,
    from_function: Seq<char>,
    from_arity: i64,
    to_module: Seq<char>,
    to_function: Seq<char>,
    to_arity: i64,
) -> Map<Seq<char>, ParamView> {
    Map::empty()
        .insert("source_module"@, ParamView::Str(from_module))
        .insert("source_fn"@, ParamView::Str(from_function))
        .insert("source_arity"@, ParamView::Int(from_arity))
        .insert("target_module"@, ParamView::Str(to_module))
        .insert("target_fn"@, ParamView::Str(to_function))
        .insert("target_arity"@, ParamView::Int(to_arity))
}

/// Query looking up the line and file of the call between two functions.
pub const EDGE_QUERY: &'static str = r#"
        SELECT line, file
        FROM calls
        WHERE in = functions:[$caller_module, $caller_name, $caller_arity]
          AND out = functions:[$callee_module, $callee_name, $callee_arity]
        LIMIT 1;
    "#;

/// The parameters of the edge query for a caller and a callee.
pub open spec fn edge_params(caller: (Seq<char>, Seq<char>, i64), callee: (Seq<char>, Seq<char>, i64)) -> Map<Seq<char>, ParamView> {
    Map::empty()
        .insert("caller_module"@, ParamView::Str(caller.0))
        .insert("caller_name"@, ParamView::Str(caller.1))
        .insert("caller_arity"@, ParamView::Int(caller.2))
        .insert("callee_module"@, ParamView::Str(callee.0))
        .insert("callee_name"@, ParamView::Str(callee.1))
        .insert("callee_arity"@, ParamView::Int(callee.2))
}

/// The value in the column named `name` of a row, when both exist.
pub open spec fn named_cell(headers: Seq<Seq<char>>, row: Seq<Value>, name: Seq<char>) -> Option<Value> {
    match first_position(headers, name) {
        Some(i) => if i < row.len() { Some(row[i]) } else { None },
        None => None,
    }
}

/// The (line, file) an edge lookup gives: from its first row (0 and the
/// empty text for what is missing), or (0, "") when it has no row or fails.
pub open spec fn edge_info(o: Result<QueryResult, DbError>) -> (i64, Seq<char>) {
    match o {
        Ok(res) => if res.rows@.len() > 0 {
            let hs = string_views(res.headers@);
            let row = res.rows@[0].values@;
            (
                match named_cell(hs, row, "line"@) { Some(Value::Int(n)) => n, _ => 0 },
                match named_cell(hs, row, "file"@) { Some(Value::Str(f)) => f@, _ => Seq::empty() },
            )
        } else {
            (0, Seq::empty())
        },
        Err(_) => (0, Seq::empty()),
    }
}

/// The calls along a walk: each consecutive pair of nodes that are both
/// function references, in order.
pub open spec fn hops(nodes: Seq<Value>) -> Seq<((Seq<char>, Seq<char>, i64), (Seq<char>, Seq<char>, i64))>
    decreases nodes.len(),
{
    if nodes.len() < 2 {
        Seq::empty()
    } else {
        let n = nodes.len();
        hops(nodes.drop_last()) + match (function_ref_of(nodes[n - 2]), function_ref_of(nodes[n - 1])) {
            (Some(a), Some(b)) => seq![(a, b)],
            _ => Seq::empty(),
        }
    }
}

proof fn lemma_hops_len(nodes: Seq<Value>)
    ensures
        hops(nodes).len() < nodes.len() || nodes.len() == 0,
    decreases nodes.len(),
{
    if nodes.len() >= 2 {
        lemma_hops_len(nodes.drop_last());
    }
}

/// The walk a result row holds in its first column, when it is an array.
pub open spec fn row_walk(row: Seq<Value>) -> Option<Seq<Value>> {
    if row.len() > 0 {
        match row[0] {
            Value::Array(a) => Some(a@),
            _ => None,
        }
    } else {
        None
    }
}

/// The calls of each walk the rows give, keeping the walks with at least one
/// call, in row order.
pub open spec fn walks_of(rows: Seq<Row>) -> Seq<Seq<((Seq<char>, Seq<char>, i64), (Seq<char>, Seq<char>, i64))>> {
    rows.filter_map(|r: Row| match row_walk(r.values@) {
        Some(w) => if hops(w).len() > 0 { Some(hops(w)) } else { None },
        None => None,
    })
}

/// Step `j` of a path follows call `h`: its depth, its ends and, from some
/// answer of the edge lookup for the call, its line and file.
pub open spec fn step_fits(s: PathStepView, j: int, h: ((Seq<char>, Seq<char>, i64), (Seq<char>, Seq<char>, i64)), line: i64, file: Seq<char>) -> bool {
    &&& s.depth == (j + 1) as i64
    &&& s.caller_module == h.0.0
    &&& s.caller_function == h.0.1
    &&& s.callee_module == h.1.0
    &&& s.callee_function == h.1.1
    &&& s.callee_arity == h.1.2
    &&& s.line == line
    &&& s.file == file
}

/// Step `j` of a path follows call `h`, its line and file from an answer
/// the backend may give to the edge lookup for the call.
pub open spec fn step_answered<D: Database + ?Sized>(db: &D, s: PathStepView, j: int, h: ((Seq<char>, Seq<char>, i64), (Seq<char>, Seq<char>, i64))) -> bool {
    exists|p: QueryParams, o: Result<QueryResult, DbError>|
        p.binds_exactly(edge_params(h.0, h.1)) && #[trigger] db.answers(EDGE_QUERY@, p, o)
            && step_fits(s, j, h, edge_info(o).0, edge_info(o).1)
}

fn edge_params_of(caller: &(String, String, i64), callee: &(String, String, i64)) -> (r: QueryParams)
    ensures
        r.binds_exactly(edge_params((caller.0@, caller.1@, caller.2), (callee.0@, callee.1@, callee.2))),
{
    QueryParams::new()
        .with_str("caller_module", caller.0.as_str())
        .with_str("caller_name", caller.1.as_str())
        .with_int("caller_arity", caller.2)
        .with_str("callee_module", callee.0.as_str())
        .with_str("callee_name", callee.1.as_str())
        .with_int("callee_arity", callee.2)
}

/// Look up the call edge between two functions to get line number and file.
pub fn lookup_call_edge<D: Database + ?Sized>(db: &D, caller: &(String, String, i64), callee: &(String, String, i64)) -> (r: (i64, String))
    ensures
        exists|p: QueryParams, o: Result<QueryResult, DbError>|
            p.binds_exactly(edge_params((caller.0@, caller.1@, caller.2), (callee.0@, callee.1@, callee.2)))
                && #[trigger] db.answers(EDGE_QUERY@, p, o) && (r.0, r.1@) == edge_info(o),
{
    let params = edge_params_of(caller, callee);
    let ghost gp = params;
    let o = db.execute_query(EDGE_QUERY, params);
    let ghost go = o;
    assert(db.answers(EDGE_QUERY@, gp, go));
    match o {
        Ok(edge_result) => {
            if edge_result.rows.len() > 0 {
                let headers = &edge_result.headers;
                let edge_row = &edge_result.rows[0];
                let line = match find_col(headers, "line") {
                    Some(idx) => match edge_row.get(idx) {
                        Some(v) => match v.as_i64() {
                            Some(n) => n,
                            None => 0,
                        },
                        None => 0,
                    },
                    None => 0,
                };
                let file = match find_col(headers, "file") {
                    Some(idx) => match edge_row.get(idx) {
                        Some(v) => match v.as_str() {
                            Some(f) => f.to_owned(),
                            None => String::new(),
                        },
                        None => String::new(),
                    },
                    None => String::new(),
                };
                (line, file)
            } else {
                (0, String::new())
            }
        },
        Err(_) => (0, String::new()),
    }
}

/// Convert a walk to the steps of a call path: each consecutive pair of
/// function references becomes a step, numbered from 1, with the line and
/// file of its call.
pub fn convert_path_to_steps<D: Database + ?Sized>(db: &D, path: &Vec<Value>) -> (r: Vec<PathStep>)
    ensures
        r@.len() == hops(path@).len(),
        forall|j: int| 0 <= j < r@.len() ==> step_answered(db, (#[trigger] r@[j])@, j, hops(path@)[j]),
{
    let mut steps: Vec<PathStep> = Vec::new();
    if path.len() < 2 {
        assert(hops(path@) =~= Seq::empty());
        return steps;
    }
    let mut k: usize = 1;
    assert(hops(path@.take(1)) =~= Seq::empty());
    while k < path.len()
        invariant
            1 <= k <= path@.len(),
            steps@.len() == hops(path@.take(k as int)).len(),
            forall|j: int| 0 <= j < steps@.len() ==> step_answered(db, (#[trigger] steps@[j])@, j, hops(path@.take(k as int))[j]),
        decreases path@.len() - k,
    {
        let ghost before = hops(path@.take(k as int));
        let ghost t = path@.take(k + 1);
        proof {
            assert(t.drop_last() =~= path@.take(k as int));
            assert(t[t.len() - 2] == path@[k - 1]);
            assert(t[t.len() - 1] == path@[k as int]);
            lemma_hops_len(path@.take(k as int));
        }
        let ghost old_steps = steps@;
        match (extract_function_ref_from_value(&path[k - 1]), extract_function_ref_from_value(&path[k])) {
            (Some(caller), Some(callee)) => {
                let (line, file) = lookup_call_edge(db, &caller, &callee);
                let ghost hop = ((caller.0@, caller.1@, caller.2), (callee.0@, callee.1@, callee.2));
                let depth = #[verifier::truncate] ((steps.len() + 1) as i64);
                let step = PathStep {
                    depth,
                    caller_module: caller.0,
                    caller_function: caller.1,
                    callee_module: callee.0,
                    callee_function: callee.1,
                    callee_arity: callee.2,
                    file,
                    line,
                };
                let ghost sv = step@;
                steps.push(step);
                proof {
                    let h = hops(t);
                    assert(h =~= before.push(hop));
                    assert(step_answered(db, sv, old_steps.len() as int, hop));
                    assert forall|j: int| 0 <= j < steps@.len() implies step_answered(db, (#[trigger] steps@[j])@, j, h[j]) by {
                        if j < old_steps.len() {
                            assert(steps@[j] == old_steps[j]);
                            assert(h[j] == before[j]);
                        } else {
                            assert(steps@[j]@ == sv);
                        }
                    }
                }
            },
            _ => {
                proof {
                    assert(hops(t) =~= before);
                }
            },
        }
        k = k + 1;
    }
    assert(path@.take(k as int) =~= path@);
    steps
}

fn path_query(max_depth: u32) -> (r: String)
    ensures
        r@ == path_query_text(max_depth),
{
    let mut q = String::new();
    q.append("SELECT @.{..");
    push_decimal(&mut q, max_depth as i64);
    q.append("+shortest=functions:[$target_module, $target_fn, $target_arity]+inclusive}->calls->functions AS path FROM functions:[$source_module, $source_fn, $source_arity];");
    q
}

/// Find the shortest call path from one function to another, at most
/// `max_depth` calls deep: each walk the query gives with at least one call
/// becomes a path, its steps the calls along the walk.
pub fn find_paths<D: Database + ?Sized>(
    db: &D,
    from_module: &str,
    from_function: &str,
    from_arity: i64,
    to_module: &str,
    to_function: &str,
    to_arity: i64,
    _project: &str,
    max_depth: u32,
    _limit: u32,
) -> (r: Result<Vec<CallPath>, PathError>)
    ensures
        match r {
            Err(PathError::QueryFailed { message }) => exists|p: QueryParams, e: DbError|
                p.binds_exactly(path_params(from_module@, from_function@, from_arity, to_module@, to_function@, to_arity))
                    && #[trigger] db.answers(path_query_text(max_depth), p, Err(e)) && message@ == e.message(),
            Err(PathError::ArityRequired { .. }) => false,
            Ok(paths) => exists|p: QueryParams, res: QueryResult|
                p.binds_exactly(path_params(from_module@, from_function@, from_arity, to_module@, to_function@, to_arity))
                    && #[trigger] db.answers(path_query_text(max_depth), p, Ok(res))
                    && paths@.len() == walks_of(res.rows@).len()
                    && forall|i: int| 0 <= i < paths@.len() ==> (#[trigger] paths@[i]).steps@.len() == walks_of(res.rows@)[i].len()
                    && forall|i: int, j: int| 0 <= i < paths@.len() && 0 <= j < paths@[i].steps@.len()
                        ==> step_answered(db, (#[trigger] paths@[i].steps@[j])@, j, walks_of(res.rows@)[i][j]),
        },
{
    let query = path_query(max_depth);
    let params = QueryParams::new()
        .with_str("source_module", from_module)
        .with_str("source_fn", from_function)
        .with_int("source_arity", from_arity)
        .with_str("target_module", to_module)
        .with_str("target_fn", to_function)
        .with_int("target_arity", to_arity);
    let ghost gp = params;
    let result = match db.execute_query(query.as_str(), params) {
        Ok(res) => res,
        Err(e) => {
            let message = e.to_string();
            assert(db.answers(query@, gp, Err(e)));
            assert(query@ == path_query_text(max_depth));
            assert(gp.binds_exactly(path_params(from_module@, from_function@, from_arity, to_module@, to_function@, to_arity)));
            return Err(PathError::QueryFailed { message });
        },
    };
    let rows = &result.rows;
    let mut all_paths: Vec<CallPath> = Vec::new();
    let mut i: usize = 0;
    while i < rows.len()
        invariant
            i <= rows@.len(),
            all_paths@.len() == walks_of(rows@.take(i as int)).len(),
            forall|a: int| 0 <= a < all_paths@.len() ==> (#[trigger] all_paths@[a]).steps@.len() == walks_of(rows@.take(i as int))[a].len(),
            forall|a: int, j: int| 0 <= a < all_paths@.len() && 0 <= j < all_paths@[a].steps@.len()
                ==> step_answered(db, (#[trigger] all_paths@[a].steps@[j])@, j, walks_of(rows@.take(i as int))[a][j]),
        decreases rows@.len() - i,
    {
        let ghost t = rows@.take(i + 1);
        let ghost before = walks_of(rows@.take(i as int));
        let ghost old_paths = all_paths@;
        proof {
            assert(t.drop_last() =~= rows@.take(i as int));
            assert(t.last() == rows@[i as int]);
        }
        let row = &rows[i];
        let mut added = false;
        if row.len() > 0 {
            match &row.values[0] {
                Value::Array(path) => {
                    let steps = convert_path_to_steps(db, path);
                    if steps.len() > 0 {
                        let ghost new_steps = steps@;
                        all_paths.push(CallPath { steps });
                        added = true;
                        proof {
                            let w = walks_of(t);
                            assert(w =~= before.push(hops(path@)));
                            assert forall|a: int| 0 <= a < all_paths@.len() implies (#[trigger] all_paths@[a]).steps@.len() == w[a].len() by {
                                if a < old_paths.len() {
                                    assert(all_paths@[a] == old_paths[a]);
                                }
                            }
                            assert forall|a: int, j: int| 0 <= a < all_paths@.len() && 0 <= j < all_paths@[a].steps@.len()
                                implies step_answered(db, (#[trigger] all_paths@[a].steps@[j])@, j, w[a][j]) by {
                                if a < old_paths.len() {
                                    assert(all_paths@[a] == old_paths[a]);
                                    assert(w[a] == before[a]);
                                } else {
                                    assert(all_paths@[a].steps@ == new_steps);
                                    assert(w[a] == hops(path@));
                                }
                            }
                        }
                    }
                },
                _ => {},
            }
        }
        if !added {
            proof {
                assert(walks_of(t) =~= before);
            }
        }
        i = i + 1;
    }
    assert(rows@.take(rows@.len() as int) =~= rows@);
    assert(db.answers(query@, gp, Ok(result)));
    Ok(all_paths)
}

/// The path query starts its walk at the function bound to the `source_*`
/// parameters and stops it at the one bound to the `target_*` parameters:
/// the source is the requested `from` function and the target the requested
/// `to` function, and nothing else is bound.
pub proof fn lemma_path_params_from_source_to_target(
    from_module: Seq<char>,
    from_function: Seq<char>,
    from_arity: i64,
    to_module: Seq<char>,
    to_function: Seq<char>,
    to_arity: i64,
)
    ensures
        ({
            let m = path_params(from_module, from_function, from_arity, to_module, to_function, to_arity);
            &&& m.dom() == set!["source_module"@, "source_fn"@, "source_arity"@, "target_module"@, "target_fn"@, "target_arity"@]
            &&& m["source_module"@] == ParamView::Str(from_module)
            &&& m["source_fn"@] == ParamView::Str(from_function)
            &&& m["source_arity"@] == ParamView::Int(from_arity)
            &&& m["target_module"@] == ParamView::Str(to_module)
            &&& m["target_fn"@] == ParamView::Str(to_function)
            &&& m["target_arity"@] == ParamView::Int(to_arity)
        }),
{
    reveal_strlit("source_module");
    reveal_strlit("source_fn");
    reveal_strlit("source_arity");
    reveal_strlit("target_module");
    reveal_strlit("target_fn");
    reveal_strlit("target_arity");
    let m = path_params(from_module, from_function, from_arity, to_module, to_function, to_arity);
    assert("source_module"@[0] != "target_module"@[0]);
    assert("source_fn"@.len() != "source_arity"@.len());
    assert("source_fn"@[0] != "target_fn"@[0]);
    assert("source_arity"@[0] != "target_arity"@[0]);
    assert("source_module"@.len() != "source_fn"@.len());
    assert("source_module"@.len() != "source_arity"@.len());
    assert("source_module"@.len() != "target_fn"@.len());
    assert("source_module"@.len() != "target_arity"@.len());
    assert("source_fn"@.len() != "target_module"@.len());
    assert("source_fn"@.len() != "target_arity"@.len());
    assert("source_arity"@.len() != "target_module"@.len());
    assert("source_arity"@.len() != "target_fn"@.len());
    assert("target_module"@.len() != "target_fn"@.len());
    assert("target_module"@.len() != "target_arity"@.len());
    assert("target_fn"@.len() != "target_arity"@.len());
    assert(m.dom() =~= set!["source_module"@, "source_fn"@, "source_arity"@, "target_module"@, "target_fn"@, "target_arity"@]);
}

/// The edge lookup for a call binds the `caller_*` parameters to the calling
/// function and the `callee_*` parameters to the called one, and nothing else.
pub proof fn lemma_edge_params_caller_then_callee(caller: (Seq<char>, Seq<char>, i64), callee: (Seq<char>, Seq<char>, i64))
    ensures
        ({
            let m = edge_params(caller, callee);
            &&& m.dom() == set!["caller_module"@, "caller_name"@, "caller_arity"@, "callee_module"@, "callee_name"@, "callee_arity"@]
            &&& m["caller_module"@] == ParamView::Str(caller.0)
            &&& m["caller_name"@] == ParamView::Str(caller.1)
            &&& m["caller_arity"@] == ParamView::Int(caller.2)
            &&& m["callee_module"@] == ParamView::Str(callee.0)
            &&& m["callee_name"@] == ParamView::Str(callee.1)
            &&& m["callee_arity"@] == ParamView::Int(callee.2)
        }),
{
    reveal_strlit("caller_module");
    reveal_strlit("caller_name");
    reveal_strlit("caller_arity");
    reveal_strlit("callee_module");
    reveal_strlit("callee_name");
    reveal_strlit("callee_arity");
    let m = edge_params(caller, callee);
    assert("caller_module"@[5] != "callee_module"@[5]);
    assert("caller_name"@[5] != "callee_name"@[5]);
    assert("caller_arity"@[5] != "callee_arity"@[5]);
    assert("caller_name"@.len() != "caller_arity"@.len());
    assert("caller_module"@.len() != "caller_name"@.len());
    assert("caller_module"@.len() != "caller_arity"@.len());
    assert("caller_module"@.len() != "callee_name"@.len());
    assert("caller_module"@.len() != "callee_arity"@.len());
    assert("caller_name"@.len() != "callee_module"@.len());
    assert("caller_name"@.len() != "callee_arity"@.len());
    assert("caller_arity"@.len() != "callee_module"@.len());
    assert("caller_arity"@.len() != "callee_name"@.len());
    assert("callee_module"@.len() != "callee_name"@.len());
    assert("callee_module"@.len() != "callee_arity"@.len());
    assert("callee_name"@.len() != "callee_arity"@.len());
    assert(m.dom() =~= set!["caller_module"@, "caller_name"@, "caller_arity"@, "callee_module"@, "callee_name"@, "callee_arity"@]);
}

/// Each call along a walk goes from a node to the node right after it: its
/// caller is the function at some position of the walk and its callee the
/// function at the next position.
pub proof fn lemma_hops_follow_walk(nodes: Seq<Value>)
    ensures
        forall|k: int| #![trigger hops(nodes)[k]] 0 <= k < hops(nodes).len() ==> exists|i: int| 0 <= i && i + 1 < nodes.len()
            && #[trigger] function_ref_of(nodes[i]) == Some(hops(nodes)[k].0)
            && function_ref_of(nodes[i + 1]) == Some(hops(nodes)[k].1),
    decreases nodes.len(),
{
    if nodes.len() >= 2 {
        let d = nodes.drop_last();
        lemma_hops_follow_walk(d);
        let n = nodes.len();
        assert forall|k: int| #![trigger hops(nodes)[k]] 0 <= k < hops(nodes).len() implies exists|i: int| 0 <= i && i + 1 < nodes.len()
            && #[trigger] function_ref_of(nodes[i]) == Some(hops(nodes)[k].0)
            && function_ref_of(nodes[i + 1]) == Some(hops(nodes)[k].1) by {
            if k < hops(d).len() {
                let i = choose|i: int| 0 <= i && i + 1 < d.len()
                    && #[trigger] function_ref_of(d[i]) == Some(hops(d)[k].0)
                    && function_ref_of(d[i + 1]) == Some(hops(d)[k].1);
                assert(nodes[i] == d[i]);
                assert(nodes[i + 1] == d[i + 1]);
                assert(function_ref_of(nodes[i]) == Some(hops(nodes)[k].0));
            } else {
                assert(function_ref_of(nodes[n - 2]) == Some(hops(nodes)[k].0));
            }
        }
    }
}

/// The path query starts its walk from the function record named by the
/// `source_*` parameters and stops at the shortest walk reaching the record
/// named by the `target_*` parameters.
pub proof fn lemma_path_query_from_source_to_target(max_depth: u32)
    ensures
        contains_seq(path_query_text(max_depth), "+shortest=functions:[$target_module, $target_fn, $target_arity]"@),
        contains_seq(path_query_text(max_depth), "FROM functions:[$source_module, $source_fn, $source_arity]"@),
{
    reveal_strlit("+shortest=functions:[$target_module, $target_fn, $target_arity]+inclusive}->calls->functions AS path FROM functions:[$source_module, $source_fn, $source_arity];");
    reveal_strlit("+shortest=functions:[$target_module, $target_fn, $target_arity]");
    reveal_strlit("FROM functions:[$source_module, $source_fn, $source_arity]");
    let t = path_query_text(max_depth);
    let l = "+shortest=functions:[$target_module, $target_fn, $target_arity]+inclusive}->calls->functions AS path FROM functions:[$source_module, $source_fn, $source_arity];"@;
    let p = t.subrange(0, t.len() - l.len());
    assert(t =~= p + l + Seq::<char>::empty());
    assert(l.subrange(0, 63) =~= "+shortest=functions:[$target_module, $target_fn, $target_arity]"@);
    lemma_contains_piece(p, l, Seq::<char>::empty(), 0, "+shortest=functions:[$target_module, $target_fn, $target_arity]"@);
    assert(l.subrange(101, 159) =~= "FROM functions:[$source_module, $source_fn, $source_arity]"@);
    lemma_contains_piece(p, l, Seq::<char>::empty(), 101, "FROM functions:[$source_module, $source_fn, $source_arity]"@);
}

} // verus!
