//! Detecting circular dependencies between modules.
//!
//! The module dependency graph comes from the calls between functions of
//! different modules; a module is on a cycle when it can reach itself again,
//! and the reported edges are those between two modules that are each on a
//! cycle, once each, ordered by source and target.

use vstd::prelude::*;
use crate::backend::{Database, ParamView, QueryParams, QueryResult, Row, Value};
use crate::queries::hotspots::{find_col, first_position};
use crate::db::{DbError, cell_text, get_string};
use crate::queries::rows::{views, distinct_names, int_in_column, text_in_column, text_at_column, lemma_named_cell};
use crate::sorting::{Keyed, KeyPart, SortField, key_view, key_order, compare_keys, lemma_key_order, lemma_key_order_trans_strict};
use crate::text::{chars_of, contains_seq, contains_text, str_contains, str_equal, string_views};

use crate::backend::surreal_rows::{names_ascending, lemma_names_ascending_from_adjacent};
use crate::text::{lex_order, lemma_lex_less};

verus! {

/// Edge in a cycle (from module -> to module)
#[derive(Debug, Clone, PartialEq, Eq, Hash)]
pub struct CycleEdge {
    pub from: String,
    pub to: String,
}

/// What a `CycleEdge` holds, as plain values.
pub struct CycleEdgeView {
    pub from: Seq<char>,
    pub to: Seq<char>,
}

impl View for CycleEdge {
    type V = CycleEdgeView;

    open spec fn view(&self) -> CycleEdgeView {
        CycleEdgeView { from: self.from@, to: self.to@ }
    }
}

impl Keyed for CycleEdge {
    open spec fn view_key(v: CycleEdgeView) -> Seq<SortField> {
        seq![SortField::Text(v.from), SortField::Text(v.to)]
    }

    fn key(&self) -> (k: Vec<KeyPart>) {
        let k = vec![KeyPart::Text(chars_of(self.from.as_str())), KeyPart::Text(chars_of(self.to.as_str()))];
        assert(key_view(k@) =~= Self::view_key(self@));
        k
    }
}

/// Query listing the module of caller and callee for every call between
/// different modules.
pub const DEPENDENCIES_QUERY: &'static str = r#"
        SELECT
            in.module_name as from_module,
            out.module_name as to_module
        FROM calls
        WHERE in.module_name != out.module_name
    "#;

/// The dependency a row gives: its first two columns as (from, to) modules.
pub open spec fn dependency_of_row(row: Seq<Value>) -> Option<(Seq<char>, Seq<char>)> {
    if row.len() >= 2 {
        match (cell_text(row, 0), cell_text(row, 1)) {
            (Some(a), Some(b)) => Some((a, b)),
            _ => None,
        }
    } else {
        None
    }
}

/// The dependencies the rows give, in row order (repetitions included).
pub open spec fn dependencies_of_rows(rows: Seq<Row>) -> Seq<(Seq<char>, Seq<char>)> {
    rows.filter_map(|r: Row| dependency_of_row(r.values@))
}

pub open spec fn pair_views(v: Seq<(String, String)>) -> Seq<(Seq<char>, Seq<char>)> {
    v.map_values(|e: (String, String)| (e.0@, e.1@))
}

/// Step `i` of the walk `w` follows an edge.
pub open spec fn step_ok(edges: Seq<(Seq<char>, Seq<char>)>, w: Seq<Seq<char>>, i: int) -> bool {
    edges.contains((w[i], w[i + 1]))
}

/// `w` is a walk of at least one edge.
pub open spec fn is_walk(edges: Seq<(Seq<char>, Seq<char>)>, w: Seq<Seq<char>>) -> bool {
    w.len() >= 2 && forall|i: int| 0 <= i < w.len() - 1 ==> #[trigger] step_ok(edges, w, i)
}

/// `b` can be reached from `a` by following one or more edges.
pub open spec fn reaches(edges: Seq<(Seq<char>, Seq<char>)>, a: Seq<char>, b: Seq<char>) -> bool {
    exists|w: Seq<Seq<char>>| #[trigger] is_walk(edges, w) && w[0] == a && w.last() == b
}

/// Whether an edge passes the module filter: one of its ends contains the pattern.
pub open spec fn edge_selected(module_pattern: Option<Seq<char>>, from: Seq<char>, to: Seq<char>) -> bool {
    match module_pattern {
        Some(p) => contains_seq(from, p) || contains_seq(to, p),
        None => true,
    }
}

/// A module that can reach itself again: it lies on at least one cycle.
pub open spec fn on_cycle(edges: Seq<(Seq<char>, Seq<char>)>, m: Seq<char>) -> bool {
    reaches(edges, m, m)
}

/// An edge that is reported: a dependency both of whose modules are on a
/// cycle, passing the module filter.
pub open spec fn is_cycle_edge(edges: Seq<(Seq<char>, Seq<char>)>, module_pattern: Option<Seq<char>>, from: Seq<char>, to: Seq<char>) -> bool {
    edges.contains((from, to)) && on_cycle(edges, from) && on_cycle(edges, to) && edge_selected(module_pattern, from, to)
}

/// Every edge comes strictly before every later one (so none occurs twice).
pub open spec fn strictly_ordered(s: Seq<CycleEdgeView>) -> bool {
    forall|i: int, j: int|
        0 <= i < j < s.len() ==> key_order(CycleEdge::view_key(#[trigger] s[i]), CycleEdge::view_key(#[trigger] s[j])) < 0
}

/// The reported edges: exactly the cycle edges, each once, ordered by source
/// then target.
pub open spec fn reports_cycle_edges(edges: Seq<(Seq<char>, Seq<char>)>, module_pattern: Option<Seq<char>>, out: Seq<CycleEdgeView>) -> bool {
    &&& strictly_ordered(out)
    &&& forall|from: Seq<char>, to: Seq<char>|
        #[trigger] out.contains(CycleEdgeView { from, to }) <==> is_cycle_edge(edges, module_pattern, from, to)
}

/// Two strictly ordered sequences of edges with the same members are the
/// same sequence.
proof fn lemma_ordered_same_members(a: Seq<CycleEdgeView>, b: Seq<CycleEdgeView>)
    requires
        strictly_ordered(a),
        strictly_ordered(b),
        forall|x: CycleEdgeView| a.contains(x) <==> b.contains(x),
    ensures
        a == b,
    decreases a.len(),
{
    if a.len() == 0 {
        if b.len() > 0 {
            assert(b.contains(b[0]));
        }
        assert(a =~= b);
    } else {
        assert(a.contains(a[0]));
        let j = choose|j: int| 0 <= j < b.len() && b[j] == a[0];
        assert(b.contains(b[0]));
        let i = choose|i: int| 0 <= i < a.len() && a[i] == b[0];
        lemma_key_order(CycleEdge::view_key(a[0]), CycleEdge::view_key(b[0]));
        if j > 0 {
            assert(key_order(CycleEdge::view_key(b[0]), CycleEdge::view_key(b[j])) < 0);
            if i > 0 {
                assert(key_order(CycleEdge::view_key(a[0]), CycleEdge::view_key(a[i])) < 0);
            }
        }
        assert(a[0] == b[0]);
        let a2 = a.drop_first();
        let b2 = b.drop_first();
        assert forall|x: CycleEdgeView| a2.contains(x) <==> b2.contains(x) by {
            if a2.contains(x) {
                let k = choose|k: int| 0 <= k < a2.len() && a2[k] == x;
                assert(a[k + 1] == x);
                assert(key_order(CycleEdge::view_key(a[0]), CycleEdge::view_key(a[k + 1])) < 0);
                lemma_key_order(CycleEdge::view_key(x), CycleEdge::view_key(x));
                assert(a.contains(x));
                let m = choose|m: int| 0 <= m < b.len() && b[m] == x;
                assert(m != 0);
                assert(b2[m - 1] == x);
            }
            if b2.contains(x) {
                let k = choose|k: int| 0 <= k < b2.len() && b2[k] == x;
                assert(b[k + 1] == x);
                assert(key_order(CycleEdge::view_key(b[0]), CycleEdge::view_key(b[k + 1])) < 0);
                lemma_key_order(CycleEdge::view_key(x), CycleEdge::view_key(x));
                assert(b.contains(x));
                let m = choose|m: int| 0 <= m < a.len() && a[m] == x;
                assert(m != 0);
                assert(a2[m - 1] == x);
            }
        }
        assert forall|p: int, q: int| 0 <= p < q < a2.len() implies key_order(CycleEdge::view_key(#[trigger] a2[p]), CycleEdge::view_key(#[trigger] a2[q])) < 0 by {
            assert(a2[p] == a[p + 1] && a2[q] == a[q + 1]);
        }
        assert forall|p: int, q: int| 0 <= p < q < b2.len() implies key_order(CycleEdge::view_key(#[trigger] b2[p]), CycleEdge::view_key(#[trigger] b2[q])) < 0 by {
            assert(b2[p] == b[p + 1] && b2[q] == b[q + 1]);
        }
        lemma_ordered_same_members(a2, b2);
        assert(a =~= seq![a[0]] + a2);
        assert(b =~= seq![b[0]] + b2);
    }
}

/// The report is determined by the dependencies and the module filter: any
/// two reports of the cycle edges of the same dependencies are the same
/// sequence, so asking again of an unchanged database gives the same edges.
pub proof fn lemma_cycle_report_unique(
    edges: Seq<(Seq<char>, Seq<char>)>,
    module_pattern: Option<Seq<char>>,
    a: Seq<CycleEdgeView>,
    b: Seq<CycleEdgeView>,
)
    requires
        reports_cycle_edges(edges, module_pattern, a),
        reports_cycle_edges(edges, module_pattern, b),
    ensures
        a == b,
{
    assert forall|x: CycleEdgeView| a.contains(x) <==> b.contains(x) by {
        assert(x == CycleEdgeView { from: x.from, to: x.to });
    }
    lemma_ordered_same_members(a, b);
}

proof fn lemma_edge_reaches(edges: Seq<(Seq<char>, Seq<char>)>, a: Seq<char>, b: Seq<char>)
    requires
        edges.contains((a, b)),
    ensures
        reaches(edges, a, b),
{
    let w = seq![a, b];
    assert(step_ok(edges, w, 0));
    assert(is_walk(edges, w));
}

proof fn lemma_reaches_extend(edges: Seq<(Seq<char>, Seq<char>)>, s: Seq<char>, a: Seq<char>, b: Seq<char>)
    requires
        reaches(edges, s, a),
        edges.contains((a, b)),
    ensures
        reaches(edges, s, b),
{
    let w = choose|w: Seq<Seq<char>>| #[trigger] is_walk(edges, w) && w[0] == s && w.last() == a;
    let w2 = w.push(b);
    assert forall|i: int| 0 <= i < w2.len() - 1 implies #[trigger] step_ok(edges, w2, i) by {
        if i < w.len() - 1 {
            assert(step_ok(edges, w, i));
        }
    }
    assert(is_walk(edges, w2));
}

/// Every node is in `r` when every edge leaving `s` or a node of `r` ends in `r`.
pub open spec fn closed_from(edges: Seq<(Seq<char>, Seq<char>)>, s: Seq<char>, r: Seq<Seq<char>>) -> bool {
    forall|k: int| 0 <= k < edges.len() && (edges[k].0 == s || r.contains(edges[k].0)) ==> r.contains(#[trigger] edges[k].1)
}

proof fn lemma_closed_walk(edges: Seq<(Seq<char>, Seq<char>)>, s: Seq<char>, r: Seq<Seq<char>>, w: Seq<Seq<char>>)
    requires
        closed_from(edges, s, r),
        is_walk(edges, w),
        w[0] == s,
    ensures
        r.contains(w.last()),
    decreases w.len(),
{
    let n = w.len() as int;
    assert(step_ok(edges, w, n - 2));
    let k = choose|k: int| 0 <= k < edges.len() && edges[k] == (w[n - 2], w[n - 1]);
    if n == 2 {
        assert(edges[k].0 == s);
    } else {
        let v = w.drop_last();
        assert forall|i: int| 0 <= i < v.len() - 1 implies #[trigger] step_ok(edges, v, i) by {
            assert(step_ok(edges, w, i));
        }
        lemma_closed_walk(edges, s, r, v);
    }
    assert(r.contains(edges[k].1));
}

proof fn lemma_distinct_len(r: Seq<Seq<char>>, t: Seq<Seq<char>>)
    requires
        r.no_duplicates(),
        forall|x: Seq<char>| r.contains(x) ==> t.contains(x),
    ensures
        r.len() <= t.len(),
{
    broadcast use vstd::seq_lib::seq_to_set_is_finite;
    r.unique_seq_to_set();
    t.lemma_cardinality_of_set();
    assert(r.to_set().subset_of(t.to_set())) by {
        assert forall|x: Seq<char>| r.to_set().contains(x) implies t.to_set().contains(x) by {
            assert(r.contains(x));
        }
    }
    vstd::set_lib::lemma_len_subset(r.to_set(), t.to_set());
}

pub open spec fn targets(edges: Seq<(Seq<char>, Seq<char>)>) -> Seq<Seq<char>> {
    edges.map_values(|e: (Seq<char>, Seq<char>)| e.1)
}

/// The modules reachable from `start` by following one or more edges.
pub fn compute_reachable(edges: &Vec<(String, String)>, start: &str) -> (r: Vec<String>)
    ensures
        forall|x: Seq<char>| #[trigger] string_views(r@).contains(x) <==> reaches(pair_views(edges@), start@, x),
{
    let ghost es = pair_views(edges@);
    let mut reach: Vec<String> = Vec::new();
    let mut changed = true;
    while changed
        invariant
            es == pair_views(edges@),
            forall|x: Seq<char>| #[trigger] string_views(reach@).contains(x) ==> reaches(es, start@, x),
            forall|x: Seq<char>| #[trigger] string_views(reach@).contains(x) ==> targets(es).contains(x),
            string_views(reach@).no_duplicates(),
            reach@.len() <= es.len(),
            !changed ==> closed_from(es, start@, string_views(reach@)),
        decreases es.len() - reach@.len() + (if changed { 1int } else { 0int }),
    {
        changed = false;
        let ghost len0 = reach@.len();
        let mut k: usize = 0;
        while k < edges.len()
            invariant
                es == pair_views(edges@),
                k <= edges@.len(),
                forall|x: Seq<char>| #[trigger] string_views(reach@).contains(x) ==> reaches(es, start@, x),
                forall|x: Seq<char>| #[trigger] string_views(reach@).contains(x) ==> targets(es).contains(x),
                string_views(reach@).no_duplicates(),
                reach@.len() >= len0,
                changed ==> reach@.len() > len0,
                !changed ==> reach@.len() == len0,
                !changed ==> forall|j: int| 0 <= j < k && (es[j].0 == start@ || string_views(reach@).contains(es[j].0))
                    ==> string_views(reach@).contains(#[trigger] es[j].1),
            decreases edges@.len() - k,
        {
            let ghost rv = string_views(reach@);
            assert(es[k as int] == (edges@[k as int].0@, edges@[k as int].1@));
            let from_ok = str_equal(edges[k].0.as_str(), start) || contains_text(&reach, edges[k].0.as_str());
            if from_ok && !contains_text(&reach, edges[k].1.as_str()) {
                let target = edges[k].1.as_str();
                proof {
                    assert(es.contains(es[k as int]));
                    if es[k as int].0 == start@ {
                        lemma_edge_reaches(es, start@, es[k as int].1);
                    } else {
                        lemma_reaches_extend(es, start@, es[k as int].0, es[k as int].1);
                    }
                    assert(targets(es)[k as int] == es[k as int].1);
                }
                reach.push(target.to_owned());
                proof {
                    assert(string_views(reach@) =~= rv.push(target@));
                    assert forall|x: Seq<char>| #[trigger] string_views(reach@).contains(x) implies reaches(es, start@, x) && targets(es).contains(x) by {
                        if x != target@ {
                            assert(rv.contains(x));
                        }
                    }
                    assert(string_views(reach@).no_duplicates()) by {
                        assert forall|i: int, j: int| 0 <= i < j < string_views(reach@).len() implies string_views(reach@)[i] != string_views(reach@)[j] by {
                            if j == rv.len() {
                                assert(rv.contains(rv[i]));
                            }
                        }
                    }
                }
                changed = true;
            }
            k = k + 1;
        }
        proof {
            assert forall|x: Seq<char>| string_views(reach@).contains(x) implies targets(es).contains(x) by {}
            lemma_distinct_len(string_views(reach@), targets(es));
        }
    }
    proof {
        assert forall|x: Seq<char>| reaches(es, start@, x) implies #[trigger] string_views(reach@).contains(x) by {
            let w = choose|w: Seq<Seq<char>>| #[trigger] is_walk(es, w) && w[0] == start@ && w.last() == x;
            lemma_closed_walk(es, start@, string_views(reach@), w);
        }
    }
    reach
}

fn dependencies_of(rows: &Vec<Row>) -> (r: Vec<(String, String)>)
    ensures
        pair_views(r@) == dependencies_of_rows(rows@),
{
    let mut out: Vec<(String, String)> = Vec::new();
    let mut i: usize = 0;
    while i < rows.len()
        invariant
            i <= rows@.len(),
            pair_views(out@) == dependencies_of_rows(rows@.take(i as int)),
        decreases rows@.len() - i,
    {
        let ghost before = out@;
        let ghost t = rows@.take(i + 1);
        assert(t.drop_last() =~= rows@.take(i as int));
        assert(t.last() == rows@[i as int]);
        let row = &rows[i];
        if row.len() >= 2 {
            match (get_string(row, 0), get_string(row, 1)) {
                (Some(a), Some(b)) => {
                    out.push((a, b));
                    assert(pair_views(out@) =~= pair_views(before) + seq![(a@, b@)]);
                },
                _ => {},
            }
        }
        i = i + 1;
    }
    assert(rows@.take(rows@.len() as int) =~= rows@);
    out
}

proof fn lemma_key_injective(a: CycleEdgeView, b: CycleEdgeView)
    requires
        key_order(CycleEdge::view_key(a), CycleEdge::view_key(b)) == 0,
    ensures
        a == b,
{
    lemma_key_order(CycleEdge::view_key(a), CycleEdge::view_key(b));
    assert(CycleEdge::view_key(a)[0] == CycleEdge::view_key(b)[0]);
    assert(CycleEdge::view_key(a)[1] == CycleEdge::view_key(b)[1]);
}

/// Adds an edge to a strictly ordered list unless it is there already.
fn insert_edge(out: &mut Vec<CycleEdge>, e: CycleEdge)
    requires
        strictly_ordered(views(old(out)@)),
    ensures
        strictly_ordered(views(final(out)@)),
        forall|x: CycleEdgeView| #[trigger] views(final(out)@).contains(x) <==> (views(old(out)@).contains(x) || x == e@),
{
    let ghost s = views(out@);
    let k = e.key();
    let mut p: usize = 0;
    while p < out.len() && compare_keys(&out[p].key(), &k) < 0
        invariant
            p <= out@.len(),
            s == views(out@),
            key_view(k@) == CycleEdge::view_key(e@),
            forall|j: int| 0 <= j < p ==> key_order(CycleEdge::view_key(#[trigger] s[j]), CycleEdge::view_key(e@)) < 0,
        decreases out@.len() - p,
    {
        assert(s[p as int] == out@[p as int]@);
        p = p + 1;
    }
    if p < out.len() {
        assert(s[p as int] == out@[p as int]@);
        if compare_keys(&out[p].key(), &k) == 0 {
            proof {
                lemma_key_injective(s[p as int], e@);
                assert(s.contains(s[p as int]));
            }
            return;
        }
        proof {
            lemma_key_order(CycleEdge::view_key(s[p as int]), CycleEdge::view_key(e@));
        }
    }
    let ghost ev = e@;
    out.insert(p, e);
    proof {
        let t = views(out@);
        assert(t =~= s.insert(p as int, ev));
        assert forall|i: int, j: int| 0 <= i < j < t.len() implies key_order(CycleEdge::view_key(#[trigger] t[i]), CycleEdge::view_key(#[trigger] t[j])) < 0 by {
            if j < p {
                assert(t[i] == s[i] && t[j] == s[j]);
            } else if j == p {
                assert(t[i] == s[i]);
            } else if i < p {
                assert(t[i] == s[i] && t[j] == s[j - 1]);
                if j - 1 > p {
                    assert(key_order(CycleEdge::view_key(s[p as int]), CycleEdge::view_key(s[j - 1])) < 0);
                    lemma_key_order_trans_strict(CycleEdge::view_key(ev), CycleEdge::view_key(s[p as int]), CycleEdge::view_key(s[j - 1]));
                }
                lemma_key_order_trans_strict(CycleEdge::view_key(s[i]), CycleEdge::view_key(ev), CycleEdge::view_key(s[j - 1]));
            } else if i == p {
                assert(t[j] == s[j - 1]);
                if j - 1 > p {
                    assert(key_order(CycleEdge::view_key(s[p as int]), CycleEdge::view_key(s[j - 1])) < 0);
                    lemma_key_order_trans_strict(CycleEdge::view_key(ev), CycleEdge::view_key(s[p as int]), CycleEdge::view_key(s[j - 1]));
                }
            } else {
                assert(t[i] == s[i - 1] && t[j] == s[j - 1]);
            }
        }
        assert forall|x: CycleEdgeView| #[trigger] t.contains(x) <==> (s.contains(x) || x == ev) by {
            if t.contains(x) {
                let i = choose|i: int| 0 <= i < t.len() && t[i] == x;
                if i < p {
                    assert(s[i] == x);
                } else if i > p {
                    assert(s[i - 1] == x);
                }
            }
            if s.contains(x) {
                let i = choose|i: int| 0 <= i < s.len() && s[i] == x;
                if i < p {
                    assert(t[i] == x);
                } else {
                    assert(t[i + 1] == x);
                }
            }
            if x == ev {
                assert(t[p as int] == x);
            }
        }
    }
}

/// Find all module pairs that form cycles: the dependencies A -> B (from
/// calls between different modules) where A and B are each on a cycle, each once,
/// ordered by source then target; with a module pattern, only the edges with
/// an end whose name contains it.
pub fn find_cycle_edges<D: Database + ?Sized>(db: &D, _project: &str, module_pattern: Option<&str>) -> (r: Result<Vec<CycleEdge>, DbError>)
    ensures
        match r {
            Err(e) => exists|p: QueryParams| p.binds_exactly(Map::empty()) && #[trigger] db.answers(DEPENDENCIES_QUERY@, p, Err(e)),
            Ok(v) => exists|p: QueryParams, res: QueryResult| p.binds_exactly(Map::empty())
                && #[trigger] db.answers(DEPENDENCIES_QUERY@, p, Ok(res))
                && reports_cycle_edges(dependencies_of_rows(res.rows@), crate::query_builders::opt_str_view(module_pattern), views(v@)),
        },
{
    let params = QueryParams::new();
    let ghost gp = params;
    let result = match db.execute_query(DEPENDENCIES_QUERY, params) {
        Ok(res) => res,
        Err(e) => {
            assert(db.answers(DEPENDENCIES_QUERY@, gp, Err(e)));
            return Err(e);
        },
    };
    let deps = dependencies_of(&result.rows);
    let ghost es = pair_views(deps@);
    let ghost mp = crate::query_builders::opt_str_view(module_pattern);
    let mut edges: Vec<CycleEdge> = Vec::new();
    let mut k: usize = 0;
    while k < deps.len()
        invariant
            k <= deps@.len(),
            es == pair_views(deps@),
            mp == crate::query_builders::opt_str_view(module_pattern),
            strictly_ordered(views(edges@)),
            forall|from: Seq<char>, to: Seq<char>| #[trigger] views(edges@).contains(CycleEdgeView { from, to })
                <==> (is_cycle_edge(es, mp, from, to) && exists|j: int| 0 <= j < k && es[j] == (from, to)),
        decreases deps@.len() - k,
    {
        let from = deps[k].0.as_str();
        let to = deps[k].1.as_str();
        assert(es[k as int] == (from@, to@));
        let from_reach = compute_reachable(&deps, from);
        let to_reach = compute_reachable(&deps, to);
        let selected = match module_pattern {
            Some(p) => str_contains(from, p) || str_contains(to, p),
            None => true,
        };
        let ghost before = views(edges@);
        if contains_text(&from_reach, from) && contains_text(&to_reach, to) && selected {
            proof {
                assert(es.contains(es[k as int]));
            }
            insert_edge(&mut edges, CycleEdge { from: from.to_owned(), to: to.to_owned() });
        }
        proof {
            assert forall|f: Seq<char>, t: Seq<char>| #[trigger] views(edges@).contains(CycleEdgeView { from: f, to: t })
                <==> (is_cycle_edge(es, mp, f, t) && exists|j: int| 0 <= j < k + 1 && es[j] == (f, t)) by {
                if exists|j: int| 0 <= j < k + 1 && es[j] == (f, t) {
                    let j = choose|j: int| 0 <= j < k + 1 && es[j] == (f, t);
                    if j < k {
                        assert(exists|j: int| 0 <= j < k && es[j] == (f, t));
                    }
                }
                if exists|j: int| 0 <= j < k && es[j] == (f, t) {
                    let j = choose|j: int| 0 <= j < k && es[j] == (f, t);
                    assert(0 <= j < k + 1 && es[j] == (f, t));
                }
                if (f, t) == (from@, to@) {
                    assert(0 <= k < k + 1 && es[k as int] == (f, t));
                }
            }
        }
        k = k + 1;
    }
    proof {
        assert forall|f: Seq<char>, t: Seq<char>| #[trigger] views(edges@).contains(CycleEdgeView { from: f, to: t })
            <==> is_cycle_edge(es, mp, f, t) by {
            if is_cycle_edge(es, mp, f, t) {
                let j = choose|j: int| 0 <= j < es.len() && es[j] == (f, t);
                assert(0 <= j < k && es[j] == (f, t));
            }
        }
        assert(es == dependencies_of_rows(result.rows@));
    }
    assert(db.answers(DEPENDENCIES_QUERY@, gp, Ok(result)));
    Ok(edges)
}


/// The CozoDB script finding the cycle edges: the module dependency graph
/// from the calls between different modules of the project, its transitive
/// closure, the modules that reach themselves, and the edges between two
/// such modules, ordered by source then target.
pub const COZO_CYCLES_SCRIPT: &'static str = r#"
        # Build module dependency graph (deduplicated at module level)
        module_deps[from, to] :=
            *calls{project, caller_module: from, callee_module: to},
            project == $project,
            from != to

        # Find reachability (transitive closure) - what modules can be reached from each module
        reaches[from, to] := module_deps[from, to]
        reaches[from, to] := module_deps[from, mid], reaches[mid, to]

        # Find modules in cycles - modules that can reach themselves
        in_cycle[module] := reaches[module, module]

        # Find cycle edges - direct edges between modules that are both in cycles
        cycle_edge[from, to] :=
            module_deps[from, to],
            in_cycle[from],
            in_cycle[to]

        ?[from, to] := cycle_edge[from, to]
        :order from, to
    "#;

/// The parameters of the CozoDB script: the project.
pub open spec fn cozo_cycles_params(project: Seq<char>) -> Map<Seq<char>, ParamView> {
    Map::empty().insert("project"@, ParamView::Str(project))
}

/// The edge a CozoDB row gives: its `from` and `to` cells (at the given
/// columns) when both are strings and an end contains the pattern.
pub open spec fn cozo_edge_of_row(row: Seq<Value>, fi: int, ti: int, module_pattern: Option<Seq<char>>) -> Option<CycleEdgeView> {
    match (cell_text(row, fi), cell_text(row, ti)) {
        (Some(f), Some(t)) => if edge_selected(module_pattern, f, t) { Some(CycleEdgeView { from: f, to: t }) } else { None },
        _ => None,
    }
}

/// The edges of CozoDB's answer, in row order: each row whose `from` and
/// `to` cells are strings with an end containing the pattern.
pub open spec fn cozo_cycle_edges_of(rows: Seq<Row>, fi: int, ti: int, module_pattern: Option<Seq<char>>) -> Seq<CycleEdgeView> {
    rows.filter_map(|r: Row| cozo_edge_of_row(r.values@, fi, ti, module_pattern))
}

/// Find all module pairs that form cycles, on CozoDB: the edges whose two
/// modules are each on a cycle, as the script gives them, with a module
/// pattern only those with an end that contains it; the `from` and `to`
/// columns are found by name.
pub fn find_cycle_edges_cozo<D: Database + ?Sized>(db: &D, project: &str, module_pattern: Option<&str>) -> (r: Result<Vec<CycleEdge>, DbError>)
    ensures
        match r {
            Err(e) => (exists|p: QueryParams| p.binds_exactly(cozo_cycles_params(project@))
                && #[trigger] db.answers(COZO_CYCLES_SCRIPT@, p, Err(e)))
                || (e matches DbError::MissingColumn { name } && exists|p: QueryParams, res: QueryResult|
                p.binds_exactly(cozo_cycles_params(project@)) && #[trigger] db.answers(COZO_CYCLES_SCRIPT@, p, Ok(res))
                && (if first_position(string_views(res.headers@), "from"@) is None { name@ == "from"@ } else {
                    first_position(string_views(res.headers@), "to"@) is None && name@ == "to"@ })),
            Ok(v) => exists|p: QueryParams, res: QueryResult|
                p.binds_exactly(cozo_cycles_params(project@)) && #[trigger] db.answers(COZO_CYCLES_SCRIPT@, p, Ok(res))
                && first_position(string_views(res.headers@), "from"@) is Some
                && first_position(string_views(res.headers@), "to"@) is Some
                && views(v@) == cozo_cycle_edges_of(res.rows@,
                    first_position(string_views(res.headers@), "from"@).unwrap(),
                    first_position(string_views(res.headers@), "to"@).unwrap(),
                    crate::query_builders::opt_str_view(module_pattern)),
        },
{
    let params = QueryParams::new().with_str("project", project);
    let ghost gp = params;
    proof {
        assert(gp.binds_exactly(cozo_cycles_params(project@)));
    }
    let result = match db.execute_query(COZO_CYCLES_SCRIPT, params) {
        Ok(res) => res,
        Err(e) => {
            assert(db.answers(COZO_CYCLES_SCRIPT@, gp, Err(e)));
            return Err(e);
        },
    };
    assert(db.answers(COZO_CYCLES_SCRIPT@, gp, Ok(result)));
    let ghost hs = string_views(result.headers@);
    let from_idx = match find_col(&result.headers, "from") {
        Some(i) => i,
        None => {
            return Err(DbError::MissingColumn { name: "from".to_owned() });
        },
    };
    let to_idx = match find_col(&result.headers, "to") {
        Some(i) => i,
        None => {
            return Err(DbError::MissingColumn { name: "to".to_owned() });
        },
    };
    let ghost mp = crate::query_builders::opt_str_view(module_pattern);
    let rows = &result.rows;
    let mut edges: Vec<CycleEdge> = Vec::new();
    let mut i: usize = 0;
    while i < rows.len()
        invariant
            i <= rows@.len(),
            rows@ == result.rows@,
            mp == crate::query_builders::opt_str_view(module_pattern),
            views(edges@) == cozo_cycle_edges_of(rows@.take(i as int), from_idx as int, to_idx as int, mp),
        decreases rows@.len() - i,
    {
        let ghost before = views(edges@);
        let ghost t = rows@.take(i + 1);
        assert(t.drop_last() =~= rows@.take(i as int));
        assert(t.last() == rows@[i as int]);
        let row = &rows[i];
        match (get_string(row, from_idx), get_string(row, to_idx)) {
            (Some(from), Some(to)) => {
                let selected = match module_pattern {
                    Some(p) => str_contains(from.as_str(), p) || str_contains(to.as_str(), p),
                    None => true,
                };
                if selected {
                    let e = CycleEdge { from, to };
                    edges.push(e);
                    assert(views(edges@) =~= before + seq![e@]);
                }
            },
            _ => {},
        }
        i = i + 1;
    }
    assert(rows@.take(rows@.len() as int) =~= rows@);
    Ok(edges)
}

/// The columns of the query's answer, as SurrealDB gives them: the names
/// the query selects, in alphabetical order.
pub open spec fn dependencies_columns() -> Seq<Seq<char>> {
    seq!["from_module"@, "to_module"@]
}

proof fn lemma_dependencies_columns_distinct()
    ensures
        distinct_names(dependencies_columns()),
{
    let c = dependencies_columns();
    reveal_strlit("from_module");
    reveal_strlit("to_module");
    assert(c[0] == "from_module"@);
    assert(c[1] == "to_module"@);
    assert(c[0].len() != c[1].len());
    assert(c[0] != c[1]);
    assert forall|i: int, j: int| 0 <= i < c.len() && 0 <= j < c.len() && i != j implies #[trigger] c[i] != #[trigger] c[j] by {
        assert(i == 0 || i == 1);
        assert(j == 0 || j == 1);
    }
}

/// Each part of what a row of the answer gives is the value in the column
/// of its name; a row gives one exactly when it has every column and text
/// in the columns `from_module`, `to_module`.
pub proof fn lemma_dependency_of_row_named_columns(row: Seq<Value>)
    ensures
        dependency_of_row(row) is Some <==> (row.len() >= dependencies_columns().len() && text_at_column(dependencies_columns(), row, "from_module"@) && text_at_column(dependencies_columns(), row, "to_module"@)),
        dependency_of_row(row) matches Some(m) ==> {
            &&& text_in_column(dependencies_columns(), row, "from_module"@, m.0, ""@)
            &&& text_in_column(dependencies_columns(), row, "to_module"@, m.1, ""@)
        },
{
    lemma_dependencies_columns_distinct();
    let c = dependencies_columns();
    assert(c[0] == "from_module"@);
    lemma_named_cell(c, row, 0);
    assert(c[1] == "to_module"@);
    lemma_named_cell(c, row, 1);
}

/// The columns are in ascending order of their names, as SurrealDB gives them.
pub proof fn lemma_dependencies_columns_ascending()
    ensures
        names_ascending(dependencies_columns()),
{
    let c = dependencies_columns();
    reveal_strlit("from_module");
    reveal_strlit("to_module");
    assert(c[0] == "from_module"@ && c[1] == "to_module"@);
    assert((c[0][0] as int) < (c[1][0] as int));
    lemma_lex_less(c[0], c[1], 0);
    assert forall|k: int| 0 <= k < c.len() - 1 implies lex_order(#[trigger] c[k], c[k + 1]) < 0 by {
        assert(k == 0);
    }
    lemma_names_ascending_from_adjacent(c);
}

} // verus!
