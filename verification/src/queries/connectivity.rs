//! Module-level connectivity: for each module, how many distinct modules
//! call into it and how many it calls into.

use vstd::prelude::*;
use crate::backend::{Database, QueryParams, QueryResult, Row, Value};
use crate::db::{DbError, cell_text, get_string};
use crate::query_builders::{validate_regex_patterns, first_invalid_pattern, opt_str_view, pattern_views, regex_compiles};
use crate::queries::hotspots::{HotspotsError, module_selected, module_passes, module_params, module_params_of};
use crate::text::{copy_strings, str_equal, string_views};
use crate::queries::rows::{views, distinct_names, int_in_column, text_in_column, text_at_column, lemma_named_cell};

use crate::backend::surreal_rows::{names_ascending, lemma_names_ascending_from_adjacent};
use crate::text::{lex_order, lemma_lex_less};

verus! {

/// The query listing the caller and callee module of calls: of all calls, or
/// of those with an end in a module matching the pattern.
pub open spec fn connectivity_query_text(module_pattern: Option<Seq<char>>, use_regex: bool) -> Seq<char> {
    match module_pattern {
        Some(_) => if use_regex { "SELECT in.module_name as source, out.module_name as target FROM calls WHERE in.module_name = <regex>$module_pattern OR out.module_name = <regex>$module_pattern"@ } else { "SELECT in.module_name as source, out.module_name as target FROM calls WHERE in.module_name = $module_pattern OR out.module_name = $module_pattern"@ },
        None => "SELECT in.module_name as source, out.module_name as target FROM calls"@,
    }
}

/// The (source, target) modules a row gives.
pub open spec fn module_pair(row: Seq<Value>) -> Option<(Seq<char>, Seq<char>)> {
    if row.len() >= 2 {
        match (cell_text(row, 0), cell_text(row, 1)) {
            (Some(a), Some(b)) => Some((a, b)),
            _ => None,
        }
    } else {
        None
    }
}

pub open spec fn module_pairs(rows: Seq<Row>) -> Seq<(Seq<char>, Seq<char>)> {
    rows.filter_map(|r: Row| module_pair(r.values@))
}

/// The modules calling into `m`.
pub open spec fn sources_of(pairs: Seq<(Seq<char>, Seq<char>)>, m: Seq<char>) -> Set<Seq<char>> {
    Set::new(|s: Seq<char>| pairs.contains((s, m)))
}

/// The modules `m` calls into.
pub open spec fn targets_of(pairs: Seq<(Seq<char>, Seq<char>)>, m: Seq<char>) -> Set<Seq<char>> {
    Set::new(|t: Seq<char>| pairs.contains((m, t)))
}

/// `m` is the source or the target of some pair.
pub open spec fn involved(pairs: Seq<(Seq<char>, Seq<char>)>, m: Seq<char>) -> bool {
    exists|x: Seq<char>| pairs.contains((m, x)) || pairs.contains((x, m))
}

pub open spec fn connectivity_views(v: Seq<(String, (i64, i64))>) -> Seq<(Seq<char>, (i64, i64))> {
    v.map_values(|e: (String, (i64, i64))| (e.0@, e.1))
}

/// `m` is the module of an entry.
pub open spec fn lists_module(out: Seq<(Seq<char>, (i64, i64))>, m: Seq<char>) -> bool {
    exists|a: int| 0 <= a < out.len() && out[a].0 == m
}

spec fn seen_module(mods: Seq<String>, k: int, m: Seq<char>, mp: Option<Seq<char>>, use_regex: bool) -> bool {
    exists|j: int| 0 <= j < k && mods[j]@ == m && module_selected(mp, use_regex, m)
}

/// The module connectivity the pairs give: each module that is a source or
/// a target of a pair and passes the module filter, once, with the number of
/// distinct modules calling into it and the number it calls into.
pub open spec fn reports_connectivity(
    pairs: Seq<(Seq<char>, Seq<char>)>,
    module_pattern: Option<Seq<char>>,
    use_regex: bool,
    out: Seq<(Seq<char>, (i64, i64))>,
) -> bool {
    &&& forall|i: int, j: int| 0 <= i < j < out.len() ==> out[i].0 != out[j].0
    &&& forall|m: Seq<char>| #[trigger] lists_module(out, m)
        <==> (involved(pairs, m) && module_selected(module_pattern, use_regex, m))
    &&& forall|i: int| 0 <= i < out.len() ==> (#[trigger] out[i]).1 == (
        sources_of(pairs, out[i].0).len() as i64,
        targets_of(pairs, out[i].0).len() as i64,
    )
}

fn find_text(v: &Vec<String>, s: &str) -> (r: Option<usize>)
    ensures
        match r {
            Some(j) => j < v@.len() && v@[j as int]@ == s@,
            None => forall|j: int| 0 <= j < v@.len() ==> v@[j]@ != s@,
        },
{
    let mut j: usize = 0;
    while j < v.len()
        invariant
            j <= v@.len(),
            forall|k: int| 0 <= k < j ==> v@[k]@ != s@,
        decreases v@.len() - j,
    {
        if str_equal(v[j].as_str(), s) {
            return Some(j);
        }
        j = j + 1;
    }
    None
}

/// `list` with `x` added unless it holds it already.
fn with_text(list: &Vec<String>, x: &str) -> (r: Vec<String>)
    requires
        string_views(list@).no_duplicates(),
    ensures
        string_views(r@).no_duplicates(),
        string_views(r@).to_set() == string_views(list@).to_set().insert(x@),
{
    let mut out = copy_strings(list);
    let ghost before = string_views(list@);
    match find_text(list, x) {
        Some(j) => {
            proof {
                assert(before[j as int] == x@);
                assert(before.to_set().insert(x@) =~= before.to_set());
            }
        },
        None => {
            out.push(x.to_owned());
            proof {
                assert(string_views(out@) =~= before.push(x@));
                assert forall|a: int, b: int| 0 <= a < b < string_views(out@).len() implies string_views(out@)[a] != string_views(out@)[b] by {
                    if b == before.len() {
                        assert(before[a] == list@[a]@);
                    }
                }
                before.lemma_push_to_set_commute(x@);
            }
        },
    }
    out
}

/// Per module: its name, the modules calling into it, the modules it calls into.
struct Connections {
    modules: Vec<String>,
    sources: Vec<Vec<String>>,
    targets: Vec<Vec<String>>,
}

spec fn connections_ok(c: Connections, pairs: Seq<(Seq<char>, Seq<char>)>) -> bool {
    &&& c.sources@.len() == c.modules@.len()
    &&& c.targets@.len() == c.modules@.len()
    &&& string_views(c.modules@).no_duplicates()
    &&& forall|m: Seq<char>| #[trigger] string_views(c.modules@).contains(m) <==> involved(pairs, m)
    &&& forall|k: int| 0 <= k < c.modules@.len() ==> string_views(#[trigger] c.sources@[k]@).no_duplicates()
        && string_views(c.sources@[k]@).to_set() == sources_of(pairs, c.modules@[k]@)
    &&& forall|k: int| 0 <= k < c.modules@.len() ==> string_views(#[trigger] c.targets@[k]@).no_duplicates()
        && string_views(c.targets@[k]@).to_set() == targets_of(pairs, c.modules@[k]@)
}

/// The entry of module `m`, added (with no connections yet) when missing.
fn entry_of(c: &mut Connections, m: &str) -> (j: usize)
    requires
        old(c).sources@.len() == old(c).modules@.len(),
        old(c).targets@.len() == old(c).modules@.len(),
        string_views(old(c).modules@).no_duplicates(),
        forall|k: int| 0 <= k < old(c).modules@.len() ==> string_views(#[trigger] old(c).sources@[k]@).no_duplicates(),
        forall|k: int| 0 <= k < old(c).modules@.len() ==> string_views(#[trigger] old(c).targets@[k]@).no_duplicates(),
    ensures
        j < final(c).modules@.len(),
        final(c).modules@[j as int]@ == m@,
        final(c).modules@.len() == old(c).modules@.len()
            || (final(c).modules@.len() == old(c).modules@.len() + 1 && j == old(c).modules@.len()),
        forall|k: int| 0 <= k < old(c).modules@.len() ==> final(c).modules@[k] == old(c).modules@[k]
            && final(c).sources@[k] == old(c).sources@[k] && final(c).targets@[k] == old(c).targets@[k],
        string_views(final(c).modules@).to_set() == string_views(old(c).modules@).to_set().insert(m@),
        final(c).sources@.len() == final(c).modules@.len(),
        final(c).targets@.len() == final(c).modules@.len(),
        string_views(final(c).modules@).no_duplicates(),
        string_views(final(c).sources@[j as int]@).no_duplicates(),
        string_views(final(c).targets@[j as int]@).no_duplicates(),
        j >= old(c).modules@.len() ==> string_views(final(c).sources@[j as int]@).to_set() == Set::<Seq<char>>::empty()
            && string_views(final(c).targets@[j as int]@).to_set() == Set::<Seq<char>>::empty()
            && !string_views(old(c).modules@).contains(m@),
{
    let ghost mv = string_views(c.modules@);
    match find_text(&c.modules, m) {
        Some(j) => {
            assert(mv.contains(m@)) by { assert(mv[j as int] == m@); }
            assert(mv.to_set().insert(m@) =~= mv.to_set());
            assert(string_views(old(c).sources@[j as int]@).no_duplicates());
            assert(string_views(old(c).targets@[j as int]@).no_duplicates());
            j
        },
        None => {
            let j = c.modules.len();
            c.modules.push(m.to_owned());
            c.sources.push(Vec::new());
            c.targets.push(Vec::new());
            proof {
                assert(string_views(c.modules@) =~= mv.push(m@));
                assert(!mv.contains(m@));
                mv.lemma_push_to_set_commute(m@);
                assert(string_views(c.sources@[j as int]@).to_set() =~= Set::<Seq<char>>::empty());
                assert(string_views(c.targets@[j as int]@).to_set() =~= Set::<Seq<char>>::empty());
                assert forall|a: int, b: int| 0 <= a < b < string_views(c.modules@).len() implies string_views(c.modules@)[a] != string_views(c.modules@)[b] by {
                    if b == mv.len() {
                        assert(mv[a] == c.modules@[a]@);
                    }
                }
            }
            j
        },
    }
}

proof fn lemma_pairs_push(pairs: Seq<(Seq<char>, Seq<char>)>, s: Seq<char>, t: Seq<char>, m: Seq<char>)
    ensures
        targets_of(pairs.push((s, t)), m) == (if m == s { targets_of(pairs, m).insert(t) } else { targets_of(pairs, m) }),
        sources_of(pairs.push((s, t)), m) == (if m == t { sources_of(pairs, m).insert(s) } else { sources_of(pairs, m) }),
        involved(pairs.push((s, t)), m) <==> (involved(pairs, m) || m == s || m == t),
{
    let p2 = pairs.push((s, t));
    assert forall|x: (Seq<char>, Seq<char>)| p2.contains(x) <==> (pairs.contains(x) || x == (s, t)) by {
        if p2.contains(x) {
            let i = choose|i: int| 0 <= i < p2.len() && p2[i] == x;
            if i < pairs.len() {
                assert(pairs[i] == x);
            }
        }
        if pairs.contains(x) {
            let i = choose|i: int| 0 <= i < pairs.len() && pairs[i] == x;
            assert(p2[i] == x);
        }
        if x == (s, t) {
            assert(p2[pairs.len() as int] == x);
        }
    }
    assert(targets_of(p2, m) =~= (if m == s { targets_of(pairs, m).insert(t) } else { targets_of(pairs, m) }));
    assert(sources_of(p2, m) =~= (if m == t { sources_of(pairs, m).insert(s) } else { sources_of(pairs, m) }));
    if involved(p2, m) {
        let x = choose|x: Seq<char>| p2.contains((m, x)) || p2.contains((x, m));
        if !(m == s || m == t) {
            assert(pairs.contains((m, x)) || pairs.contains((x, m)));
        }
    }
    if involved(pairs, m) {
        let x = choose|x: Seq<char>| pairs.contains((m, x)) || pairs.contains((x, m));
        assert(p2.contains((m, x)) || p2.contains((x, m)));
    }
    if m == s {
        assert(p2.contains((m, t)));
    }
    if m == t {
        assert(p2.contains((s, m)));
    }
}

proof fn lemma_uninvolved_empty(pairs: Seq<(Seq<char>, Seq<char>)>, m: Seq<char>)
    requires
        !involved(pairs, m),
    ensures
        sources_of(pairs, m) == Set::<Seq<char>>::empty(),
        targets_of(pairs, m) == Set::<Seq<char>>::empty(),
{
    assert(sources_of(pairs, m) =~= Set::<Seq<char>>::empty());
    assert(targets_of(pairs, m) =~= Set::<Seq<char>>::empty());
}

/// Records the pair (s, t): `t` among the modules `s` calls into, `s` among
/// those calling into `t`.
fn add_pair(c: &mut Connections, s: &str, t: &str, Ghost(pairs): Ghost<Seq<(Seq<char>, Seq<char>)>>)
    requires
        connections_ok(*old(c), pairs),
    ensures
        connections_ok(*final(c), pairs.push((s@, t@))),
{
    let ghost c0 = *c;
    let js = entry_of(c, s);
    let ghost c1 = *c;
    let new_targets = with_text(&c.targets[js], t);
    c.targets.set(js, new_targets);
    let ghost c2 = *c;
    proof {
        assert(string_views(c2.modules@).no_duplicates());
        assert(c2.targets@ == c1.targets@.update(js as int, new_targets));
        assert forall|k: int| 0 <= k < c2.modules@.len() implies string_views(#[trigger] c2.sources@[k]@).no_duplicates() && string_views(c2.sources@[k]@).to_set() == sources_of(pairs, c2.modules@[k]@) by {
            if k < c0.modules@.len() {
                assert(c1.modules@[k] == c0.modules@[k]);
                assert(c1.sources@[k] == c0.sources@[k]);
                assert(c1.targets@[k] == c0.targets@[k]);
                assert(c2.sources@[k] == c1.sources@[k]);
                if k != js {
                    assert(c2.targets@[k] == c1.targets@[k]);
                } else {
                    assert(c2.targets@[k] == new_targets);
                }
            } else {
                assert(k == js);
                assert(c2.targets@[k] == new_targets);
                assert(c2.sources@[k] == c1.sources@[k]);
                assert(!involved(pairs, s@)) by {
                    assert(!string_views(c0.modules@).contains(s@));
                }
                lemma_uninvolved_empty(pairs, s@);
            }
        }
        assert forall|k: int| 0 <= k < c2.modules@.len() implies string_views(#[trigger] c2.targets@[k]@).no_duplicates() && string_views(c2.targets@[k]@).to_set() == (if k == js { targets_of(pairs, c2.modules@[k]@).insert(t@) } else { targets_of(pairs, c2.modules@[k]@) }) by {
            if k < c0.modules@.len() {
                assert(c1.modules@[k] == c0.modules@[k]);
                assert(c1.sources@[k] == c0.sources@[k]);
                assert(c1.targets@[k] == c0.targets@[k]);
                assert(c2.sources@[k] == c1.sources@[k]);
                if k != js {
                    assert(c2.targets@[k] == c1.targets@[k]);
                } else {
                    assert(c2.targets@[k] == new_targets);
                }
            } else {
                assert(k == js);
                assert(c2.targets@[k] == new_targets);
                assert(c2.sources@[k] == c1.sources@[k]);
                assert(!involved(pairs, s@)) by {
                    assert(!string_views(c0.modules@).contains(s@));
                }
                lemma_uninvolved_empty(pairs, s@);
            }
        }
    }
    let jt = entry_of(c, t);
    let ghost c3 = *c;
    let new_sources = with_text(&c.sources[jt], s);
    c.sources.set(jt, new_sources);
    proof {
        let p2 = pairs.push((s@, t@));
        assert forall|m: Seq<char>| #[trigger] string_views(c.modules@).contains(m) <==> involved(p2, m) by {
            lemma_pairs_push(pairs, s@, t@, m);
            assert(string_views(c.modules@).to_set() == string_views(c0.modules@).to_set().insert(s@).insert(t@));
            assert(string_views(c.modules@).contains(m) <==> string_views(c.modules@).to_set().contains(m));
            assert(string_views(c0.modules@).contains(m) <==> string_views(c0.modules@).to_set().contains(m));
        }
        assert forall|k: int| 0 <= k < c.modules@.len() implies string_views(#[trigger] c.sources@[k]@).no_duplicates() && string_views(c.sources@[k]@).to_set() == sources_of(p2, c.modules@[k]@) by {
            let m = c.modules@[k]@;
            lemma_pairs_push(pairs, s@, t@, m);
            assert(string_views(c.modules@)[k] == m);
            if k < c2.modules@.len() {
                assert(c3.modules@[k] == c2.modules@[k]);
                assert(c2.modules@[js as int]@ == s@);
                if k != js {
                    assert(string_views(c2.modules@)[k] != string_views(c2.modules@)[js as int]);
                }
                if k != jt {
                    assert(c3.sources@[k] == c2.sources@[k]);
                    assert(c.modules@[jt as int]@ == t@);
                    assert(string_views(c.modules@)[k] != string_views(c.modules@)[jt as int]);
                } else {
                    assert(c.modules@[jt as int]@ == t@);
                }
            } else {
                assert(k == jt);
                assert(!string_views(c2.modules@).contains(t@));
                assert(c2.modules@ == c1.modules@);
                assert(string_views(c1.modules@).to_set() == string_views(c0.modules@).to_set().insert(s@));
                assert(!string_views(c2.modules@).to_set().contains(t@));
                assert(!string_views(c0.modules@).to_set().contains(t@));
                assert(!string_views(c0.modules@).contains(t@));
                assert(!involved(pairs, t@));
                lemma_uninvolved_empty(pairs, t@);
                assert(t@ != s@) by {
                    assert(string_views(c2.modules@)[js as int] == s@);
                    assert(string_views(c2.modules@).contains(s@));
                }
            }
        }
        assert forall|k: int| 0 <= k < c.modules@.len() implies string_views(#[trigger] c.targets@[k]@).no_duplicates() && string_views(c.targets@[k]@).to_set() == targets_of(p2, c.modules@[k]@) by {
            let m = c.modules@[k]@;
            lemma_pairs_push(pairs, s@, t@, m);
            assert(string_views(c.modules@)[k] == m);
            if k < c2.modules@.len() {
                assert(c3.modules@[k] == c2.modules@[k]);
                assert(c2.modules@[js as int]@ == s@);
                if k != js {
                    assert(string_views(c2.modules@)[k] != string_views(c2.modules@)[js as int]);
                }
                if k != jt {
                    assert(c3.sources@[k] == c2.sources@[k]);
                    assert(c.modules@[jt as int]@ == t@);
                    assert(string_views(c.modules@)[k] != string_views(c.modules@)[jt as int]);
                } else {
                    assert(c.modules@[jt as int]@ == t@);
                }
            } else {
                assert(k == jt);
                assert(!string_views(c2.modules@).contains(t@));
                assert(c2.modules@ == c1.modules@);
                assert(string_views(c1.modules@).to_set() == string_views(c0.modules@).to_set().insert(s@));
                assert(!string_views(c2.modules@).to_set().contains(t@));
                assert(!string_views(c0.modules@).to_set().contains(t@));
                assert(!string_views(c0.modules@).contains(t@));
                assert(!involved(pairs, t@));
                lemma_uninvolved_empty(pairs, t@);
                assert(t@ != s@) by {
                    assert(string_views(c2.modules@)[js as int] == s@);
                    assert(string_views(c2.modules@).contains(s@));
                }
            }
        }
        assert(connections_ok(*c, p2));
    }
}

/// Get module-level connectivity: for each module that is the source or the
/// target of a call between modules (and passes the module filter), the
/// number of distinct modules calling into it and of those it calls into.
pub fn get_module_connectivity<D: Database + ?Sized>(
    db: &D,
    _project: &str,
    module_pattern: Option<&str>,
    use_regex: bool,
) -> (r: Result<Vec<(String, (i64, i64))>, HotspotsError>)
    ensures
        match r {
            Err(HotspotsError::InvalidRegex { pattern: bad }) => first_invalid_pattern(use_regex, seq![opt_str_view(module_pattern)]) == Some(bad@),
            Err(HotspotsError::QueryFailed { message }) => first_invalid_pattern(use_regex, seq![opt_str_view(module_pattern)]) is None
                && exists|p: QueryParams, e: DbError| p.binds_exactly(module_params(opt_str_view(module_pattern)))
                    && #[trigger] db.answers(connectivity_query_text(opt_str_view(module_pattern), use_regex), p, Err(e)) && message@ == e.message(),
            Ok(v) => first_invalid_pattern(use_regex, seq![opt_str_view(module_pattern)]) is None
                && exists|p: QueryParams, res: QueryResult| p.binds_exactly(module_params(opt_str_view(module_pattern)))
                    && #[trigger] db.answers(connectivity_query_text(opt_str_view(module_pattern), use_regex), p, Ok(res))
                    && reports_connectivity(module_pairs(res.rows@), opt_str_view(module_pattern), use_regex, connectivity_views(v@)),
        },
{
    let pats: [Option<&str>; 1] = [module_pattern];
    assert(pattern_views(pats@) =~= seq![opt_str_view(module_pattern)]);
    match validate_regex_patterns(use_regex, &pats) {
        Err(p) => {
            return Err(HotspotsError::InvalidRegex { pattern: p });
        },
        Ok(()) => {},
    }
    proof {
        if use_regex && module_pattern is Some {
            reveal_with_fuel(first_invalid_pattern, 2);
            assert(seq![opt_str_view(module_pattern)].drop_first() =~= Seq::<Option<Seq<char>>>::empty());
        }
    }
    let query: &str = if module_pattern.is_some() {
        if use_regex { "SELECT in.module_name as source, out.module_name as target FROM calls WHERE in.module_name = <regex>$module_pattern OR out.module_name = <regex>$module_pattern" } else { "SELECT in.module_name as source, out.module_name as target FROM calls WHERE in.module_name = $module_pattern OR out.module_name = $module_pattern" }
    } else {
        "SELECT in.module_name as source, out.module_name as target FROM calls"
    };
    assert(query@ == connectivity_query_text(opt_str_view(module_pattern), use_regex));
    let params = module_params_of(module_pattern);
    let ghost gp = params;
    let result = match db.execute_query(query, params) {
        Ok(res) => res,
        Err(e) => {
            let ghost ge = e;
            let message = e.to_string();
            assert(db.answers(query@, gp, Err(ge)));
            return Err(HotspotsError::QueryFailed { message });
        },
    };
    let rows = &result.rows;
    let ghost all = module_pairs(rows@);
    let mut c = Connections { modules: Vec::new(), sources: Vec::new(), targets: Vec::new() };
    proof {
        assert forall|m: Seq<char>| #[trigger] string_views(c.modules@).contains(m) <==> involved(Seq::<(Seq<char>, Seq<char>)>::empty(), m) by {
            assert(string_views(c.modules@) =~= Seq::<Seq<char>>::empty());
        }
        assert(module_pairs(rows@.take(0)) =~= Seq::<(Seq<char>, Seq<char>)>::empty());
    }
    let mut i: usize = 0;
    while i < rows.len()
        invariant
            i <= rows@.len(),
            connections_ok(c, module_pairs(rows@.take(i as int))),
        decreases rows@.len() - i,
    {
        let ghost t = rows@.take(i + 1);
        assert(t.drop_last() =~= rows@.take(i as int));
        assert(t.last() == rows@[i as int]);
        let row = &rows[i];
        if row.len() >= 2 {
            match (get_string(row, 0), get_string(row, 1)) {
                (Some(source), Some(target)) => {
                    add_pair(&mut c, source.as_str(), target.as_str(), Ghost(module_pairs(rows@.take(i as int))));
                    assert(module_pairs(t) =~= module_pairs(rows@.take(i as int)).push((source@, target@)));
                },
                _ => {
                    assert(module_pairs(t) =~= module_pairs(rows@.take(i as int)));
                },
            }
        } else {
            assert(module_pairs(t) =~= module_pairs(rows@.take(i as int)));
        }
        i = i + 1;
    }
    assert(rows@.take(rows@.len() as int) =~= rows@);
    let ghost mp = opt_str_view(module_pattern);
    let mut out: Vec<(String, (i64, i64))> = Vec::new();
    let mut k: usize = 0;
    while k < c.modules.len()
        invariant
            k <= c.modules@.len(),
            connections_ok(c, all),
            mp == opt_str_view(module_pattern),
            use_regex && module_pattern is Some ==> regex_compiles(module_pattern.unwrap()@),
            forall|a: int, b: int| 0 <= a < b < connectivity_views(out@).len() ==> connectivity_views(out@)[a].0 != connectivity_views(out@)[b].0,
            forall|m: Seq<char>| #[trigger] lists_module(connectivity_views(out@), m) <==> seen_module(c.modules@, k as int, m, mp, use_regex),
            forall|a: int| 0 <= a < connectivity_views(out@).len() ==> (#[trigger] connectivity_views(out@)[a]).1 == (
                sources_of(all, connectivity_views(out@)[a].0).len() as i64,
                targets_of(all, connectivity_views(out@)[a].0).len() as i64,
            ),
        decreases c.modules@.len() - k,
    {
        let name = c.modules[k].as_str();
        let ghost before = connectivity_views(out@);
        if module_passes(module_pattern, use_regex, name) {
            proof {
                string_views(c.sources@[k as int]@).unique_seq_to_set();
                string_views(c.targets@[k as int]@).unique_seq_to_set();
            }
            let incoming = c.sources[k].len() as i64;
            let outgoing = c.targets[k].len() as i64;
            out.push((name.to_owned(), (incoming, outgoing)));
            proof {
                let ov = connectivity_views(out@);
                assert(ov =~= before.push((name@, (incoming, outgoing))));
                assert forall|a: int, b: int| 0 <= a < b < ov.len() implies ov[a].0 != ov[b].0 by {
                    if b == before.len() {
                        let m = before[a].0;
                        assert(lists_module(before, m));
                        assert(seen_module(c.modules@, k as int, m, mp, use_regex));
                        let j = choose|j: int| 0 <= j < k && c.modules@[j]@ == m && module_selected(mp, use_regex, m);
                        assert(string_views(c.modules@)[j] == c.modules@[j]@);
                        assert(string_views(c.modules@)[k as int] == c.modules@[k as int]@);
                        assert(string_views(c.modules@)[j] != string_views(c.modules@)[k as int]);
                    }
                }
                assert forall|m: Seq<char>| #[trigger] lists_module(ov, m) <==> seen_module(c.modules@, k + 1, m, mp, use_regex) by {
                    assert(lists_module(before, m) <==> seen_module(c.modules@, k as int, m, mp, use_regex));
                    if lists_module(ov, m) {
                        let a = choose|a: int| 0 <= a < ov.len() && ov[a].0 == m;
                        if a < before.len() {
                            assert(before[a].0 == m);
                            assert(lists_module(before, m));
                            let j = choose|j: int| 0 <= j < k && c.modules@[j]@ == m && module_selected(mp, use_regex, m);
                            assert(0 <= j < k + 1 && c.modules@[j]@ == m && module_selected(mp, use_regex, m));
                        } else {
                            assert(0 <= k < k + 1 && c.modules@[k as int]@ == m && module_selected(mp, use_regex, m));
                        }
                    }
                    if seen_module(c.modules@, k + 1, m, mp, use_regex) {
                        let j = choose|j: int| 0 <= j < k + 1 && c.modules@[j]@ == m && module_selected(mp, use_regex, m);
                        if j < k {
                            assert(seen_module(c.modules@, k as int, m, mp, use_regex));
                            assert(lists_module(before, m));
                            let a = choose|a: int| 0 <= a < before.len() && before[a].0 == m;
                            assert(ov[a].0 == m);
                        } else {
                            assert(ov[before.len() as int].0 == m);
                        }
                    }
                }
            }
        } else {
            proof {
                assert forall|m: Seq<char>| #[trigger] lists_module(connectivity_views(out@), m) <==> seen_module(c.modules@, k + 1, m, mp, use_regex) by {
                    assert(lists_module(before, m) <==> seen_module(c.modules@, k as int, m, mp, use_regex));
                    if seen_module(c.modules@, k + 1, m, mp, use_regex) {
                        let j = choose|j: int| 0 <= j < k + 1 && c.modules@[j]@ == m && module_selected(mp, use_regex, m);
                        if j < k {
                            assert(seen_module(c.modules@, k as int, m, mp, use_regex));
                        }
                    }
                    if seen_module(c.modules@, k as int, m, mp, use_regex) {
                        let j = choose|j: int| 0 <= j < k && c.modules@[j]@ == m && module_selected(mp, use_regex, m);
                        assert(0 <= j < k + 1 && c.modules@[j]@ == m && module_selected(mp, use_regex, m));
                    }
                }
            }
        }
        k = k + 1;
    }
    proof {
        let ov = connectivity_views(out@);
        assert forall|m: Seq<char>| #[trigger] lists_module(ov, m)
            <==> (involved(all, m) && module_selected(mp, use_regex, m)) by {
            if involved(all, m) && module_selected(mp, use_regex, m) {
                assert(string_views(c.modules@).contains(m));
                let j = choose|j: int| 0 <= j < string_views(c.modules@).len() && string_views(c.modules@)[j] == m;
                assert(c.modules@[j]@ == m);
            }
            if lists_module(ov, m) {
                assert(seen_module(c.modules@, k as int, m, mp, use_regex));
                let j = choose|j: int| 0 <= j < k && c.modules@[j]@ == m && module_selected(mp, use_regex, m);
                assert(string_views(c.modules@)[j] == m);
                assert(string_views(c.modules@).contains(m));
            }
        }
    }
    assert(db.answers(query@, gp, Ok(result)));
    Ok(out)
}

/// The columns of the query's answer, as SurrealDB gives them: the names
/// the query selects, in alphabetical order.
pub open spec fn connectivity_columns() -> Seq<Seq<char>> {
    seq!["source"@, "target"@]
}

proof fn lemma_connectivity_columns_distinct()
    ensures
        distinct_names(connectivity_columns()),
{
    let c = connectivity_columns();
    reveal_strlit("source");
    reveal_strlit("target");
    assert(c[0] == "source"@);
    assert(c[1] == "target"@);
    assert(c[0][0] != c[1][0]);
    assert(c[0] != c[1]);
    assert forall|i: int, j: int| 0 <= i < c.len() && 0 <= j < c.len() && i != j implies #[trigger] c[i] != #[trigger] c[j] by {
        assert(i == 0 || i == 1);
        assert(j == 0 || j == 1);
    }
}

/// Each part of what a row of the answer gives is the value in the column
/// of its name; a row gives one exactly when it has every column and text
/// in the columns `source`, `target`.
pub proof fn lemma_module_pair_named_columns(row: Seq<Value>)
    ensures
        module_pair(row) is Some <==> (row.len() >= connectivity_columns().len() && text_at_column(connectivity_columns(), row, "source"@) && text_at_column(connectivity_columns(), row, "target"@)),
        module_pair(row) matches Some(m) ==> {
            &&& text_in_column(connectivity_columns(), row, "source"@, m.0, ""@)
            &&& text_in_column(connectivity_columns(), row, "target"@, m.1, ""@)
        },
{
    lemma_connectivity_columns_distinct();
    let c = connectivity_columns();
    assert(c[0] == "source"@);
    lemma_named_cell(c, row, 0);
    assert(c[1] == "target"@);
    lemma_named_cell(c, row, 1);
}

/// The columns are in ascending order of their names, as SurrealDB gives them.
pub proof fn lemma_connectivity_columns_ascending()
    ensures
        names_ascending(connectivity_columns()),
{
    let c = connectivity_columns();
    reveal_strlit("source");
    reveal_strlit("target");
    assert(c[0] == "source"@ && c[1] == "target"@);
    assert((c[0][0] as int) < (c[1][0] as int));
    lemma_lex_less(c[0], c[1], 0);
    assert forall|k: int| 0 <= k < c.len() - 1 implies lex_order(#[trigger] c[k], c[k + 1]) < 0 by {
        assert(k == 0);
    }
    lemma_names_ascending_from_adjacent(c);
}

} // verus!
