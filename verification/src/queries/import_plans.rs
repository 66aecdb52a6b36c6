//! What an import runs for a call graph, phase by phase, and the building
//! of those statements from the graph.

use vstd::prelude::*;
use crate::queries::import_models::{
    CallGraph, CallRecord, FunctionLocationDef, SpecClause, SpecDef, StructDef, StructField, TypeDef,
    first_functions, first_occurrences, function_key, module_mentions, per_module, spec_clauses,
    struct_fields,
};
use crate::queries::import_statements::{
    FUNCTION_STATEMENT, CALL_STATEMENT, INCOMING_COUNT_STATEMENT, OUTGOING_COUNT_STATEMENT, FIELD_STATEMENT, CLAUSE_STATEMENT, SPEC_STATEMENT, TYPE_STATEMENT, DEFINES_FUNCTION_STATEMENT, DEFINES_TYPE_STATEMENT, DEFINES_SPEC_STATEMENT, HAS_CLAUSE_STATEMENT, HAS_FIELD_STATEMENT, MODULE_STATEMENT, module_map, function_map, clause_map, field_map, spec_map, type_map, defines_function_map, defines_type_map, defines_spec_map, has_clause_map, has_field_map, call_map, Statement, PlannedStatement, statements_fit, lemma_per_module_take,
    module_params, function_params, clause_params, field_params, spec_params, type_params, defines_function_params, defines_type_params, defines_spec_params, has_clause_params, has_field_params, call_params,
};
use crate::text::{contains_text, push_text, str_equal, string_views};

verus! {

/// The module records: each mentioned module once, where first mentioned.
pub open spec fn modules_plan(g: CallGraph) -> Seq<PlannedStatement> {
    first_occurrences(module_mentions(g)).map_values(|m: Seq<char>| (MODULE_STATEMENT@, module_map(m)))
}

/// The function records: one per function location whose module, name and
/// arity no earlier location has.
pub open spec fn functions_plan(g: CallGraph) -> Seq<PlannedStatement> {
    first_functions(per_module(g.function_locations@)).map_values(
        |e: (String, FunctionLocationDef)| (FUNCTION_STATEMENT@, function_map(e.0, e.1)),
    )
}

/// The clause records: one per function location.
pub open spec fn clauses_plan(g: CallGraph) -> Seq<PlannedStatement> {
    per_module(g.function_locations@).map_values(|e: (String, FunctionLocationDef)| (CLAUSE_STATEMENT@, clause_map(e.0, e.1)))
}

/// The call relations: one per call record.
pub open spec fn calls_plan(g: CallGraph) -> Seq<PlannedStatement> {
    g.calls@.map_values(|c: CallRecord| (CALL_STATEMENT@, call_map(c)))
}

/// The field records: one per struct field.
pub open spec fn fields_plan(g: CallGraph) -> Seq<PlannedStatement> {
    struct_fields(g.structs@).map_values(|e: (String, StructField)| (FIELD_STATEMENT@, field_map(e.0, e.1)))
}

/// The spec records: one per clause of each spec.
pub open spec fn specs_plan(g: CallGraph) -> Seq<PlannedStatement> {
    spec_clauses(per_module(g.specs@)).map_values(
        |e: (String, SpecDef, int, SpecClause)| (SPEC_STATEMENT@, spec_map(e.0, e.1, e.2, e.3)),
    )
}

/// The type records: one per type definition.
pub open spec fn types_plan(g: CallGraph) -> Seq<PlannedStatement> {
    per_module(g.types@).map_values(|e: (String, TypeDef)| (TYPE_STATEMENT@, type_map(e.0, e.1)))
}

/// The `defines` relations: module to function for each spec, module to
/// type for each type, module to spec for each spec clause.
pub open spec fn defines_plan(g: CallGraph) -> Seq<PlannedStatement> {
    per_module(g.specs@).map_values(|e: (String, SpecDef)| (DEFINES_FUNCTION_STATEMENT@, defines_function_map(e.0, e.1)))
        + per_module(g.types@).map_values(|e: (String, TypeDef)| (DEFINES_TYPE_STATEMENT@, defines_type_map(e.0, e.1)))
        + spec_clauses(per_module(g.specs@)).map_values(
        |e: (String, SpecDef, int, SpecClause)| (DEFINES_SPEC_STATEMENT@, defines_spec_map(e.0, e.1, e.2, e.3)),
    )
}

/// The `has_clause` relations: function to clause for each function location.
pub open spec fn has_clause_plan(g: CallGraph) -> Seq<PlannedStatement> {
    per_module(g.function_locations@).map_values(|e: (String, FunctionLocationDef)| (HAS_CLAUSE_STATEMENT@, has_clause_map(e.0, e.1)))
}

/// The `has_field` relations: module to field for each struct field.
pub open spec fn has_field_plan(g: CallGraph) -> Seq<PlannedStatement> {
    struct_fields(g.structs@).map_values(|e: (String, StructField)| (HAS_FIELD_STATEMENT@, has_field_map(e.0, e.1)))
}

/// The call count updates: incoming, then outgoing.
pub open spec fn call_counts_plan() -> Seq<PlannedStatement> {
    seq![(INCOMING_COUNT_STATEMENT@, Map::empty()), (OUTGOING_COUNT_STATEMENT@, Map::empty())]
}

fn module_mentions_exec(g: &CallGraph) -> (r: Vec<String>)
    ensures
        string_views(r@) == module_mentions(*g),
{
    let mut out: Vec<String> = Vec::new();
    let mut i: usize = 0;
    while i < g.specs.len()
        invariant
            i <= g.specs@.len(),
            string_views(out@) == g.specs@.take(i as int).map_values(|e: (String, Vec<SpecDef>)| e.0@),
        decreases g.specs@.len() - i,
    {
        let ghost before = string_views(out@);
        push_text(&mut out, g.specs[i].0.as_str());
        assert(g.specs@.take(i + 1).map_values(|e: (String, Vec<SpecDef>)| e.0@) =~= before.push(g.specs@[i as int].0@));
        i = i + 1;
    }
    assert(g.specs@.take(i as int) =~= g.specs@);
    let ghost a = string_views(out@);
    let mut i: usize = 0;
    while i < g.function_locations.len()
        invariant
            i <= g.function_locations@.len(),
            string_views(out@) == a + g.function_locations@.take(i as int).map_values(|e: (String, Vec<FunctionLocationDef>)| e.0@),
        decreases g.function_locations@.len() - i,
    {
        let ghost before = string_views(out@);
        push_text(&mut out, g.function_locations[i].0.as_str());
        assert(a + g.function_locations@.take(i + 1).map_values(|e: (String, Vec<FunctionLocationDef>)| e.0@) =~= before.push(g.function_locations@[i as int].0@));
        i = i + 1;
    }
    assert(g.function_locations@.take(i as int) =~= g.function_locations@);
    let ghost b = string_views(out@);
    let mut i: usize = 0;
    while i < g.structs.len()
        invariant
            i <= g.structs@.len(),
            string_views(out@) == b + g.structs@.take(i as int).map_values(|e: (String, StructDef)| e.0@),
        decreases g.structs@.len() - i,
    {
        let ghost before = string_views(out@);
        push_text(&mut out, g.structs[i].0.as_str());
        assert(b + g.structs@.take(i + 1).map_values(|e: (String, StructDef)| e.0@) =~= before.push(g.structs@[i as int].0@));
        i = i + 1;
    }
    assert(g.structs@.take(i as int) =~= g.structs@);
    let ghost c = string_views(out@);
    let mut i: usize = 0;
    while i < g.types.len()
        invariant
            i <= g.types@.len(),
            string_views(out@) == c + g.types@.take(i as int).map_values(|e: (String, Vec<TypeDef>)| e.0@),
        decreases g.types@.len() - i,
    {
        let ghost before = string_views(out@);
        push_text(&mut out, g.types[i].0.as_str());
        assert(c + g.types@.take(i + 1).map_values(|e: (String, Vec<TypeDef>)| e.0@) =~= before.push(g.types@[i as int].0@));
        i = i + 1;
    }
    assert(g.types@.take(i as int) =~= g.types@);
    out
}

pub(crate) fn module_statements(g: &CallGraph) -> (r: Vec<Statement>)
    ensures
        statements_fit(r@, modules_plan(*g)),
{
    let names = module_mentions_exec(g);
    let ghost all = string_views(names@);
    let ghost f = |m: Seq<char>| (MODULE_STATEMENT@, module_map(m));
    let mut seen: Vec<String> = Vec::new();
    let mut out: Vec<Statement> = Vec::new();
    let mut i: usize = 0;
    while i < names.len()
        invariant
            i <= names@.len(),
            all == string_views(names@),
            string_views(seen@) == all.take(i as int),
            f == (|m: Seq<char>| (MODULE_STATEMENT@, module_map(m))),
            statements_fit(out@, first_occurrences(all.take(i as int)).map_values(f)),
        decreases names@.len() - i,
    {
        let name = names[i].as_str();
        let ghost t = all.take(i + 1);
        proof {
            assert(t.drop_last() =~= all.take(i as int));
            assert(t.last() == name@);
        }
        let ghost before = out@;
        if !contains_text(&seen, name) {
            out.push(Statement { text: MODULE_STATEMENT, params: module_params(name) });
            proof {
                let p = first_occurrences(t).map_values(f);
                assert(p =~= first_occurrences(all.take(i as int)).map_values(f).push(f(name@)));
                assert forall|k: int| 0 <= k < out@.len() implies (#[trigger] out@[k]).text@ == p[k].0 && out@[k].params.binds_exactly(p[k].1) by {
                    if k < before.len() {
                        assert(out@[k] == before[k]);
                    }
                }
            }
        }
        push_text(&mut seen, name);
        assert(string_views(seen@) =~= t);
        i = i + 1;
    }
    assert(all.take(i as int) =~= all);
    out
}

pub(crate) fn function_statements(g: &CallGraph) -> (r: Vec<Statement>)
    ensures
        statements_fit(r@, functions_plan(*g)),
{
    let entries = &g.function_locations;
    let ghost es = g.function_locations@;
    let ghost f = |e: (String, FunctionLocationDef)| (FUNCTION_STATEMENT@, function_map(e.0, e.1));
    let ghost key = |e: (String, FunctionLocationDef)| function_key(e);
    let mut seen: Vec<(String, String, i64)> = Vec::new();
    let mut out: Vec<Statement> = Vec::new();
    let mut i: usize = 0;
    while i < entries.len()
        invariant
            i <= entries@.len(),
            es == g.function_locations@,
            entries@ == es,
            f == (|e: (String, FunctionLocationDef)| (FUNCTION_STATEMENT@, function_map(e.0, e.1))),
            key == (|e: (String, FunctionLocationDef)| function_key(e)),
            seen@.map_values(|k: (String, String, i64)| (k.0@, k.1@, k.2)) == per_module(es.take(i as int)).map_values(key),
            statements_fit(out@, first_functions(per_module(es.take(i as int))).map_values(f)),
        decreases entries@.len() - i,
    {
        let module = &entries[i].0;
        let items = &entries[i].1;
        let ghost base = per_module(es.take(i as int));
        assert(es[i as int].0 == *module && es[i as int].1@ == items@);
        let mut j: usize = 0;
        while j < items.len()
            invariant
                j <= items@.len(),
                f == (|e: (String, FunctionLocationDef)| (FUNCTION_STATEMENT@, function_map(e.0, e.1))),
                key == (|e: (String, FunctionLocationDef)| function_key(e)),
                seen@.map_values(|k: (String, String, i64)| (k.0@, k.1@, k.2)) == (base + items@.take(j as int).map_values(|x: FunctionLocationDef| (*module, x))).map_values(key),
                statements_fit(out@, first_functions(base + items@.take(j as int).map_values(|x: FunctionLocationDef| (*module, x))).map_values(f)),
            decreases items@.len() - j,
        {
            let loc = &items[j];
            let ghost prefix = base + items@.take(j as int).map_values(|x: FunctionLocationDef| (*module, x));
            let ghost next = base + items@.take(j + 1).map_values(|x: FunctionLocationDef| (*module, x));
            let ghost e = (*module, *loc);
            proof {
                assert(next =~= prefix.push(e));
                assert(next.drop_last() =~= prefix);
            }
            let ghost sv = seen@.map_values(|k: (String, String, i64)| (k.0@, k.1@, k.2));
            let mut found = false;
            let mut s: usize = 0;
            while s < seen.len()
                invariant
                    s <= seen@.len(),
                    e == (*module, *loc),
                    sv == seen@.map_values(|k: (String, String, i64)| (k.0@, k.1@, k.2)),
                    found <==> exists|x: int| 0 <= x < s && sv[x] == function_key(e),
                decreases seen@.len() - s,
            {
                if str_equal(seen[s].0.as_str(), module.as_str()) && str_equal(seen[s].1.as_str(), loc.name.as_str()) && seen[s].2 == loc.arity {
                    assert(sv[s as int] == function_key(e));
                    found = true;
                } else {
                    assert(sv[s as int] != function_key(e));
                }
                s = s + 1;
            }
            proof {
                assert(found <==> prefix.map_values(key).contains(function_key(e)));
            }
            let ghost before = out@;
            if !found {
                out.push(Statement { text: FUNCTION_STATEMENT, params: function_params(module, loc) });
                proof {
                    let p = first_functions(next).map_values(f);
                    assert(p =~= first_functions(prefix).map_values(f).push(f(e)));
                    assert forall|k: int| 0 <= k < out@.len() implies (#[trigger] out@[k]).text@ == p[k].0 && out@[k].params.binds_exactly(p[k].1) by {
                        if k < before.len() {
                            assert(out@[k] == before[k]);
                        }
                    }
                }
            } else {
                assert(first_functions(next) == first_functions(prefix));
            }
            seen.push((module.clone(), loc.name.clone(), loc.arity));
            proof {
                assert(seen@.map_values(|k: (String, String, i64)| (k.0@, k.1@, k.2)) =~= sv.push(function_key(e)));
                assert(next.map_values(key) =~= prefix.map_values(key).push(function_key(e)));
            }
            j = j + 1;
        }
        proof {
            assert(items@.take(j as int) =~= items@);
            lemma_per_module_take(es, i as int);
        }
        i = i + 1;
    }
    assert(es.take(i as int) =~= es);
    out
}

pub(crate) fn call_statements(g: &CallGraph) -> (r: Vec<Statement>)
    ensures
        statements_fit(r@, calls_plan(*g)),
{
    let ghost f = |c: CallRecord| (CALL_STATEMENT@, call_map(c));
    let mut out: Vec<Statement> = Vec::new();
    let mut i: usize = 0;
    while i < g.calls.len()
        invariant
            i <= g.calls@.len(),
            f == (|c: CallRecord| (CALL_STATEMENT@, call_map(c))),
            statements_fit(out@, g.calls@.take(i as int).map_values(f)),
        decreases g.calls@.len() - i,
    {
        let ghost before = out@;
        out.push(Statement { text: CALL_STATEMENT, params: call_params(&g.calls[i]) });
        proof {
            let p = g.calls@.take(i + 1).map_values(f);
            assert(p =~= g.calls@.take(i as int).map_values(f).push(f(g.calls@[i as int])));
            assert forall|k: int| 0 <= k < out@.len() implies (#[trigger] out@[k]).text@ == p[k].0 && out@[k].params.binds_exactly(p[k].1) by {
                if k < before.len() {
                    assert(out@[k] == before[k]);
                }
            }
        }
        i = i + 1;
    }
    assert(g.calls@.take(i as int) =~= g.calls@);
    out
}

/// The statements for each clause of each spec, built by `make`.
pub(crate) fn spec_clause_statements(g: &CallGraph, defines: bool) -> (r: Vec<Statement>)
    ensures
        statements_fit(r@, spec_clauses(per_module(g.specs@)).map_values(
            |e: (String, SpecDef, int, SpecClause)| if defines {
                (DEFINES_SPEC_STATEMENT@, defines_spec_map(e.0, e.1, e.2, e.3))
            } else {
                (SPEC_STATEMENT@, spec_map(e.0, e.1, e.2, e.3))
            },
        )),
{
    let entries = &g.specs;
    let ghost es = g.specs@;
    let ghost f = |e: (String, SpecDef, int, SpecClause)| if defines {
        (DEFINES_SPEC_STATEMENT@, defines_spec_map(e.0, e.1, e.2, e.3))
    } else {
        (SPEC_STATEMENT@, spec_map(e.0, e.1, e.2, e.3))
    };
    let mut out: Vec<Statement> = Vec::new();
    let mut i: usize = 0;
    while i < entries.len()
        invariant
            i <= entries@.len(),
            es == g.specs@,
            entries@ == es,
            f == (|e: (String, SpecDef, int, SpecClause)| if defines {
                (DEFINES_SPEC_STATEMENT@, defines_spec_map(e.0, e.1, e.2, e.3))
            } else {
                (SPEC_STATEMENT@, spec_map(e.0, e.1, e.2, e.3))
            }),
            statements_fit(out@, spec_clauses(per_module(es.take(i as int))).map_values(f)),
        decreases entries@.len() - i,
    {
        let module = &entries[i].0;
        let specs = &entries[i].1;
        let ghost base = per_module(es.take(i as int));
        assert(es[i as int].0 == *module && es[i as int].1@ == specs@);
        let mut j: usize = 0;
        while j < specs.len()
            invariant
                j <= specs@.len(),
                f == (|e: (String, SpecDef, int, SpecClause)| if defines {
                    (DEFINES_SPEC_STATEMENT@, defines_spec_map(e.0, e.1, e.2, e.3))
                } else {
                    (SPEC_STATEMENT@, spec_map(e.0, e.1, e.2, e.3))
                }),
                statements_fit(out@, spec_clauses(base + specs@.take(j as int).map_values(|x: SpecDef| (*module, x))).map_values(f)),
            decreases specs@.len() - j,
        {
            let spec = &specs[j];
            let ghost prefix = base + specs@.take(j as int).map_values(|x: SpecDef| (*module, x));
            let ghost next = base + specs@.take(j + 1).map_values(|x: SpecDef| (*module, x));
            proof {
                assert(next =~= prefix.push((*module, *spec)));
                assert(next.drop_last() =~= prefix);
            }
            let ghost start = spec_clauses(prefix);
            let mut k: usize = 0;
            while k < spec.clauses.len()
                invariant
                    k <= spec.clauses@.len(),
                    f == (|e: (String, SpecDef, int, SpecClause)| if defines {
                        (DEFINES_SPEC_STATEMENT@, defines_spec_map(e.0, e.1, e.2, e.3))
                    } else {
                        (SPEC_STATEMENT@, spec_map(e.0, e.1, e.2, e.3))
                    }),
                    statements_fit(out@, (start + spec.clauses@.take(k as int).map(|x: int, c: SpecClause| (*module, *spec, x, c))).map_values(f)),
                decreases spec.clauses@.len() - k,
            {
                let ghost before = out@;
                let params = if defines {
                    defines_spec_params(module, spec, k, &spec.clauses[k])
                } else {
                    spec_params(module, spec, k, &spec.clauses[k])
                };
                let text = if defines { DEFINES_SPEC_STATEMENT } else { SPEC_STATEMENT };
                out.push(Statement { text, params });
                proof {
                    let p = (start + spec.clauses@.take(k + 1).map(|x: int, c: SpecClause| (*module, *spec, x, c))).map_values(f);
                    assert(spec.clauses@.take(k + 1).map(|x: int, c: SpecClause| (*module, *spec, x, c))
                        =~= spec.clauses@.take(k as int).map(|x: int, c: SpecClause| (*module, *spec, x, c)).push((*module, *spec, k as int, spec.clauses@[k as int])));
                    assert(p =~= (start + spec.clauses@.take(k as int).map(|x: int, c: SpecClause| (*module, *spec, x, c))).map_values(f).push(f((*module, *spec, k as int, spec.clauses@[k as int]))));
                    assert forall|m: int| 0 <= m < out@.len() implies (#[trigger] out@[m]).text@ == p[m].0 && out@[m].params.binds_exactly(p[m].1) by {
                        if m < before.len() {
                            assert(out@[m] == before[m]);
                        }
                    }
                }
                k = k + 1;
            }
            proof {
                assert(spec.clauses@.take(k as int) =~= spec.clauses@);
            }
            j = j + 1;
        }
        proof {
            assert(specs@.take(j as int) =~= specs@);
            lemma_per_module_take(es, i as int);
        }
        i = i + 1;
    }
    assert(es.take(i as int) =~= es);
    out
}

pub(crate) fn append_statements(a: &mut Vec<Statement>, b: Vec<Statement>, Ghost(pa): Ghost<Seq<PlannedStatement>>, Ghost(pb): Ghost<Seq<PlannedStatement>>)
    requires
        statements_fit(old(a)@, pa),
        statements_fit(b@, pb),
    ensures
        statements_fit(final(a)@, pa + pb),
{
    let ghost a0 = a@;
    let mut rest = b;
    let ghost bl = rest.len();
    assert(pb.len() == bl);
    let mut n: usize = 0;
    while rest.len() > 0
        invariant
            pb.len() <= usize::MAX,
            statements_fit(a@, pa + pb.take(n as int)),
            n <= pb.len(),
            rest@.len() == pb.len() - n,
            forall|k: int| 0 <= k < rest@.len() ==> (#[trigger] rest@[k]).text@ == pb[n + k].0 && rest@[k].params.binds_exactly(pb[n + k].1),
        decreases rest@.len(),
    {
        let ghost old_rest = rest@;
        let ghost before = a@;
        let st = rest.remove(0);
        proof {
            assert(st == old_rest[0]);
            assert forall|k: int| 0 <= k < rest@.len() implies (#[trigger] rest@[k]).text@ == pb[n + 1 + k].0 && rest@[k].params.binds_exactly(pb[n + 1 + k].1) by {
                assert(rest@[k] == old_rest[k + 1]);
            }
        }
        a.push(st);
        proof {
            let p = pa + pb.take(n + 1);
            assert(p =~= (pa + pb.take(n as int)).push(pb[n as int]));
            assert forall|k: int| 0 <= k < a@.len() implies (#[trigger] a@[k]).text@ == p[k].0 && a@[k].params.binds_exactly(p[k].1) by {
                if k < before.len() {
                    assert(a@[k] == before[k]);
                }
            }
        }
        n = n + 1;
    }
    assert(pb.take(n as int) =~= pb);
}

/// The clause records, one per function location.
pub(crate) fn clause_statements(g: &CallGraph) -> (r: Vec<Statement>)
    ensures
        statements_fit(r@, clauses_plan(*g)),
{
    let entries = &g.function_locations;
    let ghost es = g.function_locations@;
    let ghost f = |e: (String, FunctionLocationDef)| (CLAUSE_STATEMENT@, clause_map(e.0, e.1));
    let mut out: Vec<Statement> = Vec::new();
    let mut i: usize = 0;
    while i < entries.len()
        invariant
            i <= entries@.len(),
            es.len() == entries@.len(),
            es == g.function_locations@,
            forall|m: int| 0 <= m < es.len() ==> (#[trigger] es[m]).0 == entries@[m].0 && es[m].1@ == entries@[m].1@,
            f == (|e: (String, FunctionLocationDef)| (CLAUSE_STATEMENT@, clause_map(e.0, e.1))),
            statements_fit(out@, per_module(es.take(i as int)).map_values(f)),
        decreases entries@.len() - i,
    {
        let module = &entries[i].0;
        let items = &entries[i].1;
        let ghost base = per_module(es.take(i as int));
        assert(es[i as int].0 == *module && es[i as int].1@ == items@);
        let mut j: usize = 0;
        while j < items.len()
            invariant
                j <= items@.len(),
                f == (|e: (String, FunctionLocationDef)| (CLAUSE_STATEMENT@, clause_map(e.0, e.1))),
                statements_fit(out@, (base + items@.take(j as int).map_values(|x: FunctionLocationDef| (*module, x))).map_values(f)),
            decreases items@.len() - j,
        {
            let ghost before = out@;
            let st = Statement { text: CLAUSE_STATEMENT, params: clause_params(module, &items[j]) };
            out.push(st);
            proof {
                let p = (base + items@.take(j + 1).map_values(|x: FunctionLocationDef| (*module, x))).map_values(f);
                assert(p =~= (base + items@.take(j as int).map_values(|x: FunctionLocationDef| (*module, x))).map_values(f).push(f((*module, items@[j as int]))));
                assert forall|k: int| 0 <= k < out@.len() implies (#[trigger] out@[k]).text@ == p[k].0 && out@[k].params.binds_exactly(p[k].1) by {
                    if k < before.len() {
                        assert(out@[k] == before[k]);
                    }
                }
            }
            j = j + 1;
        }
        proof {
            assert(items@.take(j as int) =~= items@);
            lemma_per_module_take(es, i as int);
        }
        i = i + 1;
    }
    assert(es.take(i as int) =~= es);
    out
}

/// The `has_clause` relations, one per function location.
pub(crate) fn has_clause_statements(g: &CallGraph) -> (r: Vec<Statement>)
    ensures
        statements_fit(r@, has_clause_plan(*g)),
{
    let entries = &g.function_locations;
    let ghost es = g.function_locations@;
    let ghost f = |e: (String, FunctionLocationDef)| (HAS_CLAUSE_STATEMENT@, has_clause_map(e.0, e.1));
    let mut out: Vec<Statement> = Vec::new();
    let mut i: usize = 0;
    while i < entries.len()
        invariant
            i <= entries@.len(),
            es.len() == entries@.len(),
            es == g.function_locations@,
            forall|m: int| 0 <= m < es.len() ==> (#[trigger] es[m]).0 == entries@[m].0 && es[m].1@ == entries@[m].1@,
            f == (|e: (String, FunctionLocationDef)| (HAS_CLAUSE_STATEMENT@, has_clause_map(e.0, e.1))),
            statements_fit(out@, per_module(es.take(i as int)).map_values(f)),
        decreases entries@.len() - i,
    {
        let module = &entries[i].0;
        let items = &entries[i].1;
        let ghost base = per_module(es.take(i as int));
        assert(es[i as int].0 == *module && es[i as int].1@ == items@);
        let mut j: usize = 0;
        while j < items.len()
            invariant
                j <= items@.len(),
                f == (|e: (String, FunctionLocationDef)| (HAS_CLAUSE_STATEMENT@, has_clause_map(e.0, e.1))),
                statements_fit(out@, (base + items@.take(j as int).map_values(|x: FunctionLocationDef| (*module, x))).map_values(f)),
            decreases items@.len() - j,
        {
            let ghost before = out@;
            let st = Statement { text: HAS_CLAUSE_STATEMENT, params: has_clause_params(module, &items[j]) };
            out.push(st);
            proof {
                let p = (base + items@.take(j + 1).map_values(|x: FunctionLocationDef| (*module, x))).map_values(f);
                assert(p =~= (base + items@.take(j as int).map_values(|x: FunctionLocationDef| (*module, x))).map_values(f).push(f((*module, items@[j as int]))));
                assert forall|k: int| 0 <= k < out@.len() implies (#[trigger] out@[k]).text@ == p[k].0 && out@[k].params.binds_exactly(p[k].1) by {
                    if k < before.len() {
                        assert(out@[k] == before[k]);
                    }
                }
            }
            j = j + 1;
        }
        proof {
            assert(items@.take(j as int) =~= items@);
            lemma_per_module_take(es, i as int);
        }
        i = i + 1;
    }
    assert(es.take(i as int) =~= es);
    out
}

/// The type records, one per type definition.
pub(crate) fn type_statements(g: &CallGraph) -> (r: Vec<Statement>)
    ensures
        statements_fit(r@, types_plan(*g)),
{
    let entries = &g.types;
    let ghost es = g.types@;
    let ghost f = |e: (String, TypeDef)| (TYPE_STATEMENT@, type_map(e.0, e.1));
    let mut out: Vec<Statement> = Vec::new();
    let mut i: usize = 0;
    while i < entries.len()
        invariant
            i <= entries@.len(),
            es.len() == entries@.len(),
            es == g.types@,
            forall|m: int| 0 <= m < es.len() ==> (#[trigger] es[m]).0 == entries@[m].0 && es[m].1@ == entries@[m].1@,
            f == (|e: (String, TypeDef)| (TYPE_STATEMENT@, type_map(e.0, e.1))),
            statements_fit(out@, per_module(es.take(i as int)).map_values(f)),
        decreases entries@.len() - i,
    {
        let module = &entries[i].0;
        let items = &entries[i].1;
        let ghost base = per_module(es.take(i as int));
        assert(es[i as int].0 == *module && es[i as int].1@ == items@);
        let mut j: usize = 0;
        while j < items.len()
            invariant
                j <= items@.len(),
                f == (|e: (String, TypeDef)| (TYPE_STATEMENT@, type_map(e.0, e.1))),
                statements_fit(out@, (base + items@.take(j as int).map_values(|x: TypeDef| (*module, x))).map_values(f)),
            decreases items@.len() - j,
        {
            let ghost before = out@;
            let st = Statement { text: TYPE_STATEMENT, params: type_params(module, &items[j]) };
            out.push(st);
            proof {
                let p = (base + items@.take(j + 1).map_values(|x: TypeDef| (*module, x))).map_values(f);
                assert(p =~= (base + items@.take(j as int).map_values(|x: TypeDef| (*module, x))).map_values(f).push(f((*module, items@[j as int]))));
                assert forall|k: int| 0 <= k < out@.len() implies (#[trigger] out@[k]).text@ == p[k].0 && out@[k].params.binds_exactly(p[k].1) by {
                    if k < before.len() {
                        assert(out@[k] == before[k]);
                    }
                }
            }
            j = j + 1;
        }
        proof {
            assert(items@.take(j as int) =~= items@);
            lemma_per_module_take(es, i as int);
        }
        i = i + 1;
    }
    assert(es.take(i as int) =~= es);
    out
}

/// The `defines` relations from modules to types.
pub(crate) fn defines_type_statements(g: &CallGraph) -> (r: Vec<Statement>)
    ensures
        statements_fit(r@, per_module(g.types@).map_values(|e: (String, TypeDef)| (DEFINES_TYPE_STATEMENT@, defines_type_map(e.0, e.1)))),
{
    let entries = &g.types;
    let ghost es = g.types@;
    let ghost f = |e: (String, TypeDef)| (DEFINES_TYPE_STATEMENT@, defines_type_map(e.0, e.1));
    let mut out: Vec<Statement> = Vec::new();
    let mut i: usize = 0;
    while i < entries.len()
        invariant
            i <= entries@.len(),
            es.len() == entries@.len(),
            es == g.types@,
            forall|m: int| 0 <= m < es.len() ==> (#[trigger] es[m]).0 == entries@[m].0 && es[m].1@ == entries@[m].1@,
            f == (|e: (String, TypeDef)| (DEFINES_TYPE_STATEMENT@, defines_type_map(e.0, e.1))),
            statements_fit(out@, per_module(es.take(i as int)).map_values(f)),
        decreases entries@.len() - i,
    {
        let module = &entries[i].0;
        let items = &entries[i].1;
        let ghost base = per_module(es.take(i as int));
        assert(es[i as int].0 == *module && es[i as int].1@ == items@);
        let mut j: usize = 0;
        while j < items.len()
            invariant
                j <= items@.len(),
                f == (|e: (String, TypeDef)| (DEFINES_TYPE_STATEMENT@, defines_type_map(e.0, e.1))),
                statements_fit(out@, (base + items@.take(j as int).map_values(|x: TypeDef| (*module, x))).map_values(f)),
            decreases items@.len() - j,
        {
            let ghost before = out@;
            let st = Statement { text: DEFINES_TYPE_STATEMENT, params: defines_type_params(module, &items[j]) };
            out.push(st);
            proof {
                let p = (base + items@.take(j + 1).map_values(|x: TypeDef| (*module, x))).map_values(f);
                assert(p =~= (base + items@.take(j as int).map_values(|x: TypeDef| (*module, x))).map_values(f).push(f((*module, items@[j as int]))));
                assert forall|k: int| 0 <= k < out@.len() implies (#[trigger] out@[k]).text@ == p[k].0 && out@[k].params.binds_exactly(p[k].1) by {
                    if k < before.len() {
                        assert(out@[k] == before[k]);
                    }
                }
            }
            j = j + 1;
        }
        proof {
            assert(items@.take(j as int) =~= items@);
            lemma_per_module_take(es, i as int);
        }
        i = i + 1;
    }
    assert(es.take(i as int) =~= es);
    out
}

/// The `defines` relations from modules to the functions their specs name.
pub(crate) fn defines_function_statements(g: &CallGraph) -> (r: Vec<Statement>)
    ensures
        statements_fit(r@, per_module(g.specs@).map_values(|e: (String, SpecDef)| (DEFINES_FUNCTION_STATEMENT@, defines_function_map(e.0, e.1)))),
{
    let entries = &g.specs;
    let ghost es = g.specs@;
    let ghost f = |e: (String, SpecDef)| (DEFINES_FUNCTION_STATEMENT@, defines_function_map(e.0, e.1));
    let mut out: Vec<Statement> = Vec::new();
    let mut i: usize = 0;
    while i < entries.len()
        invariant
            i <= entries@.len(),
            es.len() == entries@.len(),
            es == g.specs@,
            forall|m: int| 0 <= m < es.len() ==> (#[trigger] es[m]).0 == entries@[m].0 && es[m].1@ == entries@[m].1@,
            f == (|e: (String, SpecDef)| (DEFINES_FUNCTION_STATEMENT@, defines_function_map(e.0, e.1))),
            statements_fit(out@, per_module(es.take(i as int)).map_values(f)),
        decreases entries@.len() - i,
    {
        let module = &entries[i].0;
        let items = &entries[i].1;
        let ghost base = per_module(es.take(i as int));
        assert(es[i as int].0 == *module && es[i as int].1@ == items@);
        let mut j: usize = 0;
        while j < items.len()
            invariant
                j <= items@.len(),
                f == (|e: (String, SpecDef)| (DEFINES_FUNCTION_STATEMENT@, defines_function_map(e.0, e.1))),
                statements_fit(out@, (base + items@.take(j as int).map_values(|x: SpecDef| (*module, x))).map_values(f)),
            decreases items@.len() - j,
        {
            let ghost before = out@;
            let st = Statement { text: DEFINES_FUNCTION_STATEMENT, params: defines_function_params(module, &items[j]) };
            out.push(st);
            proof {
                let p = (base + items@.take(j + 1).map_values(|x: SpecDef| (*module, x))).map_values(f);
                assert(p =~= (base + items@.take(j as int).map_values(|x: SpecDef| (*module, x))).map_values(f).push(f((*module, items@[j as int]))));
                assert forall|k: int| 0 <= k < out@.len() implies (#[trigger] out@[k]).text@ == p[k].0 && out@[k].params.binds_exactly(p[k].1) by {
                    if k < before.len() {
                        assert(out@[k] == before[k]);
                    }
                }
            }
            j = j + 1;
        }
        proof {
            assert(items@.take(j as int) =~= items@);
            lemma_per_module_take(es, i as int);
        }
        i = i + 1;
    }
    assert(es.take(i as int) =~= es);
    out
}

/// The field records, one per struct field.
pub(crate) fn field_statements(g: &CallGraph) -> (r: Vec<Statement>)
    ensures
        statements_fit(r@, fields_plan(*g)),
{
    let entries = &g.structs;
    let ghost es = g.structs@.map_values(|e: (String, StructDef)| (e.0, e.1.fields));
    let ghost f = |e: (String, StructField)| (FIELD_STATEMENT@, field_map(e.0, e.1));
    let mut out: Vec<Statement> = Vec::new();
    let mut i: usize = 0;
    while i < entries.len()
        invariant
            i <= entries@.len(),
            es.len() == entries@.len(),
            es == g.structs@.map_values(|e: (String, StructDef)| (e.0, e.1.fields)),
            forall|m: int| 0 <= m < es.len() ==> (#[trigger] es[m]).0 == entries@[m].0 && es[m].1@ == entries@[m].1.fields@,
            f == (|e: (String, StructField)| (FIELD_STATEMENT@, field_map(e.0, e.1))),
            statements_fit(out@, per_module(es.take(i as int)).map_values(f)),
        decreases entries@.len() - i,
    {
        let module = &entries[i].0;
        let items = &entries[i].1.fields;
        let ghost base = per_module(es.take(i as int));
        assert(es[i as int].0 == *module && es[i as int].1@ == items@);
        let mut j: usize = 0;
        while j < items.len()
            invariant
                j <= items@.len(),
                f == (|e: (String, StructField)| (FIELD_STATEMENT@, field_map(e.0, e.1))),
                statements_fit(out@, (base + items@.take(j as int).map_values(|x: StructField| (*module, x))).map_values(f)),
            decreases items@.len() - j,
        {
            let ghost before = out@;
            let st = Statement { text: FIELD_STATEMENT, params: field_params(module, &items[j]) };
            out.push(st);
            proof {
                let p = (base + items@.take(j + 1).map_values(|x: StructField| (*module, x))).map_values(f);
                assert(p =~= (base + items@.take(j as int).map_values(|x: StructField| (*module, x))).map_values(f).push(f((*module, items@[j as int]))));
                assert forall|k: int| 0 <= k < out@.len() implies (#[trigger] out@[k]).text@ == p[k].0 && out@[k].params.binds_exactly(p[k].1) by {
                    if k < before.len() {
                        assert(out@[k] == before[k]);
                    }
                }
            }
            j = j + 1;
        }
        proof {
            assert(items@.take(j as int) =~= items@);
            lemma_per_module_take(es, i as int);
        }
        i = i + 1;
    }
    assert(es.take(i as int) =~= es);
    out
}

/// The `has_field` relations, one per struct field.
pub(crate) fn has_field_statements(g: &CallGraph) -> (r: Vec<Statement>)
    ensures
        statements_fit(r@, has_field_plan(*g)),
{
    let entries = &g.structs;
    let ghost es = g.structs@.map_values(|e: (String, StructDef)| (e.0, e.1.fields));
    let ghost f = |e: (String, StructField)| (HAS_FIELD_STATEMENT@, has_field_map(e.0, e.1));
    let mut out: Vec<Statement> = Vec::new();
    let mut i: usize = 0;
    while i < entries.len()
        invariant
            i <= entries@.len(),
            es.len() == entries@.len(),
            es == g.structs@.map_values(|e: (String, StructDef)| (e.0, e.1.fields)),
            forall|m: int| 0 <= m < es.len() ==> (#[trigger] es[m]).0 == entries@[m].0 && es[m].1@ == entries@[m].1.fields@,
            f == (|e: (String, StructField)| (HAS_FIELD_STATEMENT@, has_field_map(e.0, e.1))),
            statements_fit(out@, per_module(es.take(i as int)).map_values(f)),
        decreases entries@.len() - i,
    {
        let module = &entries[i].0;
        let items = &entries[i].1.fields;
        let ghost base = per_module(es.take(i as int));
        assert(es[i as int].0 == *module && es[i as int].1@ == items@);
        let mut j: usize = 0;
        while j < items.len()
            invariant
                j <= items@.len(),
                f == (|e: (String, StructField)| (HAS_FIELD_STATEMENT@, has_field_map(e.0, e.1))),
                statements_fit(out@, (base + items@.take(j as int).map_values(|x: StructField| (*module, x))).map_values(f)),
            decreases items@.len() - j,
        {
            let ghost before = out@;
            let st = Statement { text: HAS_FIELD_STATEMENT, params: has_field_params(module, &items[j]) };
            out.push(st);
            proof {
                let p = (base + items@.take(j + 1).map_values(|x: StructField| (*module, x))).map_values(f);
                assert(p =~= (base + items@.take(j as int).map_values(|x: StructField| (*module, x))).map_values(f).push(f((*module, items@[j as int]))));
                assert forall|k: int| 0 <= k < out@.len() implies (#[trigger] out@[k]).text@ == p[k].0 && out@[k].params.binds_exactly(p[k].1) by {
                    if k < before.len() {
                        assert(out@[k] == before[k]);
                    }
                }
            }
            j = j + 1;
        }
        proof {
            assert(items@.take(j as int) =~= items@);
            lemma_per_module_take(es, i as int);
        }
        i = i + 1;
    }
    assert(es.take(i as int) =~= es);
    out
}

} // verus!
