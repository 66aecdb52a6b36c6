//! Import of a parsed call graph: schema creation, node and relationship
//! records, and the reading of function references in call records.

use vstd::prelude::*;
use crate::backend::{Database, QueryParams, QueryResult};
use crate::db::{DbError, says_existing};
use crate::queries::import_models::{CallGraph, SpecClause, SpecDef, TypeDef, per_module, spec_clauses};
use crate::queries::import_plans::{
    append_statements, call_counts_plan, call_statements, calls_plan, clause_statements, clauses_plan,
    defines_function_statements, defines_plan, defines_type_statements, field_statements, fields_plan,
    function_statements, functions_plan, has_clause_plan, has_clause_statements, has_field_plan,
    has_field_statements, module_statements, modules_plan, spec_clause_statements, specs_plan,
    type_statements, types_plan,
};
use crate::queries::import_statements::{
    DEFINES_FUNCTION_STATEMENT, DEFINES_SPEC_STATEMENT, DEFINES_TYPE_STATEMENT, INCOMING_COUNT_STATEMENT,
    OUTGOING_COUNT_STATEMENT, SPEC_STATEMENT, PlannedStatement, Statement, defines_function_map,
    defines_spec_map, defines_type_map, ran_in_order, ran_ok, run_statements, spec_map,
};
use crate::queries::schema::{self, SchemaCreationResult, created_before, creation_answered, relation_name_list};
use crate::text::{push_text, string_views};
use crate::text::{chars_of, decimal_int, last_index_of, lemma_last_index_of, lemma_parse_decimal, parse_i64, parse_i64_spec, rfind_char, slice_chars};

verus! {

/// Errors of the import.
#[derive(Debug)]
pub enum ImportError {
    FileReadFailed { path: String, message: String },
    JsonParseFailed { message: String },
    SchemaCreationFailed { relation: String, message: String },
    ClearFailed { message: String },
    ImportFailed { data_type: String, message: String },
}

impl ImportError {
    /// The error's text.
    pub open spec fn message(&self) -> Seq<char> {
        match self {
            ImportError::FileReadFailed { path, message } => "Failed to read call graph file '"@ + path@ + "': "@ + message@,
            ImportError::JsonParseFailed { message } => "Failed to parse call graph JSON: "@ + message@,
            ImportError::SchemaCreationFailed { relation, message } => "Schema creation failed for '"@ + relation@ + "': "@ + message@,
            ImportError::ClearFailed { message } => "Failed to clear data: "@ + message@,
            ImportError::ImportFailed { data_type, message } => "Failed to import "@ + data_type@ + ": "@ + message@,
        }
    }

    /// The error's text (what `Display` writes).
    pub fn to_string(&self) -> (r: String)
        ensures
            r@ == self.message(),
    {
        let mut r = String::new();
        match self {
            ImportError::FileReadFailed { path, message } => {
                r.append("Failed to read call graph file '");
                r.append(path.as_str());
                r.append("': ");
                r.append(message.as_str());
            },
            ImportError::JsonParseFailed { message } => {
                r.append("Failed to parse call graph JSON: ");
                r.append(message.as_str());
            },
            ImportError::SchemaCreationFailed { relation, message } => {
                r.append("Schema creation failed for '");
                r.append(relation.as_str());
                r.append("': ");
                r.append(message.as_str());
            },
            ImportError::ClearFailed { message } => {
                r.append("Failed to clear data: ");
                r.append(message.as_str());
            },
            ImportError::ImportFailed { data_type, message } => {
                r.append("Failed to import ");
                r.append(data_type.as_str());
                r.append(": ");
                r.append(message.as_str());
            },
        }
        r
    }
}

/// Result of schema creation
#[derive(Debug, Clone)]
pub struct SchemaResult {
    pub created: Vec<String>,
    pub already_existed: Vec<String>,
}

/// Result of the import command execution
#[derive(Debug, Clone)]
pub struct ImportResult {
    pub schemas: SchemaResult,
    pub cleared: bool,
    pub modules_imported: usize,
    pub functions_imported: usize,
    pub calls_imported: usize,
    pub structs_imported: usize,
    pub function_locations_imported: usize,
    pub specs_imported: usize,
    pub types_imported: usize,
}

/// The names of the relations whose creation flag is `want`, in order.
pub open spec fn relations_with(v: Seq<SchemaCreationResult>, want: bool) -> Seq<Seq<char>>
    decreases v.len(),
{
    if v.len() == 0 {
        Seq::empty()
    } else if v.last().created == want {
        relations_with(v.drop_last(), want).push(v.last().relation@)
    } else {
        relations_with(v.drop_last(), want)
    }
}

/// The schema result sorts the relations, each in creation order, into those
/// created now and those that existed already, as the backend answered
/// each creation.
pub open spec fn schema_result_sorts<D: Database + ?Sized>(db: &D, res: SchemaResult) -> bool {
    exists|v: Seq<SchemaCreationResult>|
        v.map_values(|x: SchemaCreationResult| x.relation@) == relation_name_list()
            && (forall|i: int| 0 <= i < v.len() ==> creation_answered(db, relation_name_list()[i], Ok(#[trigger] v[i].created)))
            && #[trigger] relations_with(v, true) == string_views(res.created@)
            && relations_with(v, false) == string_views(res.already_existed@)
}

/// The creation of the schemas stopped at relation `j` with the failure `e`,
/// after every earlier relation was created or found existing.
pub open spec fn schema_failed<D: Database + ?Sized>(db: &D, e: DbError) -> bool {
    &&& !says_existing(e.message())
    &&& exists|j: int| 0 <= j < relation_name_list().len() && created_before(db, j)
        && #[trigger] creation_answered(db, relation_name_list()[j], Err(e))
}

/// Create all schemas, sorting the relations into those created now and
/// those that existed already, each in creation order.
pub fn create_schema<D: Database + ?Sized>(db: &D) -> (r: Result<SchemaResult, DbError>)
    ensures
        r matches Ok(res) ==> schema_result_sorts(db, res),
        r matches Err(e) ==> schema_failed(db, e),
{
    let schema_results = match schema::create_schema(db) {
        Ok(v) => v,
        Err(e) => return Err(e),
    };
    let ghost v = schema_results@;
    let mut created: Vec<String> = Vec::new();
    let mut already_existed: Vec<String> = Vec::new();
    let mut i: usize = 0;
    while i < schema_results.len()
        invariant
            i <= v.len(),
            v == schema_results@,
            string_views(created@) == relations_with(v.take(i as int), true),
            string_views(already_existed@) == relations_with(v.take(i as int), false),
        decreases v.len() - i,
    {
        let ghost t = v.take(i + 1);
        assert(t.drop_last() =~= v.take(i as int));
        let item = &schema_results[i];
        if item.created {
            push_text(&mut created, item.relation.as_str());
        } else {
            push_text(&mut already_existed, item.relation.as_str());
        }
        i = i + 1;
    }
    assert(v.take(i as int) =~= v);
    assert(v.map_values(|x: SchemaCreationResult| x.relation@) =~= relation_name_list());
    let res = SchemaResult { created, already_existed };
    assert(relations_with(v, true) == string_views(res.created@));
    Ok(res)
}

/// The tables the project data lives in.
pub open spec fn data_tables() -> Seq<Seq<char>> {
    seq!["modules"@, "functions"@, "clauses"@, "specs"@, "types"@, "fields"@, "defines"@, "has_clause"@, "calls"@, "has_field"@]
}

/// The statement clearing a table.
pub open spec fn clear_statement(table: Seq<char>) -> Seq<char> {
    "DELETE FROM "@ + table + ";"@
}

/// The backend may answer the clearing of `table` with success.
pub open spec fn cleared<D: Database + ?Sized>(db: &D, table: Seq<char>) -> bool {
    exists|p: QueryParams, res: QueryResult| p.binds_exactly(Map::empty()) && #[trigger] db.answers(clear_statement(table), p, Ok(res))
}

/// The backend may answer the clearing of `table` with the failure `e`.
pub open spec fn clearing_failed<D: Database + ?Sized>(db: &D, table: Seq<char>, e: DbError) -> bool {
    exists|p: QueryParams| p.binds_exactly(Map::empty()) && #[trigger] db.answers(clear_statement(table), p, Err(e))
}

/// Clear all project data: every record of every table, table by table; the
/// first failure stops the clearing and names the table.
pub fn clear_project_data<D: Database + ?Sized>(db: &D) -> (r: Result<(), ImportError>)
    ensures
        r is Ok ==> forall|k: int| 0 <= k < data_tables().len() ==> cleared(db, #[trigger] data_tables()[k]),
        r matches Err(err) ==> exists|j: int, e: DbError| 0 <= j < data_tables().len()
            && #[trigger] clearing_failed(db, data_tables()[j], e)
            && (err matches ImportError::ClearFailed { message } && message@ == "Failed to clear "@ + data_tables()[j] + ": "@ + e.message())
            && (forall|k: int| 0 <= k < j ==> cleared(db, #[trigger] data_tables()[k])),
{
    let tables: [&str; 10] = ["modules", "functions", "clauses", "specs", "types", "fields", "defines", "has_clause", "calls", "has_field"];
    assert(tables@.map_values(|t: &str| t@) =~= data_tables());
    let mut i: usize = 0;
    while i < 10
        invariant
            i <= 10,
            tables@.map_values(|t: &str| t@) == data_tables(),
            forall|k: int| 0 <= k < i ==> cleared(db, #[trigger] data_tables()[k]),
        decreases 10 - i,
    {
        let table = tables[i];
        assert(table@ == data_tables()[i as int]);
        let mut script = String::new();
        script.append("DELETE FROM ");
        script.append(table);
        script.append(";");
        let params = QueryParams::new();
        let ghost gp = params;
        match db.execute_query(script.as_str(), params) {
            Ok(res) => {
                assert(db.answers(clear_statement(data_tables()[i as int]), gp, Ok(res)));
                assert(cleared(db, data_tables()[i as int]));
            },
            Err(e) => {
                let mut message = String::new();
                message.append("Failed to clear ");
                message.append(table);
                message.append(": ");
                let t = e.to_string();
                message.append(t.as_str());
                assert(db.answers(clear_statement(data_tables()[i as int]), gp, Err(e)));
                assert(clearing_failed(db, data_tables()[i as int], e));
                return Err(ImportError::ClearFailed { message });
            },
        }
        i = i + 1;
    }
    Ok(())
}

/// Import modules: one record per module the graph mentions (in its specs,
/// function locations, structs or types), each once, in the order first
/// mentioned. Returns how many were created, or the first failure.
pub fn import_modules<D: Database + ?Sized>(db: &D, graph: &CallGraph) -> (r: Result<usize, DbError>)
    ensures
        ran_in_order(db, modules_plan(*graph), r),
{
    let statements = module_statements(graph);
    run_statements(db, statements, Ghost(modules_plan(*graph)))
}

/// Import functions from the function locations: one record per module,
/// name and arity, from the first location that has them.
pub fn import_functions<D: Database + ?Sized>(db: &D, graph: &CallGraph) -> (r: Result<usize, DbError>)
    ensures
        ran_in_order(db, functions_plan(*graph), r),
{
    let statements = function_statements(graph);
    run_statements(db, statements, Ghost(functions_plan(*graph)))
}

/// Import calls: one relation per call record, from the caller (its
/// function reference read as name and arity) to the callee.
pub fn import_calls<D: Database + ?Sized>(db: &D, graph: &CallGraph) -> (r: Result<usize, DbError>)
    ensures
        ran_in_order(db, calls_plan(*graph), r),
{
    let statements = call_statements(graph);
    run_statements(db, statements, Ghost(calls_plan(*graph)))
}

/// Update call counts on functions table after importing calls: the
/// incoming counts, then the outgoing counts.
pub fn update_call_counts<D: Database + ?Sized>(db: &D) -> (r: Result<(), DbError>)
    ensures
        ran_in_order(db, call_counts_plan(), match r { Ok(_) => Ok(2usize), Err(e) => Err(e) }),
{
    let mut statements: Vec<Statement> = Vec::new();
    statements.push(Statement { text: INCOMING_COUNT_STATEMENT, params: QueryParams::new() });
    statements.push(Statement { text: OUTGOING_COUNT_STATEMENT, params: QueryParams::new() });
    match run_statements(db, statements, Ghost(call_counts_plan())) {
        Ok(_) => Ok(()),
        Err(e) => Err(e),
    }
}

/// Import struct fields: one record per field of each struct.
pub fn import_structs<D: Database + ?Sized>(db: &D, graph: &CallGraph) -> (r: Result<usize, DbError>)
    ensures
        ran_in_order(db, fields_plan(*graph), r),
{
    let statements = field_statements(graph);
    run_statements(db, statements, Ghost(fields_plan(*graph)))
}

/// Import function locations as clauses: one record per location.
pub fn import_function_locations<D: Database + ?Sized>(db: &D, graph: &CallGraph) -> (r: Result<usize, DbError>)
    ensures
        ran_in_order(db, clauses_plan(*graph), r),
{
    let statements = clause_statements(graph);
    run_statements(db, statements, Ghost(clauses_plan(*graph)))
}

/// Import specs: one record per clause of each spec, numbered from 0 within
/// the spec, with its input and return types kept as arrays.
pub fn import_specs<D: Database + ?Sized>(db: &D, graph: &CallGraph) -> (r: Result<usize, DbError>)
    ensures
        ran_in_order(db, specs_plan(*graph), r),
{
    let statements = spec_clause_statements(graph, false);
    let ghost all = spec_clauses(per_module(graph.specs@));
    assert(all.map_values(
        |e: (String, SpecDef, int, SpecClause)| if false {
            (DEFINES_SPEC_STATEMENT@, defines_spec_map(e.0, e.1, e.2, e.3))
        } else {
            (SPEC_STATEMENT@, spec_map(e.0, e.1, e.2, e.3))
        },
    ) =~= specs_plan(*graph));
    run_statements(db, statements, Ghost(specs_plan(*graph)))
}

/// Import types: one record per type definition, its parameters joined
/// with ", ".
pub fn import_types<D: Database + ?Sized>(db: &D, graph: &CallGraph) -> (r: Result<usize, DbError>)
    ensures
        ran_in_order(db, types_plan(*graph), r),
{
    let statements = type_statements(graph);
    run_statements(db, statements, Ghost(types_plan(*graph)))
}

/// Create defines relationships: from each module to the function of each of
/// its specs, then to each of its types, then to each clause of its specs.
pub fn create_defines_relationships<D: Database + ?Sized>(db: &D, graph: &CallGraph) -> (r: Result<usize, DbError>)
    ensures
        ran_in_order(db, defines_plan(*graph), r),
{
    let ghost g = *graph;
    let ghost pf = per_module(g.specs@).map_values(|e: (String, SpecDef)| (DEFINES_FUNCTION_STATEMENT@, defines_function_map(e.0, e.1)));
    let ghost pt = per_module(g.types@).map_values(|e: (String, TypeDef)| (DEFINES_TYPE_STATEMENT@, defines_type_map(e.0, e.1)));
    let ghost ps = spec_clauses(per_module(g.specs@)).map_values(
        |e: (String, SpecDef, int, SpecClause)| (DEFINES_SPEC_STATEMENT@, defines_spec_map(e.0, e.1, e.2, e.3)),
    );
    let mut statements = defines_function_statements(graph);
    append_statements(&mut statements, defines_type_statements(graph), Ghost(pf), Ghost(pt));
    let spec_statements = spec_clause_statements(graph, true);
    assert(spec_clauses(per_module(g.specs@)).map_values(
        |e: (String, SpecDef, int, SpecClause)| if true {
            (DEFINES_SPEC_STATEMENT@, defines_spec_map(e.0, e.1, e.2, e.3))
        } else {
            (SPEC_STATEMENT@, spec_map(e.0, e.1, e.2, e.3))
        },
    ) =~= ps);
    append_statements(&mut statements, spec_statements, Ghost(pf + pt), Ghost(ps));
    assert(pf + pt + ps =~= defines_plan(g));
    run_statements(db, statements, Ghost(defines_plan(g)))
}

/// Create has_clause relationships: from each function to each of its
/// clauses, one per function location.
pub fn create_has_clause_relationships<D: Database + ?Sized>(db: &D, graph: &CallGraph) -> (r: Result<usize, DbError>)
    ensures
        ran_in_order(db, has_clause_plan(*graph), r),
{
    let statements = has_clause_statements(graph);
    run_statements(db, statements, Ghost(has_clause_plan(*graph)))
}

/// Create has_field relationships: from each module to each field of its
/// struct.
pub fn create_has_field_relationships<D: Database + ?Sized>(db: &D, graph: &CallGraph) -> (r: Result<usize, DbError>)
    ensures
        ran_in_order(db, has_field_plan(*graph), r),
{
    let statements = has_field_statements(graph);
    run_statements(db, statements, Ghost(has_field_plan(*graph)))
}

/// The phases of an import, in the order they run: modules, functions,
/// clauses, calls, fields, specs, types, then the `defines`, `has_clause` and
/// `has_field` relations, then the call counts.
pub open spec fn import_phases(g: CallGraph) -> Seq<Seq<PlannedStatement>> {
    seq![
        modules_plan(g),
        functions_plan(g),
        clauses_plan(g),
        calls_plan(g),
        fields_plan(g),
        specs_plan(g),
        types_plan(g),
        defines_plan(g),
        has_clause_plan(g),
        has_field_plan(g),
        call_counts_plan(),
    ]
}

/// Every statement of the phase succeeded.
pub open spec fn phase_done<D: Database + ?Sized>(db: &D, plan: Seq<PlannedStatement>) -> bool {
    forall|m: int| 0 <= m < plan.len() ==> ran_ok(db, #[trigger] plan[m])
}

/// A finished import: every phase ran through, and the result counts the
/// records of each kind.
pub open spec fn import_completed<D: Database + ?Sized>(db: &D, g: CallGraph, res: ImportResult) -> bool {
    &&& schema_result_sorts(db, res.schemas)
    &&& !res.cleared
    &&& forall|k: int| 0 <= k < import_phases(g).len() ==> phase_done(db, #[trigger] import_phases(g)[k])
    &&& res.modules_imported == modules_plan(g).len()
    &&& res.functions_imported == functions_plan(g).len()
    &&& res.function_locations_imported == clauses_plan(g).len()
    &&& res.calls_imported == calls_plan(g).len()
    &&& res.structs_imported == fields_plan(g).len()
    &&& res.specs_imported == specs_plan(g).len()
    &&& res.types_imported == types_plan(g).len()
}

/// A stopped import: the schemas could not be created, or a phase failed
/// with `e` after every earlier phase ran through.
pub open spec fn import_stopped<D: Database + ?Sized>(db: &D, g: CallGraph, e: DbError) -> bool {
    ||| schema_failed(db, e)
    ||| exists|j: int| 0 <= j < import_phases(g).len()
        && (forall|k: int| 0 <= k < j ==> phase_done(db, #[trigger] import_phases(g)[k]))
        && #[trigger] ran_in_order(db, import_phases(g)[j], Err(e))
}

proof fn lemma_phase_ok<D: Database + ?Sized>(db: &D, plan: Seq<PlannedStatement>, n: usize)
    requires
        ran_in_order(db, plan, Ok(n)),
    ensures
        phase_done(db, plan),
        n == plan.len(),
{
}

/// Import a parsed call graph into the database: create the schemas, then run
/// the phases in order, stopping at the first failure.
pub fn import_graph<D: Database + ?Sized>(db: &D, graph: &CallGraph) -> (r: Result<ImportResult, DbError>)
    ensures
        r matches Ok(res) ==> import_completed(db, *graph, res),
        r matches Err(e) ==> import_stopped(db, *graph, e),
{
    let ghost g = *graph;
    let ghost ph = import_phases(g);
    let schemas = match create_schema(db) {
        Ok(s) => s,
        Err(e) => return Err(e),
    };
    let modules_imported = match import_modules(db, graph) {
        Ok(n) => n,
        Err(e) => {
            assert(ph[0] == modules_plan(g));
            assert(ran_in_order(db, ph[0], Err(e)));
            return Err(e);
        },
    };
    proof {
        assert(ph[0] == modules_plan(g));
        lemma_phase_ok(db, ph[0], modules_imported);
    }
    let functions_imported = match import_functions(db, graph) {
        Ok(n) => n,
        Err(e) => {
            assert(ph[1] == functions_plan(g));
            assert(ran_in_order(db, ph[1], Err(e)));
            return Err(e);
        },
    };
    proof {
        assert(ph[1] == functions_plan(g));
        lemma_phase_ok(db, ph[1], functions_imported);
    }
    let function_locations_imported = match import_function_locations(db, graph) {
        Ok(n) => n,
        Err(e) => {
            assert(ph[2] == clauses_plan(g));
            assert(ran_in_order(db, ph[2], Err(e)));
            return Err(e);
        },
    };
    proof {
        assert(ph[2] == clauses_plan(g));
        lemma_phase_ok(db, ph[2], function_locations_imported);
    }
    let calls_imported = match import_calls(db, graph) {
        Ok(n) => n,
        Err(e) => {
            assert(ph[3] == calls_plan(g));
            assert(ran_in_order(db, ph[3], Err(e)));
            return Err(e);
        },
    };
    proof {
        assert(ph[3] == calls_plan(g));
        lemma_phase_ok(db, ph[3], calls_imported);
    }
    let structs_imported = match import_structs(db, graph) {
        Ok(n) => n,
        Err(e) => {
            assert(ph[4] == fields_plan(g));
            assert(ran_in_order(db, ph[4], Err(e)));
            return Err(e);
        },
    };
    proof {
        assert(ph[4] == fields_plan(g));
        lemma_phase_ok(db, ph[4], structs_imported);
    }
    let specs_imported = match import_specs(db, graph) {
        Ok(n) => n,
        Err(e) => {
            assert(ph[5] == specs_plan(g));
            assert(ran_in_order(db, ph[5], Err(e)));
            return Err(e);
        },
    };
    proof {
        assert(ph[5] == specs_plan(g));
        lemma_phase_ok(db, ph[5], specs_imported);
    }
    let types_imported = match import_types(db, graph) {
        Ok(n) => n,
        Err(e) => {
            assert(ph[6] == types_plan(g));
            assert(ran_in_order(db, ph[6], Err(e)));
            return Err(e);
        },
    };
    proof {
        assert(ph[6] == types_plan(g));
        lemma_phase_ok(db, ph[6], types_imported);
    }
    let defines = match create_defines_relationships(db, graph) {
        Ok(n) => n,
        Err(e) => {
            assert(ph[7] == defines_plan(g));
            assert(ran_in_order(db, ph[7], Err(e)));
            return Err(e);
        },
    };
    proof {
        assert(ph[7] == defines_plan(g));
        lemma_phase_ok(db, ph[7], defines);
    }
    let has_clause = match create_has_clause_relationships(db, graph) {
        Ok(n) => n,
        Err(e) => {
            assert(ph[8] == has_clause_plan(g));
            assert(ran_in_order(db, ph[8], Err(e)));
            return Err(e);
        },
    };
    proof {
        assert(ph[8] == has_clause_plan(g));
        lemma_phase_ok(db, ph[8], has_clause);
    }
    let has_field = match create_has_field_relationships(db, graph) {
        Ok(n) => n,
        Err(e) => {
            assert(ph[9] == has_field_plan(g));
            assert(ran_in_order(db, ph[9], Err(e)));
            return Err(e);
        },
    };
    proof {
        assert(ph[9] == has_field_plan(g));
        lemma_phase_ok(db, ph[9], has_field);
    }
    match update_call_counts(db) {
        Ok(_) => {},
        Err(e) => {
            assert(ph[10] == call_counts_plan());
            assert(ran_in_order(db, ph[10], Err(e)));
            return Err(e);
        },
    }
    proof {
        assert(ph[10] == call_counts_plan());
        lemma_phase_ok(db, ph[10], 2);
    }
    Ok(ImportResult {
        schemas,
        cleared: false,
        modules_imported,
        functions_imported,
        calls_imported,
        structs_imported,
        function_locations_imported,
        specs_imported,
        types_imported,
    })
}


/// How a function reference reads: "name/arity" splits at the last `/` into
/// the name and the arity (0 where the arity does not parse); without a `/`
/// the whole text is the name and the arity is 0.
pub open spec fn function_ref_parts(s: Seq<char>) -> (Seq<char>, int) {
    match last_index_of(s, '/') {
        Some(p) => (s.take(p), match parse_i64_spec(s.skip(p + 1)) {
            Some(v) => v,
            None => 0,
        }),
        None => (s, 0),
    }
}

/// Parse a function reference that may be "name" or "name/arity" format
/// Returns (function_name, arity) - arity defaults to 0 if not specified
pub fn parse_function_ref(func_ref: &str) -> (r: (String, i64))
    ensures
        r.0@ == function_ref_parts(func_ref@).0,
        r.1 as int == function_ref_parts(func_ref@).1,
{
    let v = chars_of(func_ref);
    match rfind_char(&v, '/') {
        Some(slash_pos) => {
            proof { lemma_last_index_of(v@, '/'); }
            let name = slice_chars(&v, 0, slash_pos);
            let arity_chars = slice_chars(&v, slash_pos + 1, v.len());
            assert(name@ =~= func_ref@.take(slash_pos as int));
            assert(arity_chars@ =~= func_ref@.skip(slash_pos + 1));
            let arity = match parse_i64(&arity_chars) {
                Some(a) => a,
                None => 0,
            };
            (crate::text::string_of(&name), arity)
        },
        None => (func_ref.to_owned(), 0),
    }
}

/// Writing a name (without `/`) and an arity as "name/arity" and reading it
/// back gives the name and the arity.
pub proof fn lemma_function_ref_round_trip(name: Seq<char>, arity: i64)
    requires
        forall|i: int| 0 <= i < name.len() ==> name[i] != '/',
    ensures
        function_ref_parts(name + seq!['/'] + decimal_int(arity as int)) == (name, arity as int),
{
    let s = name + seq!['/'] + decimal_int(arity as int);
    let d = decimal_int(arity as int);
    lemma_parse_decimal(arity);
    lemma_last_index_of(s, '/');
    assert forall|j: int| name.len() < j < s.len() implies s[j] != '/' by {
        assert(s[j] == d[j - name.len() - 1]);
        lemma_decimal_no_slash(arity as int, j - name.len() - 1);
    }
    assert(s[name.len() as int] == '/');
    match last_index_of(s, '/') {
        Some(p) => {
            if p < name.len() {
                assert(s[p] == name[p]);
            }
            assert(p == name.len());
            assert(s.take(p) =~= name);
            assert(s.skip(p + 1) =~= d);
        },
        None => {},
    }
}

proof fn lemma_decimal_no_slash(n: int, k: int)
    requires
        0 <= k < decimal_int(n).len(),
    ensures
        decimal_int(n)[k] != '/',
{
    if n < 0 {
        if k > 0 {
            lemma_decimal_nat_digits((-n) as nat, k - 1);
        }
    } else {
        lemma_decimal_nat_digits(n as nat, k);
    }
}

proof fn lemma_decimal_nat_digits(n: nat, k: int)
    requires
        0 <= k < crate::text::decimal_nat(n).len(),
    ensures
        crate::text::digit_value(crate::text::decimal_nat(n)[k]) is Some,
    decreases n,
{
    if n >= 10 {
        let d = crate::text::decimal_nat((n / 10) as nat);
        if k < d.len() {
            lemma_decimal_nat_digits((n / 10) as nat, k);
        }
    }
}

} // verus!
