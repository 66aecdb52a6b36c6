//! The statements an import runs: their texts, the parameters each binds,
//! and the running of a list of them in order.

use vstd::prelude::*;
use crate::backend::{Database, ParamView, QueryParams, QueryResult};
use crate::db::DbError;
use crate::queries::import::{function_ref_parts, parse_function_ref};
use crate::queries::import_models::{
    CallRecord, FunctionLocationDef, SpecClause, SpecDef, StructField, TypeDef, call_line_of,
    caller_function_of, caller_function_text, opt_text, per_module, text_or_empty,
};
use crate::text::{copy_strings, join_strings, joined, string_views};

verus! {

/// Statement text: function.
pub const FUNCTION_STATEMENT: &'static str = r#"
                CREATE functions:[$module_name, $name, $arity] SET
                    module_name = $module_name,
                    name = $name,
                    arity = $arity,
                    kind = $kind,
                    file = $file,
                    start_line = $start_line;
            "#;

/// Statement text: call.
pub const CALL_STATEMENT: &'static str = r#"
            LET $clause = (
                SELECT id FROM clauses
                WHERE module_name = $caller_module
                  AND function_name = $caller_name
                  AND start_line <= $call_line
                  AND end_line >= $call_line
                LIMIT 1
            );
            RELATE functions:[$caller_module, $caller_name, $caller_arity]
                ->calls->
                functions:[$callee_module, $callee_name, $callee_arity]
            SET
                call_type = $call_type,
                caller_kind = $caller_kind,
                file = $file,
                line = $line,
                caller_clause_id = $clause[0].id;
        "#;

/// Statement text: incoming count.
pub const INCOMING_COUNT_STATEMENT: &'static str = r#"
        UPDATE functions SET incoming_call_count = (
            SELECT count() FROM calls WHERE out = $parent.id GROUP ALL
        )[0].count ?? 0
    "#;

/// Statement text: outgoing count.
pub const OUTGOING_COUNT_STATEMENT: &'static str = r#"
        UPDATE functions SET outgoing_call_count = (
            SELECT count() FROM calls WHERE in = $parent.id GROUP ALL
        )[0].count ?? 0
    "#;

/// Statement text: field.
pub const FIELD_STATEMENT: &'static str = r#"
                CREATE fields:[$module_name, $name] SET
                    module_name = $module_name,
                    name = $name,
                    default_value = $default_value,
                    required = $required;
            "#;

/// Statement text: clause.
pub const CLAUSE_STATEMENT: &'static str = r#"
                CREATE clauses:[$module_name, $function_name, $arity, $line] SET
                    module_name = $module_name,
                    function_name = $function_name,
                    arity = $arity,
                    line = $line,
                    source_file = $source_file,
                    source_file_absolute = $source_file_absolute,
                    kind = $kind,
                    start_line = $start_line,
                    end_line = $end_line,
                    pattern = $pattern,
                    guard = $guard,
                    source_sha = $source_sha,
                    ast_sha = $ast_sha,
                    complexity = $complexity,
                    max_nesting_depth = $max_nesting_depth,
                    generated_by = $generated_by,
                    macro_source = $macro_source;
            "#;

/// Statement text: spec.
pub const SPEC_STATEMENT: &'static str = r#"
                    CREATE specs:[$module_name, $function_name, $arity, $clause_index] SET
                        module_name = $module_name,
                        function_name = $function_name,
                        arity = $arity,
                        kind = $kind,
                        line = $line,
                        clause_index = $clause_index,
                        input_strings = $input_strings,
                        return_strings = $return_strings,
                        full = $full;
                "#;

/// Statement text: type.
pub const TYPE_STATEMENT: &'static str = r#"
                CREATE types:[$module_name, $name] SET
                    module_name = $module_name,
                    name = $name,
                    kind = $kind,
                    params = $params,
                    line = $line,
                    definition = $definition;
            "#;

/// Statement text: defines function.
pub const DEFINES_FUNCTION_STATEMENT: &'static str = r#"
                RELATE modules:[$module_name]
                    ->defines->
                    functions:[$module_name, $name, $arity];
            "#;

/// Statement text: defines type.
pub const DEFINES_TYPE_STATEMENT: &'static str = r#"
                RELATE modules:[$module_name]
                    ->defines->
                    types:[$module_name, $name];
            "#;

/// Statement text: defines spec.
pub const DEFINES_SPEC_STATEMENT: &'static str = r#"
                    RELATE modules:[$module_name]
                        ->defines->
                        specs:[$module_name, $function_name, $arity, $clause_index];
                "#;

/// Statement text: has clause.
pub const HAS_CLAUSE_STATEMENT: &'static str = r#"
                RELATE functions:[$module_name, $function_name, $arity]
                    ->has_clause->
                    clauses:[$module_name, $function_name, $arity, $line];
            "#;

/// Statement text: has field.
pub const HAS_FIELD_STATEMENT: &'static str = r#"
                RELATE modules:[$module_name]
                    ->has_field->
                    fields:[$module_name, $field_name];
            "#;

/// Statement text: module.
pub const MODULE_STATEMENT: &'static str = r#"CREATE modules:[$name] SET name = $name, file = "", source = "unknown";"#;

/// The parameters of a module statement.
pub open spec fn module_map(module: Seq<char>) -> Map<Seq<char>, ParamView> {
    Map::empty()
        .insert("name"@, ParamView::Str(module))
}

pub(crate) fn module_params(module: &str) -> (r: QueryParams)
    ensures
        r.binds_exactly(module_map(module@)),
{
    QueryParams::new()
        .with_str("name", module)
}

/// The parameters of a function statement.
pub open spec fn function_map(module: String, loc: FunctionLocationDef) -> Map<Seq<char>, ParamView> {
    Map::empty()
        .insert("module_name"@, ParamView::Str(module@))
        .insert("name"@, ParamView::Str(loc.name@))
        .insert("arity"@, ParamView::Int(loc.arity))
        .insert("kind"@, ParamView::Str(loc.kind@))
        .insert("file"@, ParamView::Str(opt_text(loc.file)))
        .insert("start_line"@, ParamView::Int(loc.start_line))
}

pub(crate) fn function_params(module: &String, loc: &FunctionLocationDef) -> (r: QueryParams)
    ensures
        r.binds_exactly(function_map(*module, *loc)),
{
    QueryParams::new()
        .with_str("module_name", module.as_str())
        .with_str("name", loc.name.as_str())
        .with_int("arity", loc.arity)
        .with_str("kind", loc.kind.as_str())
        .with_str("file", text_or_empty(&loc.file))
        .with_int("start_line", loc.start_line)
}

/// The parameters of a clause statement.
pub open spec fn clause_map(module: String, loc: FunctionLocationDef) -> Map<Seq<char>, ParamView> {
    Map::empty()
        .insert("module_name"@, ParamView::Str(module@))
        .insert("function_name"@, ParamView::Str(loc.name@))
        .insert("arity"@, ParamView::Int(loc.arity))
        .insert("line"@, ParamView::Int(loc.line))
        .insert("source_file"@, ParamView::Str(opt_text(loc.file)))
        .insert("source_file_absolute"@, ParamView::Str(opt_text(loc.source_file_absolute)))
        .insert("kind"@, ParamView::Str(loc.kind@))
        .insert("start_line"@, ParamView::Int(loc.start_line))
        .insert("end_line"@, ParamView::Int(loc.end_line))
        .insert("pattern"@, ParamView::Str(opt_text(loc.pattern)))
        .insert("guard"@, ParamView::Str(opt_text(loc.guard)))
        .insert("source_sha"@, ParamView::Str(opt_text(loc.source_sha)))
        .insert("ast_sha"@, ParamView::Str(opt_text(loc.ast_sha)))
        .insert("complexity"@, ParamView::Int(loc.complexity))
        .insert("max_nesting_depth"@, ParamView::Int(loc.max_nesting_depth))
        .insert("generated_by"@, ParamView::Str(opt_text(loc.generated_by)))
        .insert("macro_source"@, ParamView::Str(opt_text(loc.macro_source)))
}

pub(crate) fn clause_params(module: &String, loc: &FunctionLocationDef) -> (r: QueryParams)
    ensures
        r.binds_exactly(clause_map(*module, *loc)),
{
    QueryParams::new()
        .with_str("module_name", module.as_str())
        .with_str("function_name", loc.name.as_str())
        .with_int("arity", loc.arity)
        .with_int("line", loc.line)
        .with_str("source_file", text_or_empty(&loc.file))
        .with_str("source_file_absolute", text_or_empty(&loc.source_file_absolute))
        .with_str("kind", loc.kind.as_str())
        .with_int("start_line", loc.start_line)
        .with_int("end_line", loc.end_line)
        .with_str("pattern", text_or_empty(&loc.pattern))
        .with_str("guard", text_or_empty(&loc.guard))
        .with_str("source_sha", text_or_empty(&loc.source_sha))
        .with_str("ast_sha", text_or_empty(&loc.ast_sha))
        .with_int("complexity", loc.complexity)
        .with_int("max_nesting_depth", loc.max_nesting_depth)
        .with_str("generated_by", text_or_empty(&loc.generated_by))
        .with_str("macro_source", text_or_empty(&loc.macro_source))
}

/// The parameters of a field statement.
pub open spec fn field_map(module: String, f: StructField) -> Map<Seq<char>, ParamView> {
    Map::empty()
        .insert("module_name"@, ParamView::Str(module@))
        .insert("name"@, ParamView::Str(f.field@))
        .insert("default_value"@, ParamView::Str(f.default@))
        .insert("required"@, ParamView::Bool(f.required))
}

pub(crate) fn field_params(module: &String, f: &StructField) -> (r: QueryParams)
    ensures
        r.binds_exactly(field_map(*module, *f)),
{
    QueryParams::new()
        .with_str("module_name", module.as_str())
        .with_str("name", f.field.as_str())
        .with_str("default_value", f.default.as_str())
        .with_bool("required", f.required)
}

/// The parameters of a spec statement.
pub open spec fn spec_map(module: String, s: SpecDef, index: int, c: SpecClause) -> Map<Seq<char>, ParamView> {
    Map::empty()
        .insert("module_name"@, ParamView::Str(module@))
        .insert("function_name"@, ParamView::Str(s.name@))
        .insert("arity"@, ParamView::Int(s.arity))
        .insert("kind"@, ParamView::Str(s.kind@))
        .insert("line"@, ParamView::Int(s.line))
        .insert("clause_index"@, ParamView::Int(index as i64))
        .insert("input_strings"@, ParamView::StrArray(string_views(c.input_strings@)))
        .insert("return_strings"@, ParamView::StrArray(string_views(c.return_strings@)))
        .insert("full"@, ParamView::Str(c.full@))
}

pub(crate) fn spec_params(module: &String, s: &SpecDef, index: usize, c: &SpecClause) -> (r: QueryParams)
    ensures
        r.binds_exactly(spec_map(*module, *s, index as int, *c)),
{
    QueryParams::new()
        .with_str("module_name", module.as_str())
        .with_str("function_name", s.name.as_str())
        .with_int("arity", s.arity)
        .with_str("kind", s.kind.as_str())
        .with_int("line", s.line)
        .with_int("clause_index", index as i64)
        .with_str_array("input_strings", copy_strings(&c.input_strings))
        .with_str_array("return_strings", copy_strings(&c.return_strings))
        .with_str("full", c.full.as_str())
}

/// The parameters of a type statement.
pub open spec fn type_map(module: String, t: TypeDef) -> Map<Seq<char>, ParamView> {
    Map::empty()
        .insert("module_name"@, ParamView::Str(module@))
        .insert("name"@, ParamView::Str(t.name@))
        .insert("kind"@, ParamView::Str(t.kind@))
        .insert("params"@, ParamView::Str(joined(string_views(t.params@), ", "@)))
        .insert("line"@, ParamView::Int(t.line))
        .insert("definition"@, ParamView::Str(t.definition@))
}

pub(crate) fn type_params(module: &String, t: &TypeDef) -> (r: QueryParams)
    ensures
        r.binds_exactly(type_map(*module, *t)),
{
    QueryParams::new()
        .with_str("module_name", module.as_str())
        .with_str("name", t.name.as_str())
        .with_str("kind", t.kind.as_str())
        .with_str("params", join_strings(&t.params, ", ").as_str())
        .with_int("line", t.line)
        .with_str("definition", t.definition.as_str())
}

/// The parameters of a defines function statement.
pub open spec fn defines_function_map(module: String, s: SpecDef) -> Map<Seq<char>, ParamView> {
    Map::empty()
        .insert("module_name"@, ParamView::Str(module@))
        .insert("name"@, ParamView::Str(s.name@))
        .insert("arity"@, ParamView::Int(s.arity))
}

pub(crate) fn defines_function_params(module: &String, s: &SpecDef) -> (r: QueryParams)
    ensures
        r.binds_exactly(defines_function_map(*module, *s)),
{
    QueryParams::new()
        .with_str("module_name", module.as_str())
        .with_str("name", s.name.as_str())
        .with_int("arity", s.arity)
}

/// The parameters of a defines type statement.
pub open spec fn defines_type_map(module: String, t: TypeDef) -> Map<Seq<char>, ParamView> {
    Map::empty()
        .insert("module_name"@, ParamView::Str(module@))
        .insert("name"@, ParamView::Str(t.name@))
}

pub(crate) fn defines_type_params(module: &String, t: &TypeDef) -> (r: QueryParams)
    ensures
        r.binds_exactly(defines_type_map(*module, *t)),
{
    QueryParams::new()
        .with_str("module_name", module.as_str())
        .with_str("name", t.name.as_str())
}

/// The parameters of a defines spec statement.
pub open spec fn defines_spec_map(module: String, s: SpecDef, index: int, c: SpecClause) -> Map<Seq<char>, ParamView> {
    Map::empty()
        .insert("module_name"@, ParamView::Str(module@))
        .insert("function_name"@, ParamView::Str(s.name@))
        .insert("arity"@, ParamView::Int(s.arity))
        .insert("clause_index"@, ParamView::Int(index as i64))
}

pub(crate) fn defines_spec_params(module: &String, s: &SpecDef, index: usize, c: &SpecClause) -> (r: QueryParams)
    ensures
        r.binds_exactly(defines_spec_map(*module, *s, index as int, *c)),
{
    QueryParams::new()
        .with_str("module_name", module.as_str())
        .with_str("function_name", s.name.as_str())
        .with_int("arity", s.arity)
        .with_int("clause_index", index as i64)
}

/// The parameters of a has clause statement.
pub open spec fn has_clause_map(module: String, loc: FunctionLocationDef) -> Map<Seq<char>, ParamView> {
    Map::empty()
        .insert("module_name"@, ParamView::Str(module@))
        .insert("function_name"@, ParamView::Str(loc.name@))
        .insert("arity"@, ParamView::Int(loc.arity))
        .insert("line"@, ParamView::Int(loc.line))
}

pub(crate) fn has_clause_params(module: &String, loc: &FunctionLocationDef) -> (r: QueryParams)
    ensures
        r.binds_exactly(has_clause_map(*module, *loc)),
{
    QueryParams::new()
        .with_str("module_name", module.as_str())
        .with_str("function_name", loc.name.as_str())
        .with_int("arity", loc.arity)
        .with_int("line", loc.line)
}

/// The parameters of a has field statement.
pub open spec fn has_field_map(module: String, f: StructField) -> Map<Seq<char>, ParamView> {
    Map::empty()
        .insert("module_name"@, ParamView::Str(module@))
        .insert("field_name"@, ParamView::Str(f.field@))
}

pub(crate) fn has_field_params(module: &String, f: &StructField) -> (r: QueryParams)
    ensures
        r.binds_exactly(has_field_map(*module, *f)),
{
    QueryParams::new()
        .with_str("module_name", module.as_str())
        .with_str("field_name", f.field.as_str())
}

/// The parameters of a call statement.
pub open spec fn call_map(c: CallRecord) -> Map<Seq<char>, ParamView> {
    Map::empty()
        .insert("caller_module"@, ParamView::Str(c.caller.module@))
        .insert("caller_name"@, ParamView::Str(function_ref_parts(caller_function_text(c)).0))
        .insert("caller_arity"@, ParamView::Int(function_ref_parts(caller_function_text(c)).1 as i64))
        .insert("callee_module"@, ParamView::Str(c.callee.module@))
        .insert("callee_name"@, ParamView::Str(c.callee.function@))
        .insert("callee_arity"@, ParamView::Int(c.callee.arity))
        .insert("call_type"@, ParamView::Str(c.call_type@))
        .insert("caller_kind"@, ParamView::Str(opt_text(c.caller.kind)))
        .insert("file"@, ParamView::Str(c.caller.file@))
        .insert("line"@, ParamView::Int(call_line_of(c)))
        .insert("call_line"@, ParamView::Int(call_line_of(c)))
}

pub(crate) fn call_params(c: &CallRecord) -> (r: QueryParams)
    ensures
        r.binds_exactly(call_map(*c)),
{
    let parts = parse_function_ref(caller_function_of(c));
    let call_line = match c.caller.line {
        Some(l) => l,
        None => 0,
    };
    QueryParams::new()
        .with_str("caller_module", c.caller.module.as_str())
        .with_str("caller_name", parts.0.as_str())
        .with_int("caller_arity", parts.1)
        .with_str("callee_module", c.callee.module.as_str())
        .with_str("callee_name", c.callee.function.as_str())
        .with_int("callee_arity", c.callee.arity)
        .with_str("call_type", c.call_type.as_str())
        .with_str("caller_kind", text_or_empty(&c.caller.kind))
        .with_str("file", c.caller.file.as_str())
        .with_int("line", call_line)
        .with_int("call_line", call_line)
}

/// A statement to run: its text and its parameters.
pub struct Statement {
    pub text: &'static str,
    pub params: QueryParams,
}

/// A planned statement: its text and the parameters it binds.
pub type PlannedStatement = (Seq<char>, Map<Seq<char>, ParamView>);

/// The statements are the planned ones, in order.
pub open spec fn statements_fit(stmts: Seq<Statement>, plan: Seq<PlannedStatement>) -> bool {
    &&& stmts.len() == plan.len()
    &&& forall|k: int| 0 <= k < stmts.len() ==> (#[trigger] stmts[k]).text@ == plan[k].0 && stmts[k].params.binds_exactly(plan[k].1)
}

/// The backend may answer the planned statement with success.
pub open spec fn ran_ok<D: Database + ?Sized>(db: &D, st: PlannedStatement) -> bool {
    exists|p: QueryParams, res: QueryResult| p.binds_exactly(st.1) && #[trigger] db.answers(st.0, p, Ok(res))
}

/// The backend may answer the planned statement with the failure `e`.
pub open spec fn ran_err<D: Database + ?Sized>(db: &D, st: PlannedStatement, e: DbError) -> bool {
    exists|p: QueryParams| p.binds_exactly(st.1) && #[trigger] db.answers(st.0, p, Err(e))
}

/// The planned statements ran in order: all succeeded and their number is
/// returned, or the first failure is returned after the ones before it
/// succeeded.
pub open spec fn ran_in_order<D: Database + ?Sized>(db: &D, plan: Seq<PlannedStatement>, r: Result<usize, DbError>) -> bool {
    match r {
        Ok(n) => n == plan.len() && forall|k: int| 0 <= k < plan.len() ==> ran_ok(db, #[trigger] plan[k]),
        Err(e) => exists|j: int| 0 <= j < plan.len()
            && (forall|k: int| 0 <= k < j ==> ran_ok(db, #[trigger] plan[k]))
            && ran_err(db, plan[j], e),
    }
}

/// Runs the statements in order, stopping at the first failure.
pub fn run_statements<D: Database + ?Sized>(db: &D, statements: Vec<Statement>, Ghost(plan): Ghost<Seq<PlannedStatement>>) -> (r: Result<usize, DbError>)
    requires
        statements_fit(statements@, plan),
    ensures
        ran_in_order(db, plan, r),
{
    let mut rest = statements;
    let mut count: usize = 0;
    let ghost total = plan.len();
    let ghost n = rest.len();
    assert(total == n);
    while rest.len() > 0
        invariant
            count <= total,
            total <= usize::MAX,
            total == plan.len(),
            rest@.len() == total - count,
            forall|k: int| 0 <= k < rest@.len() ==> (#[trigger] rest@[k]).text@ == plan[count + k].0 && rest@[k].params.binds_exactly(plan[count + k].1),
            forall|k: int| 0 <= k < count ==> ran_ok(db, #[trigger] plan[k]),
        decreases rest@.len(),
    {
        let ghost old_rest = rest@;
        let st = rest.remove(0);
        proof {
            assert(st == old_rest[0]);
            assert forall|k: int| 0 <= k < rest@.len() implies (#[trigger] rest@[k]).text@ == plan[count + 1 + k].0 && rest@[k].params.binds_exactly(plan[count + 1 + k].1) by {
                assert(rest@[k] == old_rest[k + 1]);
            }
        }
        let ghost gp = st.params;
        match db.execute_query(st.text, st.params) {
            Ok(res) => {
                proof {
                    assert(db.answers(plan[count as int].0, gp, Ok(res)));
                    assert(ran_ok(db, plan[count as int]));
                }
                count = count + 1;
            },
            Err(e) => {
                proof {
                    assert(db.answers(plan[count as int].0, gp, Err(e)));
                    assert(ran_err(db, plan[count as int], e));
                }
                return Err(e);
            },
        }
    }
    Ok(count)
}

pub proof fn lemma_per_module_take<T>(entries: Seq<(String, Vec<T>)>, i: int)
    requires
        0 <= i < entries.len(),
    ensures
        per_module(entries.take(i + 1)) == per_module(entries.take(i)) + entries[i].1@.map_values(|x: T| (entries[i].0, x)),
{
    assert(entries.take(i + 1).drop_last() =~= entries.take(i));
}

/// A statement binds each of its parameters to the field of that name of the record it stores, and nothing else.
pub proof fn lemma_function_map_binds_fields(module: String, loc: FunctionLocationDef)
    ensures
        ({
            let m = function_map(module, loc);
            &&& m.dom() == set!["module_name"@, "name"@, "arity"@, "kind"@, "file"@, "start_line"@]
            &&& m["module_name"@] == ParamView::Str(module@)
            &&& m["name"@] == ParamView::Str(loc.name@)
            &&& m["arity"@] == ParamView::Int(loc.arity)
            &&& m["kind"@] == ParamView::Str(loc.kind@)
            &&& m["file"@] == ParamView::Str(opt_text(loc.file))
            &&& m["start_line"@] == ParamView::Int(loc.start_line)
        }),
{
    reveal_strlit("module_name");
    reveal_strlit("name");
    reveal_strlit("arity");
    reveal_strlit("kind");
    reveal_strlit("file");
    reveal_strlit("start_line");
    assert("module_name"@.len() != "name"@.len());
    assert("module_name"@.len() != "arity"@.len());
    assert("module_name"@.len() != "kind"@.len());
    assert("module_name"@.len() != "file"@.len());
    assert("module_name"@.len() != "start_line"@.len());
    assert("name"@.len() != "arity"@.len());
    assert("name"@[0] != "kind"@[0]);
    assert("name"@[0] != "file"@[0]);
    assert("name"@.len() != "start_line"@.len());
    assert("arity"@.len() != "kind"@.len());
    assert("arity"@.len() != "file"@.len());
    assert("arity"@.len() != "start_line"@.len());
    assert("kind"@[0] != "file"@[0]);
    assert("kind"@.len() != "start_line"@.len());
    assert("file"@.len() != "start_line"@.len());
    assert(function_map(module, loc).dom() =~= set!["module_name"@, "name"@, "arity"@, "kind"@, "file"@, "start_line"@]);
}

/// A statement binds each of its parameters to the field of that name of the record it stores, and nothing else.
pub proof fn lemma_clause_map_binds_fields(module: String, loc: FunctionLocationDef)
    ensures
        ({
            let m = clause_map(module, loc);
            &&& m.dom() == set!["module_name"@, "function_name"@, "arity"@, "line"@, "source_file"@, "source_file_absolute"@, "kind"@, "start_line"@, "end_line"@, "pattern"@, "guard"@, "source_sha"@, "ast_sha"@, "complexity"@, "max_nesting_depth"@, "generated_by"@, "macro_source"@]
            &&& m["module_name"@] == ParamView::Str(module@)
            &&& m["function_name"@] == ParamView::Str(loc.name@)
            &&& m["arity"@] == ParamView::Int(loc.arity)
            &&& m["line"@] == ParamView::Int(loc.line)
            &&& m["source_file"@] == ParamView::Str(opt_text(loc.file))
            &&& m["source_file_absolute"@] == ParamView::Str(opt_text(loc.source_file_absolute))
            &&& m["kind"@] == ParamView::Str(loc.kind@)
            &&& m["start_line"@] == ParamView::Int(loc.start_line)
            &&& m["end_line"@] == ParamView::Int(loc.end_line)
            &&& m["pattern"@] == ParamView::Str(opt_text(loc.pattern))
            &&& m["guard"@] == ParamView::Str(opt_text(loc.guard))
            &&& m["source_sha"@] == ParamView::Str(opt_text(loc.source_sha))
            &&& m["ast_sha"@] == ParamView::Str(opt_text(loc.ast_sha))
            &&& m["complexity"@] == ParamView::Int(loc.complexity)
            &&& m["max_nesting_depth"@] == ParamView::Int(loc.max_nesting_depth)
            &&& m["generated_by"@] == ParamView::Str(opt_text(loc.generated_by))
            &&& m["macro_source"@] == ParamView::Str(opt_text(loc.macro_source))
        }),
{
    reveal_strlit("module_name");
    reveal_strlit("function_name");
    reveal_strlit("arity");
    reveal_strlit("line");
    reveal_strlit("source_file");
    reveal_strlit("source_file_absolute");
    reveal_strlit("kind");
    reveal_strlit("start_line");
    reveal_strlit("end_line");
    reveal_strlit("pattern");
    reveal_strlit("guard");
    reveal_strlit("source_sha");
    reveal_strlit("ast_sha");
    reveal_strlit("complexity");
    reveal_strlit("max_nesting_depth");
    reveal_strlit("generated_by");
    reveal_strlit("macro_source");
    assert("module_name"@.len() != "function_name"@.len());
    assert("module_name"@.len() != "arity"@.len());
    assert("module_name"@.len() != "line"@.len());
    assert("module_name"@[0] != "source_file"@[0]);
    assert("module_name"@.len() != "source_file_absolute"@.len());
    assert("module_name"@.len() != "kind"@.len());
    assert("module_name"@.len() != "start_line"@.len());
    assert("module_name"@.len() != "end_line"@.len());
    assert("module_name"@.len() != "pattern"@.len());
    assert("module_name"@.len() != "guard"@.len());
    assert("module_name"@.len() != "source_sha"@.len());
    assert("module_name"@.len() != "ast_sha"@.len());
    assert("module_name"@.len() != "complexity"@.len());
    assert("module_name"@.len() != "max_nesting_depth"@.len());
    assert("module_name"@.len() != "generated_by"@.len());
    assert("module_name"@.len() != "macro_source"@.len());
    assert("function_name"@.len() != "arity"@.len());
    assert("function_name"@.len() != "line"@.len());
    assert("function_name"@.len() != "source_file"@.len());
    assert("function_name"@.len() != "source_file_absolute"@.len());
    assert("function_name"@.len() != "kind"@.len());
    assert("function_name"@.len() != "start_line"@.len());
    assert("function_name"@.len() != "end_line"@.len());
    assert("function_name"@.len() != "pattern"@.len());
    assert("function_name"@.len() != "guard"@.len());
    assert("function_name"@.len() != "source_sha"@.len());
    assert("function_name"@.len() != "ast_sha"@.len());
    assert("function_name"@.len() != "complexity"@.len());
    assert("function_name"@.len() != "max_nesting_depth"@.len());
    assert("function_name"@.len() != "generated_by"@.len());
    assert("function_name"@.len() != "macro_source"@.len());
    assert("arity"@.len() != "line"@.len());
    assert("arity"@.len() != "source_file"@.len());
    assert("arity"@.len() != "source_file_absolute"@.len());
    assert("arity"@.len() != "kind"@.len());
    assert("arity"@.len() != "start_line"@.len());
    assert("arity"@.len() != "end_line"@.len());
    assert("arity"@.len() != "pattern"@.len());
    assert("arity"@[0] != "guard"@[0]);
    assert("arity"@.len() != "source_sha"@.len());
    assert("arity"@.len() != "ast_sha"@.len());
    assert("arity"@.len() != "complexity"@.len());
    assert("arity"@.len() != "max_nesting_depth"@.len());
    assert("arity"@.len() != "generated_by"@.len());
    assert("arity"@.len() != "macro_source"@.len());
    assert("line"@.len() != "source_file"@.len());
    assert("line"@.len() != "source_file_absolute"@.len());
    assert("line"@[0] != "kind"@[0]);
    assert("line"@.len() != "start_line"@.len());
    assert("line"@.len() != "end_line"@.len());
    assert("line"@.len() != "pattern"@.len());
    assert("line"@.len() != "guard"@.len());
    assert("line"@.len() != "source_sha"@.len());
    assert("line"@.len() != "ast_sha"@.len());
    assert("line"@.len() != "complexity"@.len());
    assert("line"@.len() != "max_nesting_depth"@.len());
    assert("line"@.len() != "generated_by"@.len());
    assert("line"@.len() != "macro_source"@.len());
    assert("source_file"@.len() != "source_file_absolute"@.len());
    assert("source_file"@.len() != "kind"@.len());
    assert("source_file"@.len() != "start_line"@.len());
    assert("source_file"@.len() != "end_line"@.len());
    assert("source_file"@.len() != "pattern"@.len());
    assert("source_file"@.len() != "guard"@.len());
    assert("source_file"@.len() != "source_sha"@.len());
    assert("source_file"@.len() != "ast_sha"@.len());
    assert("source_file"@.len() != "complexity"@.len());
    assert("source_file"@.len() != "max_nesting_depth"@.len());
    assert("source_file"@.len() != "generated_by"@.len());
    assert("source_file"@.len() != "macro_source"@.len());
    assert("source_file_absolute"@.len() != "kind"@.len());
    assert("source_file_absolute"@.len() != "start_line"@.len());
    assert("source_file_absolute"@.len() != "end_line"@.len());
    assert("source_file_absolute"@.len() != "pattern"@.len());
    assert("source_file_absolute"@.len() != "guard"@.len());
    assert("source_file_absolute"@.len() != "source_sha"@.len());
    assert("source_file_absolute"@.len() != "ast_sha"@.len());
    assert("source_file_absolute"@.len() != "complexity"@.len());
    assert("source_file_absolute"@.len() != "max_nesting_depth"@.len());
    assert("source_file_absolute"@.len() != "generated_by"@.len());
    assert("source_file_absolute"@.len() != "macro_source"@.len());
    assert("kind"@.len() != "start_line"@.len());
    assert("kind"@.len() != "end_line"@.len());
    assert("kind"@.len() != "pattern"@.len());
    assert("kind"@.len() != "guard"@.len());
    assert("kind"@.len() != "source_sha"@.len());
    assert("kind"@.len() != "ast_sha"@.len());
    assert("kind"@.len() != "complexity"@.len());
    assert("kind"@.len() != "max_nesting_depth"@.len());
    assert("kind"@.len() != "generated_by"@.len());
    assert("kind"@.len() != "macro_source"@.len());
    assert("start_line"@.len() != "end_line"@.len());
    assert("start_line"@.len() != "pattern"@.len());
    assert("start_line"@.len() != "guard"@.len());
    assert("start_line"@[1] != "source_sha"@[1]);
    assert("start_line"@.len() != "ast_sha"@.len());
    assert("start_line"@[0] != "complexity"@[0]);
    assert("start_line"@.len() != "max_nesting_depth"@.len());
    assert("start_line"@.len() != "generated_by"@.len());
    assert("start_line"@.len() != "macro_source"@.len());
    assert("end_line"@.len() != "pattern"@.len());
    assert("end_line"@.len() != "guard"@.len());
    assert("end_line"@.len() != "source_sha"@.len());
    assert("end_line"@.len() != "ast_sha"@.len());
    assert("end_line"@.len() != "complexity"@.len());
    assert("end_line"@.len() != "max_nesting_depth"@.len());
    assert("end_line"@.len() != "generated_by"@.len());
    assert("end_line"@.len() != "macro_source"@.len());
    assert("pattern"@.len() != "guard"@.len());
    assert("pattern"@.len() != "source_sha"@.len());
    assert("pattern"@[0] != "ast_sha"@[0]);
    assert("pattern"@.len() != "complexity"@.len());
    assert("pattern"@.len() != "max_nesting_depth"@.len());
    assert("pattern"@.len() != "generated_by"@.len());
    assert("pattern"@.len() != "macro_source"@.len());
    assert("guard"@.len() != "source_sha"@.len());
    assert("guard"@.len() != "ast_sha"@.len());
    assert("guard"@.len() != "complexity"@.len());
    assert("guard"@.len() != "max_nesting_depth"@.len());
    assert("guard"@.len() != "generated_by"@.len());
    assert("guard"@.len() != "macro_source"@.len());
    assert("source_sha"@.len() != "ast_sha"@.len());
    assert("source_sha"@[0] != "complexity"@[0]);
    assert("source_sha"@.len() != "max_nesting_depth"@.len());
    assert("source_sha"@.len() != "generated_by"@.len());
    assert("source_sha"@.len() != "macro_source"@.len());
    assert("ast_sha"@.len() != "complexity"@.len());
    assert("ast_sha"@.len() != "max_nesting_depth"@.len());
    assert("ast_sha"@.len() != "generated_by"@.len());
    assert("ast_sha"@.len() != "macro_source"@.len());
    assert("complexity"@.len() != "max_nesting_depth"@.len());
    assert("complexity"@.len() != "generated_by"@.len());
    assert("complexity"@.len() != "macro_source"@.len());
    assert("max_nesting_depth"@.len() != "generated_by"@.len());
    assert("max_nesting_depth"@.len() != "macro_source"@.len());
    assert("generated_by"@[0] != "macro_source"@[0]);
    assert(clause_map(module, loc).dom() =~= set!["module_name"@, "function_name"@, "arity"@, "line"@, "source_file"@, "source_file_absolute"@, "kind"@, "start_line"@, "end_line"@, "pattern"@, "guard"@, "source_sha"@, "ast_sha"@, "complexity"@, "max_nesting_depth"@, "generated_by"@, "macro_source"@]);
}

/// A statement binds each of its parameters to the field of that name of the record it stores, and nothing else.
pub proof fn lemma_field_map_binds_fields(module: String, f: StructField)
    ensures
        ({
            let m = field_map(module, f);
            &&& m.dom() == set!["module_name"@, "name"@, "default_value"@, "required"@]
            &&& m["module_name"@] == ParamView::Str(module@)
            &&& m["name"@] == ParamView::Str(f.field@)
            &&& m["default_value"@] == ParamView::Str(f.default@)
            &&& m["required"@] == ParamView::Bool(f.required)
        }),
{
    reveal_strlit("module_name");
    reveal_strlit("name");
    reveal_strlit("default_value");
    reveal_strlit("required");
    assert("module_name"@.len() != "name"@.len());
    assert("module_name"@.len() != "default_value"@.len());
    assert("module_name"@.len() != "required"@.len());
    assert("name"@.len() != "default_value"@.len());
    assert("name"@.len() != "required"@.len());
    assert("default_value"@.len() != "required"@.len());
    assert(field_map(module, f).dom() =~= set!["module_name"@, "name"@, "default_value"@, "required"@]);
}

/// A statement binds each of its parameters to the field of that name of the record it stores, and nothing else.
pub proof fn lemma_spec_map_binds_fields(module: String, s: SpecDef, index: int, c: SpecClause)
    ensures
        ({
            let m = spec_map(module, s, index, c);
            &&& m.dom() == set!["module_name"@, "function_name"@, "arity"@, "kind"@, "line"@, "clause_index"@, "input_strings"@, "return_strings"@, "full"@]
            &&& m["module_name"@] == ParamView::Str(module@)
            &&& m["function_name"@] == ParamView::Str(s.name@)
            &&& m["arity"@] == ParamView::Int(s.arity)
            &&& m["kind"@] == ParamView::Str(s.kind@)
            &&& m["line"@] == ParamView::Int(s.line)
            &&& m["clause_index"@] == ParamView::Int(index as i64)
            &&& m["input_strings"@] == ParamView::StrArray(string_views(c.input_strings@))
            &&& m["return_strings"@] == ParamView::StrArray(string_views(c.return_strings@))
            &&& m["full"@] == ParamView::Str(c.full@)
        }),
{
    reveal_strlit("module_name");
    reveal_strlit("function_name");
    reveal_strlit("arity");
    reveal_strlit("kind");
    reveal_strlit("line");
    reveal_strlit("clause_index");
    reveal_strlit("input_strings");
    reveal_strlit("return_strings");
    reveal_strlit("full");
    assert("module_name"@.len() != "function_name"@.len());
    assert("module_name"@.len() != "arity"@.len());
    assert("module_name"@.len() != "kind"@.len());
    assert("module_name"@.len() != "line"@.len());
    assert("module_name"@.len() != "clause_index"@.len());
    assert("module_name"@.len() != "input_strings"@.len());
    assert("module_name"@.len() != "return_strings"@.len());
    assert("module_name"@.len() != "full"@.len());
    assert("function_name"@.len() != "arity"@.len());
    assert("function_name"@.len() != "kind"@.len());
    assert("function_name"@.len() != "line"@.len());
    assert("function_name"@.len() != "clause_index"@.len());
    assert("function_name"@[0] != "input_strings"@[0]);
    assert("function_name"@.len() != "return_strings"@.len());
    assert("function_name"@.len() != "full"@.len());
    assert("arity"@.len() != "kind"@.len());
    assert("arity"@.len() != "line"@.len());
    assert("arity"@.len() != "clause_index"@.len());
    assert("arity"@.len() != "input_strings"@.len());
    assert("arity"@.len() != "return_strings"@.len());
    assert("arity"@.len() != "full"@.len());
    assert("kind"@[0] != "line"@[0]);
    assert("kind"@.len() != "clause_index"@.len());
    assert("kind"@.len() != "input_strings"@.len());
    assert("kind"@.len() != "return_strings"@.len());
    assert("kind"@[0] != "full"@[0]);
    assert("line"@.len() != "clause_index"@.len());
    assert("line"@.len() != "input_strings"@.len());
    assert("line"@.len() != "return_strings"@.len());
    assert("line"@[0] != "full"@[0]);
    assert("clause_index"@.len() != "input_strings"@.len());
    assert("clause_index"@.len() != "return_strings"@.len());
    assert("clause_index"@.len() != "full"@.len());
    assert("input_strings"@.len() != "return_strings"@.len());
    assert("input_strings"@.len() != "full"@.len());
    assert("return_strings"@.len() != "full"@.len());
    assert(spec_map(module, s, index, c).dom() =~= set!["module_name"@, "function_name"@, "arity"@, "kind"@, "line"@, "clause_index"@, "input_strings"@, "return_strings"@, "full"@]);
}

/// A statement binds each of its parameters to the field of that name of the record it stores, and nothing else.
pub proof fn lemma_type_map_binds_fields(module: String, t: TypeDef)
    ensures
        ({
            let m = type_map(module, t);
            &&& m.dom() == set!["module_name"@, "name"@, "kind"@, "params"@, "line"@, "definition"@]
            &&& m["module_name"@] == ParamView::Str(module@)
            &&& m["name"@] == ParamView::Str(t.name@)
            &&& m["kind"@] == ParamView::Str(t.kind@)
            &&& m["params"@] == ParamView::Str(joined(string_views(t.params@), ", "@))
            &&& m["line"@] == ParamView::Int(t.line)
            &&& m["definition"@] == ParamView::Str(t.definition@)
        }),
{
    reveal_strlit("module_name");
    reveal_strlit("name");
    reveal_strlit("kind");
    reveal_strlit("params");
    reveal_strlit("line");
    reveal_strlit("definition");
    assert("module_name"@.len() != "name"@.len());
    assert("module_name"@.len() != "kind"@.len());
    assert("module_name"@.len() != "params"@.len());
    assert("module_name"@.len() != "line"@.len());
    assert("module_name"@.len() != "definition"@.len());
    assert("name"@[0] != "kind"@[0]);
    assert("name"@.len() != "params"@.len());
    assert("name"@[0] != "line"@[0]);
    assert("name"@.len() != "definition"@.len());
    assert("kind"@.len() != "params"@.len());
    assert("kind"@[0] != "line"@[0]);
    assert("kind"@.len() != "definition"@.len());
    assert("params"@.len() != "line"@.len());
    assert("params"@.len() != "definition"@.len());
    assert("line"@.len() != "definition"@.len());
    assert(type_map(module, t).dom() =~= set!["module_name"@, "name"@, "kind"@, "params"@, "line"@, "definition"@]);
}

/// A statement binds each of its parameters to the field of that name of the record it stores, and nothing else.
pub proof fn lemma_defines_function_map_binds_fields(module: String, s: SpecDef)
    ensures
        ({
            let m = defines_function_map(module, s);
            &&& m.dom() == set!["module_name"@, "name"@, "arity"@]
            &&& m["module_name"@] == ParamView::Str(module@)
            &&& m["name"@] == ParamView::Str(s.name@)
            &&& m["arity"@] == ParamView::Int(s.arity)
        }),
{
    reveal_strlit("module_name");
    reveal_strlit("name");
    reveal_strlit("arity");
    assert("module_name"@.len() != "name"@.len());
    assert("module_name"@.len() != "arity"@.len());
    assert("name"@.len() != "arity"@.len());
    assert(defines_function_map(module, s).dom() =~= set!["module_name"@, "name"@, "arity"@]);
}

/// A statement binds each of its parameters to the field of that name of the record it stores, and nothing else.
pub proof fn lemma_defines_spec_map_binds_fields(module: String, s: SpecDef, index: int, c: SpecClause)
    ensures
        ({
            let m = defines_spec_map(module, s, index, c);
            &&& m.dom() == set!["module_name"@, "function_name"@, "arity"@, "clause_index"@]
            &&& m["module_name"@] == ParamView::Str(module@)
            &&& m["function_name"@] == ParamView::Str(s.name@)
            &&& m["arity"@] == ParamView::Int(s.arity)
            &&& m["clause_index"@] == ParamView::Int(index as i64)
        }),
{
    reveal_strlit("module_name");
    reveal_strlit("function_name");
    reveal_strlit("arity");
    reveal_strlit("clause_index");
    assert("module_name"@.len() != "function_name"@.len());
    assert("module_name"@.len() != "arity"@.len());
    assert("module_name"@.len() != "clause_index"@.len());
    assert("function_name"@.len() != "arity"@.len());
    assert("function_name"@.len() != "clause_index"@.len());
    assert("arity"@.len() != "clause_index"@.len());
    assert(defines_spec_map(module, s, index, c).dom() =~= set!["module_name"@, "function_name"@, "arity"@, "clause_index"@]);
}

/// A statement binds each of its parameters to the field of that name of the record it stores, and nothing else.
pub proof fn lemma_has_clause_map_binds_fields(module: String, loc: FunctionLocationDef)
    ensures
        ({
            let m = has_clause_map(module, loc);
            &&& m.dom() == set!["module_name"@, "function_name"@, "arity"@, "line"@]
            &&& m["module_name"@] == ParamView::Str(module@)
            &&& m["function_name"@] == ParamView::Str(loc.name@)
            &&& m["arity"@] == ParamView::Int(loc.arity)
            &&& m["line"@] == ParamView::Int(loc.line)
        }),
{
    reveal_strlit("module_name");
    reveal_strlit("function_name");
    reveal_strlit("arity");
    reveal_strlit("line");
    assert("module_name"@.len() != "function_name"@.len());
    assert("module_name"@.len() != "arity"@.len());
    assert("module_name"@.len() != "line"@.len());
    assert("function_name"@.len() != "arity"@.len());
    assert("function_name"@.len() != "line"@.len());
    assert("arity"@.len() != "line"@.len());
    assert(has_clause_map(module, loc).dom() =~= set!["module_name"@, "function_name"@, "arity"@, "line"@]);
}

/// A statement binds each of its parameters to the field of that name of the record it stores, and nothing else.
pub proof fn lemma_call_map_binds_fields(c: CallRecord)
    ensures
        ({
            let m = call_map(c);
            &&& m.dom() == set!["caller_module"@, "caller_name"@, "caller_arity"@, "callee_module"@, "callee_name"@, "callee_arity"@, "call_type"@, "caller_kind"@, "file"@, "line"@, "call_line"@]
            &&& m["caller_module"@] == ParamView::Str(c.caller.module@)
            &&& m["caller_name"@] == ParamView::Str(function_ref_parts(caller_function_text(c)).0)
            &&& m["caller_arity"@] == ParamView::Int(function_ref_parts(caller_function_text(c)).1 as i64)
            &&& m["callee_module"@] == ParamView::Str(c.callee.module@)
            &&& m["callee_name"@] == ParamView::Str(c.callee.function@)
            &&& m["callee_arity"@] == ParamView::Int(c.callee.arity)
            &&& m["call_type"@] == ParamView::Str(c.call_type@)
            &&& m["caller_kind"@] == ParamView::Str(opt_text(c.caller.kind))
            &&& m["file"@] == ParamView::Str(c.caller.file@)
            &&& m["line"@] == ParamView::Int(call_line_of(c))
            &&& m["call_line"@] == ParamView::Int(call_line_of(c))
        }),
{
    reveal_strlit("caller_module");
    reveal_strlit("caller_name");
    reveal_strlit("caller_arity");
    reveal_strlit("callee_module");
    reveal_strlit("callee_name");
    reveal_strlit("callee_arity");
    reveal_strlit("call_type");
    reveal_strlit("caller_kind");
    reveal_strlit("file");
    reveal_strlit("line");
    reveal_strlit("call_line");
    assert("caller_module"@.len() != "caller_name"@.len());
    assert("caller_module"@.len() != "caller_arity"@.len());
    assert("caller_module"@[5] != "callee_module"@[5]);
    assert("caller_module"@.len() != "callee_name"@.len());
    assert("caller_module"@.len() != "callee_arity"@.len());
    assert("caller_module"@.len() != "call_type"@.len());
    assert("caller_module"@.len() != "caller_kind"@.len());
    assert("caller_module"@.len() != "file"@.len());
    assert("caller_module"@.len() != "line"@.len());
    assert("caller_module"@.len() != "call_line"@.len());
    assert("caller_name"@.len() != "caller_arity"@.len());
    assert("caller_name"@.len() != "callee_module"@.len());
    assert("caller_name"@[5] != "callee_name"@[5]);
    assert("caller_name"@.len() != "callee_arity"@.len());
    assert("caller_name"@.len() != "call_type"@.len());
    assert("caller_name"@[7] != "caller_kind"@[7]);
    assert("caller_name"@.len() != "file"@.len());
    assert("caller_name"@.len() != "line"@.len());
    assert("caller_name"@.len() != "call_line"@.len());
    assert("caller_arity"@.len() != "callee_module"@.len());
    assert("caller_arity"@.len() != "callee_name"@.len());
    assert("caller_arity"@[5] != "callee_arity"@[5]);
    assert("caller_arity"@.len() != "call_type"@.len());
    assert("caller_arity"@.len() != "caller_kind"@.len());
    assert("caller_arity"@.len() != "file"@.len());
    assert("caller_arity"@.len() != "line"@.len());
    assert("caller_arity"@.len() != "call_line"@.len());
    assert("callee_module"@.len() != "callee_name"@.len());
    assert("callee_module"@.len() != "callee_arity"@.len());
    assert("callee_module"@.len() != "call_type"@.len());
    assert("callee_module"@.len() != "caller_kind"@.len());
    assert("callee_module"@.len() != "file"@.len());
    assert("callee_module"@.len() != "line"@.len());
    assert("callee_module"@.len() != "call_line"@.len());
    assert("callee_name"@.len() != "callee_arity"@.len());
    assert("callee_name"@.len() != "call_type"@.len());
    assert("callee_name"@[5] != "caller_kind"@[5]);
    assert("callee_name"@.len() != "file"@.len());
    assert("callee_name"@.len() != "line"@.len());
    assert("callee_name"@.len() != "call_line"@.len());
    assert("callee_arity"@.len() != "call_type"@.len());
    assert("callee_arity"@.len() != "caller_kind"@.len());
    assert("callee_arity"@.len() != "file"@.len());
    assert("callee_arity"@.len() != "line"@.len());
    assert("callee_arity"@.len() != "call_line"@.len());
    assert("call_type"@.len() != "caller_kind"@.len());
    assert("call_type"@.len() != "file"@.len());
    assert("call_type"@.len() != "line"@.len());
    assert("call_type"@[5] != "call_line"@[5]);
    assert("caller_kind"@.len() != "file"@.len());
    assert("caller_kind"@.len() != "line"@.len());
    assert("caller_kind"@.len() != "call_line"@.len());
    assert("file"@[0] != "line"@[0]);
    assert("file"@.len() != "call_line"@.len());
    assert("line"@.len() != "call_line"@.len());
    assert(call_map(c).dom() =~= set!["caller_module"@, "caller_name"@, "caller_arity"@, "callee_module"@, "callee_name"@, "callee_arity"@, "call_type"@, "caller_kind"@, "file"@, "line"@, "call_line"@]);
}

} // verus!
