//! The parsed call graph that the import reads: per-module specs, function
//! locations, structs and types, and the call records.

use vstd::prelude::*;

verus! {

/// A clause of a spec: its input and return types and its full text.
#[derive(Debug, Clone)]
pub struct SpecClause {
    pub input_strings: Vec<String>,
    pub return_strings: Vec<String>,
    pub full: String,
}

/// A `@spec` or `@callback` of a function, with its clauses.
#[derive(Debug, Clone)]
pub struct SpecDef {
    pub name: String,
    pub arity: i64,
    pub kind: String,
    pub line: i64,
    pub clauses: Vec<SpecClause>,
}

/// Where a function clause is defined, with its figures.
#[derive(Debug, Clone)]
pub struct FunctionLocationDef {
    pub name: String,
    pub arity: i64,
    pub line: i64,
    pub file: Option<String>,
    pub source_file_absolute: Option<String>,
    pub kind: String,
    pub start_line: i64,
    pub end_line: i64,
    pub pattern: Option<String>,
    pub guard: Option<String>,
    pub source_sha: Option<String>,
    pub ast_sha: Option<String>,
    pub complexity: i64,
    pub max_nesting_depth: i64,
    pub generated_by: Option<String>,
    pub macro_source: Option<String>,
}

/// A field of a struct.
#[derive(Debug, Clone)]
pub struct StructField {
    pub field: String,
    pub default: String,
    pub required: bool,
}

/// A struct definition.
#[derive(Debug, Clone)]
pub struct StructDef {
    pub fields: Vec<StructField>,
}

/// A `@type`, `@typep` or `@opaque` definition.
#[derive(Debug, Clone)]
pub struct TypeDef {
    pub name: String,
    pub kind: String,
    pub params: Vec<String>,
    pub line: i64,
    pub definition: String,
}

/// The calling side of a call record.
#[derive(Debug, Clone)]
pub struct CallerRef {
    pub module: String,
    pub function: Option<String>,
    pub kind: Option<String>,
    pub line: Option<i64>,
    pub file: String,
}

/// The called side of a call record.
#[derive(Debug, Clone)]
pub struct CalleeRef {
    pub module: String,
    pub function: String,
    pub arity: i64,
}

/// A call from one function to another.
#[derive(Debug, Clone)]
pub struct CallRecord {
    pub caller: CallerRef,
    pub callee: CalleeRef,
    pub call_type: String,
}

/// A parsed call graph, its per-module entries in the order they are read.
/// Each list names a module at most once, as the maps of the graph file do;
/// the import runs for any lists, and its contracts hold whether or not they
/// do.
#[derive(Debug, Clone)]
pub struct CallGraph {
    pub specs: Vec<(String, Vec<SpecDef>)>,
    pub function_locations: Vec<(String, Vec<FunctionLocationDef>)>,
    pub structs: Vec<(String, StructDef)>,
    pub types: Vec<(String, Vec<TypeDef>)>,
    pub calls: Vec<CallRecord>,
}

/// The text an optional string gives, empty when there is none.
pub open spec fn opt_text(o: Option<String>) -> Seq<char> {
    match o {
        Some(s) => s@,
        None => Seq::empty(),
    }
}

pub(crate) fn text_or_empty(o: &Option<String>) -> (r: &str)
    ensures
        r@ == opt_text(*o),
{
    match o {
        Some(s) => s.as_str(),
        None => {
            proof {
                reveal_strlit("");
            }
            ""
        },
    }
}

/// The caller's function reference as written, `<module>` when absent.
pub open spec fn caller_function_text(c: CallRecord) -> Seq<char> {
    match c.caller.function {
        Some(f) => f@,
        None => "<module>"@,
    }
}

pub(crate) fn caller_function_of(c: &CallRecord) -> (r: &str)
    ensures
        r@ == caller_function_text(*c),
{
    match &c.caller.function {
        Some(f) => f.as_str(),
        None => "<module>",
    }
}

/// The line of a call, 0 when unknown.
pub open spec fn call_line_of(c: CallRecord) -> i64 {
    match c.caller.line {
        Some(l) => l,
        None => 0,
    }
}

/// The items of per-module entries, each with its module, in order.
pub open spec fn per_module<T>(entries: Seq<(String, Vec<T>)>) -> Seq<(String, T)>
    decreases entries.len(),
{
    if entries.len() == 0 {
        Seq::empty()
    } else {
        per_module(entries.drop_last()) + entries.last().1@.map_values(|x: T| (entries.last().0, x))
    }
}

/// The clauses of per-module specs, each with its module, spec and index.
pub open spec fn spec_clauses(specs: Seq<(String, SpecDef)>) -> Seq<(String, SpecDef, int, SpecClause)>
    decreases specs.len(),
{
    if specs.len() == 0 {
        Seq::empty()
    } else {
        let e = specs.last();
        spec_clauses(specs.drop_last()) + e.1.clauses@.map(|i: int, c: SpecClause| (e.0, e.1, i, c))
    }
}

/// The fields of per-module structs, each with its module.
pub open spec fn struct_fields(structs: Seq<(String, StructDef)>) -> Seq<(String, StructField)> {
    per_module(structs.map_values(|e: (String, StructDef)| (e.0, e.1.fields)))
}

/// The module names the graph mentions: those with specs, function
/// locations, structs or types.
pub open spec fn module_mentions(g: CallGraph) -> Seq<Seq<char>> {
    g.specs@.map_values(|e: (String, Vec<SpecDef>)| e.0@)
        + g.function_locations@.map_values(|e: (String, Vec<FunctionLocationDef>)| e.0@)
        + g.structs@.map_values(|e: (String, StructDef)| e.0@)
        + g.types@.map_values(|e: (String, Vec<TypeDef>)| e.0@)
}

/// The elements of `s` without repetitions, each where it first occurs.
pub open spec fn first_occurrences(s: Seq<Seq<char>>) -> Seq<Seq<char>>
    decreases s.len(),
{
    if s.len() == 0 {
        s
    } else if s.drop_last().contains(s.last()) {
        first_occurrences(s.drop_last())
    } else {
        first_occurrences(s.drop_last()).push(s.last())
    }
}

/// The key a function is created under: module, name and arity.
pub open spec fn function_key(e: (String, FunctionLocationDef)) -> (Seq<char>, Seq<char>, i64) {
    (e.0@, e.1.name@, e.1.arity)
}

/// The function locations whose key no earlier location has, in order.
pub open spec fn first_functions(s: Seq<(String, FunctionLocationDef)>) -> Seq<(String, FunctionLocationDef)>
    decreases s.len(),
{
    if s.len() == 0 {
        s
    } else if s.drop_last().map_values(|e: (String, FunctionLocationDef)| function_key(e)).contains(function_key(s.last())) {
        first_functions(s.drop_last())
    } else {
        first_functions(s.drop_last()).push(s.last())
    }
}

} // verus!
