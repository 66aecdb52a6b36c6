//! Query modules for call graph analysis.
//!
//! Each module builds the query text and parameters for one command and turns
//! the result rows into typed records.
//!
//! A query comes in two dialects. The SurrealQL form (`find_accepts`,
//! `find_cycle_edges`, ...) is for a SurrealDB backend; the CozoScript form
//! (`find_accepts_cozo`, `find_cycle_edges_cozo`, `get_module_calls_cozo`,
//! `reverse_trace_calls`, ...) is for [`crate::backend::cozo::CozoDatabase`].
//! Both send one script with fixed parameters and read the rows the same way.

pub mod accepts;
pub mod calls;
pub mod clusters;
pub mod complexity;
pub mod connectivity;
pub mod cycles;
pub mod depended_by;
pub mod dependencies;
pub mod depends_on;
pub mod duplicates;
pub mod file;
pub mod function;
pub mod hotspots;
pub mod import;
pub mod import_models;
pub mod import_plans;
pub mod import_statements;
pub mod large_functions;
pub mod location;
pub mod many_clauses;
pub mod path;
pub mod return_types;
pub mod reverse_trace;
pub mod rows;
pub mod schema;
