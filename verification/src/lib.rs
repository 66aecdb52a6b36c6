//! Database layer for code search: query text and parameters for a call-graph
//! database, the reading of result rows into typed records, and the logic
//! around them (sorting, deduplication, cycle detection, import planning).
//!
//! A backend implements [`Database`]: it runs a query with its parameters and
//! hands back a [`QueryResult`] of plain values.

pub mod text;
pub mod sorting;
pub mod types;
pub mod db;
pub mod backend;
pub mod query_builders;
pub mod queries;

pub use backend::{Database, QueryParams, QueryResult, Row, Value, ValueType};
pub use db::{
    escape_string, escape_string_for_quote, escape_string_single, extract_bool, extract_call_from_row_trait,
    extract_i64, extract_string, extract_string_or, run_query, run_query_no_params, try_create_relation,
    CallRowLayout, DbError,
};
pub use types::{Call, FunctionRef};
