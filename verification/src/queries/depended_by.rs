//! Find incoming module dependencies.

use vstd::prelude::*;
use crate::backend::{Database, QueryParams, QueryResult};
use crate::db::DbError;
use crate::query_builders::{validate_regex_patterns, first_invalid_pattern, opt_str_view, pattern_views};
use crate::queries::dependencies::{DependencyDirection, DependencyError, cozo_dependencies_outcome, find_dependencies_cozo as query_dependencies_cozo, dependencies_query, dependencies_query_text, dependencies_params, dependency_calls, decode_dependency_calls};
use crate::queries::rows::views;
use crate::types::Call;

verus! {

/// Find the modules that depend on the matched module: the calls from other
/// modules into its functions (the `Incoming` direction).
pub fn find_dependents<D: Database + ?Sized>(db: &D, module_pattern: &str, _project: &str, use_regex: bool, limit: u32) -> (r: Result<Vec<Call>, DependencyError>)
    ensures
        match r {
            Err(DependencyError::InvalidRegex { pattern: bad }) => first_invalid_pattern(use_regex, seq![Some(module_pattern@)]) == Some(bad@),
            Err(DependencyError::QueryFailed { message }) => first_invalid_pattern(use_regex, seq![Some(module_pattern@)]) is None
                && exists|p: QueryParams, e: DbError| p.binds_exactly(dependencies_params(module_pattern@, limit))
                    && #[trigger] db.answers(dependencies_query_text(DependencyDirection::Incoming, use_regex), p, Err(e)) && message@ == e.message(),
            Ok(v) => first_invalid_pattern(use_regex, seq![Some(module_pattern@)]) is None
                && exists|p: QueryParams, res: QueryResult| p.binds_exactly(dependencies_params(module_pattern@, limit))
                    && #[trigger] db.answers(dependencies_query_text(DependencyDirection::Incoming, use_regex), p, Ok(res))
                    && ({ let d = dependency_calls(res.rows@); views(v@) == d }),
        },
{
    let pats: [Option<&str>; 1] = [Some(module_pattern)];
    assert(pattern_views(pats@) =~= seq![Some(module_pattern@)]);
    match validate_regex_patterns(use_regex, &pats) {
        Err(p) => {
            return Err(DependencyError::InvalidRegex { pattern: p });
        },
        Ok(()) => {},
    }
    let (query, params) = dependencies_query(DependencyDirection::Incoming, module_pattern, use_regex, limit);
    let ghost gp = params;
    match db.execute_query(query.as_str(), params) {
        Ok(res) => {
            let v = decode_dependency_calls(&res.rows);
            let out = v;
            assert(db.answers(query@, gp, Ok(res)));
            Ok(out)
        },
        Err(e) => {
            let ghost ge = e;
            let message = e.to_string();
            assert(db.answers(query@, gp, Err(ge)));
            Err(DependencyError::QueryFailed { message })
        },
    }
}
/// Find the modules that depend on the matched module, on CozoDB: the pattern
/// is checked first, then the incoming dependencies query runs.
pub fn find_dependents_cozo<D: Database + ?Sized>(db: &D, module_pattern: &str, project: &str, use_regex: bool, limit: u32) -> (r: Result<Vec<Call>, DependencyError>)
    ensures
        match r {
            Err(DependencyError::InvalidRegex { pattern: bad }) => first_invalid_pattern(use_regex, seq![Some(module_pattern@)]) == Some(bad@),
            Err(DependencyError::QueryFailed { message }) => first_invalid_pattern(use_regex, seq![Some(module_pattern@)]) is None
                && exists|e: DbError| #[trigger] cozo_dependencies_outcome(db, DependencyDirection::Incoming, module_pattern@, project@, use_regex, limit, Err(e))
                    && message@ == e.message(),
            Ok(v) => first_invalid_pattern(use_regex, seq![Some(module_pattern@)]) is None
                && cozo_dependencies_outcome(db, DependencyDirection::Incoming, module_pattern@, project@, use_regex, limit, Ok(v)),
        },
{
    let pats: [Option<&str>; 1] = [Some(module_pattern)];
    assert(pattern_views(pats@) =~= seq![Some(module_pattern@)]);
    match validate_regex_patterns(use_regex, &pats) {
        Err(p) => {
            return Err(DependencyError::InvalidRegex { pattern: p });
        },
        Ok(()) => {},
    }
    match query_dependencies_cozo(db, DependencyDirection::Incoming, module_pattern, project, use_regex, limit) {
        Ok(v) => Ok(v),
        Err(e) => {
            let message = e.to_string();
            Err(DependencyError::QueryFailed { message })
        },
    }
}
} // verus!
