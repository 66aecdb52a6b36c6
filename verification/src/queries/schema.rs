//! Database schema creation and management.
//!
//! Shared schema utilities used by both the import and setup commands.

use vstd::prelude::*;
use crate::backend::{Database, QueryParams, QueryResult};
use crate::backend::surrealdb_schema::{self, node_table_names, relationship_table_names, schema_text};
use crate::db::{DbError, creation_outcome, says_existing, try_create_relation};

verus! {

/// Result of schema creation operation
#[derive(Debug, Clone)]
pub struct SchemaCreationResult {
    pub relation: String,
    pub created: bool,
}

/// All relations, nodes first, in creation order.
pub open spec fn relation_name_list() -> Seq<Seq<char>> {
    node_table_names() + relationship_table_names()
}

proof fn lemma_all_relations_have_schemas()
    ensures
        forall|i: int| 0 <= i < relation_name_list().len() ==> schema_text(#[trigger] relation_name_list()[i]) is Some,
{
    let names = relation_name_list();
    assert(names =~= seq!["modules"@, "functions"@, "clauses"@, "specs"@, "types"@, "fields"@,
        "defines"@, "has_clause"@, "calls"@, "has_field"@]);
}

/// The backend may answer the creation of relation `name` so that the
/// attempt reports `res`.
pub open spec fn creation_answered<D: Database + ?Sized>(db: &D, name: Seq<char>, res: Result<bool, DbError>) -> bool {
    exists|p: QueryParams, o: Result<QueryResult, DbError>|
        p.size() == 0 && #[trigger] db.answers(schema_text(name).unwrap(), p, o) && creation_outcome(o) == res
}

/// The relations before the `j`-th were each created or found existing.
pub open spec fn created_before<D: Database + ?Sized>(db: &D, j: int) -> bool {
    forall|k: int| 0 <= k < j ==> creation_answered(db, #[trigger] relation_name_list()[k], Ok(true))
        || creation_answered(db, relation_name_list()[k], Ok(false))
}

/// Create all database schemas.
///
/// Two-phase creation: nodes first, then relationships.
/// Returns a list of all relations with their creation status.
/// If a relation already exists, returns Ok with created=false for that relation.
pub fn create_schema<D: Database + ?Sized>(db: &D) -> (r: Result<Vec<SchemaCreationResult>, DbError>)
    ensures
        r matches Ok(v) ==> v@.len() == relation_name_list().len()
            && forall|i: int| 0 <= i < v@.len() ==> (#[trigger] v@[i]).relation@ == relation_name_list()[i]
                && creation_answered(db, relation_name_list()[i], Ok(v@[i].created)),
        r matches Err(e) ==> !says_existing(e.message())
            && exists|j: int| 0 <= j < relation_name_list().len() && created_before(db, j)
                && #[trigger] creation_answered(db, relation_name_list()[j], Err(e)),
{
    let mut result: Vec<SchemaCreationResult> = Vec::new();
    let names = relation_names();
    proof { lemma_all_relations_have_schemas(); }
    let mut i: usize = 0;
    while i < names.len()
        invariant
            names@.map_values(|t: &str| t@) == relation_name_list(),
            forall|j: int| 0 <= j < relation_name_list().len() ==> schema_text(#[trigger] relation_name_list()[j]) is Some,
            i <= names@.len(),
            result@.len() == i,
            forall|j: int| 0 <= j < i ==> (#[trigger] result@[j]).relation@ == relation_name_list()[j]
                && creation_answered(db, relation_name_list()[j], Ok(result@[j].created)),
        decreases names@.len() - i,
    {
        let name = names[i];
        assert(name@ == relation_name_list()[i as int]);
        match surrealdb_schema::schema_for_table(name) {
            Some(script) => {
                assert(schema_text(name@).unwrap() == script@);
                match try_create_relation(db, script) {
                    Ok(created) => {
                        assert(creation_answered(db, name@, Ok(created)));
                        let ghost before = result@;
                        result.push(SchemaCreationResult { relation: name.to_owned(), created });
                        assert forall|j: int| 0 <= j < i + 1 implies (#[trigger] result@[j]).relation@ == relation_name_list()[j]
                            && creation_answered(db, relation_name_list()[j], Ok(result@[j].created)) by {
                            if j < i {
                                assert(result@[j] == before[j]);
                            }
                        }
                    },
                    Err(e) => {
                        assert(creation_answered(db, relation_name_list()[i as int], Err(e)));
                        assert forall|k: int| 0 <= k < i implies creation_answered(db, #[trigger] relation_name_list()[k], Ok(true))
                            || creation_answered(db, relation_name_list()[k], Ok(false)) by {
                            assert(creation_answered(db, relation_name_list()[k], Ok(result@[k].created)));
                        }
                        assert(!says_existing(e.message()));
                        assert(0 <= i < relation_name_list().len());
                        assert(created_before(db, i as int));
                        return Err(e);
                    },
                }
            },
            None => {
                // every relation has a schema
                assert(false);
            },
        }
        i = i + 1;
    }
    Ok(result)
}

/// Get list of all relation names managed by this schema.
///
/// Returns 10 tables (6 nodes + 4 relationships, in creation order)
pub fn relation_names() -> (r: Vec<&'static str>)
    ensures
        r@.map_values(|t: &str| t@) == relation_name_list(),
{
    let mut names: Vec<&'static str> = Vec::new();
    let nodes = surrealdb_schema::node_tables();
    let rels = surrealdb_schema::relationship_tables();
    let mut i: usize = 0;
    while i < nodes.len()
        invariant
            nodes@.map_values(|t: &str| t@) == node_table_names(),
            i <= nodes@.len(),
            names@ == nodes@.take(i as int),
        decreases nodes@.len() - i,
    {
        names.push(nodes[i]);
        i = i + 1;
        assert(names@ =~= nodes@.take(i as int));
    }
    let mut j: usize = 0;
    while j < rels.len()
        invariant
            rels@.map_values(|t: &str| t@) == relationship_table_names(),
            nodes@.map_values(|t: &str| t@) == node_table_names(),
            j <= rels@.len(),
            names@ == nodes@ + rels@.take(j as int),
        decreases rels@.len() - j,
    {
        names.push(rels[j]);
        j = j + 1;
        assert(names@ =~= nodes@ + rels@.take(j as int));
    }
    assert(names@ =~= nodes@ + rels@);
    assert(names@.map_values(|t: &str| t@) =~= relation_name_list());
    names
}

/// Get schema script for a specific relation by name.
pub fn schema_for_relation(name: &str) -> (r: Option<&'static str>)
    ensures
        match r {
            Some(t) => schema_text(name@) == Some(t@),
            None => schema_text(name@) is None,
        },
{
    surrealdb_schema::schema_for_table(name)
}

} // verus!
