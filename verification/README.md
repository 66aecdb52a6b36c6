# db

The database layer of a code-search tool: the query texts and parameters
for a call-graph database, the reading of result rows into typed records,
and the logic around them (sorting, deduplication, cycle detection,
hotspot ranking, call paths, and the import of a parsed call graph).

The library in `src/` is verified with Verus. A backend implements the
`Database` trait; each query function states, over the backend's possible
answers, which query it sends with which parameters and what it makes of
the rows that come back.

- `src/text.rs`, `src/sorting.rs`: text helpers and the stable sort used to
  order results, with their laws.
- `src/backend/`: values, rows, query parameters, the `Database` trait, the
  CozoDB backend, the SurrealDB schema texts and the tabulation of SurrealDB
  responses.
- `src/db.rs`: escaping, running queries, creating relations, reading cells.
- `src/queries/`: one module per command, and the import
  (`import_models`, `import_statements`, `import_plans`, `import`).
  Queries that exist for both engines have a SurrealQL form and a
  CozoScript form (the `_cozo` functions and `reverse_trace_calls`); use
  the CozoScript form with `CozoDatabase`.

`app/` holds what stands around the library: opening databases, the JSON
call-graph file, serializable and `std::error::Error` forms of the records
and errors, and the floating-point hotspot ratio.
