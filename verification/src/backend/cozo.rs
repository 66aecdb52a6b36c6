//! The CozoDB backend: runs a query on a CozoDB instance with the query's
//! parameters as CozoDB values, and hands the rows back as the library's
//! plain values.
//!
//! What a script returns depends on what the database holds, so the calls
//! into CozoDB carry no claim on their outcome; what is proved is how the
//! parameters go in (every name, in order) and how the rows come out (every
//! row, every value, in order).

use vstd::prelude::*;
use crate::backend::{Database, ParamView, QueryParams, QueryResult, Row, Value, ValueType};
use crate::db::DbError;

verus! {

#[verifier::external_type_specification]
#[verifier::external_body]
pub struct ExDbInstance(cozo::DbInstance);

#[verifier::external_type_specification]
#[verifier::external_body]
pub struct ExCozoDatum(cozo::DataValue);

/// Creates an in-memory CozoDB instance with `DbInstance::new("mem", "", "")`,
/// its failure as debug text. Claimed: it succeeds. CozoDB documents the
/// `mem` engine as always available, and in its source a fresh in-memory
/// store has no step that fails (an empty store is initialized with the
/// current storage version and committed). Nothing else is claimed of the
/// instance.
#[verifier::external_body]
fn new_mem_instance() -> (r: Result<cozo::DbInstance, String>)
    ensures
        r is Ok,
{
    match cozo::DbInstance::new("mem", "", "") {
        Ok(inner) => Ok(inner),
        Err(e) => Err(format!("{:?}", e)),
    }
}

/// CozoDB's value for a parameter value (`DataValue::Str`, `Num(Int)`,
/// `Bool`, or a `List` of strings), named: it depends on the parameter value
/// alone.
pub uninterp spec fn cozo_param_value(v: ParamView) -> cozo::DataValue;

/// The library's value for a CozoDB value (null, booleans, integers with a
/// fractional number truncated, strings; anything else `Other`), named: it
/// depends on the CozoDB value alone.
pub uninterp spec fn value_of_cozo(d: cozo::DataValue) -> Value;

/// Builds CozoDB's value for a parameter value: `DataValue::Str`,
/// `Num(Int)`, `Bool`, or a `List` of strings. Claimed: the result is
/// `cozo_param_value` of the parameter's plain value.
#[verifier::external_body]
fn data_value_of(v: &ValueType) -> (r: cozo::DataValue)
    ensures
        r == cozo_param_value(v@),
{
    match v {
        ValueType::Str(s) => cozo::DataValue::Str(s.clone().into()),
        ValueType::Int(i) => cozo::DataValue::Num(cozo::Num::Int(*i)),
        ValueType::Bool(b) => cozo::DataValue::Bool(*b),
        ValueType::StrArray(a) => cozo::DataValue::List(a.iter().map(|s| cozo::DataValue::Str(s.clone().into())).collect()),
    }
}

/// Runs `script` with the named parameters on the instance with
/// `DbInstance::run_script` (mutable): the column names and the rows, or the
/// failure as debug text. The outcome depends on what the database holds;
/// nothing is claimed of it.
#[verifier::external_body]
fn run_cozo_script(inner: &cozo::DbInstance, script: &str, params: Vec<(String, cozo::DataValue)>) -> (r: Result<(Vec<String>, Vec<Vec<cozo::DataValue>>), String>) {
    match inner.run_script(script, params.into_iter().collect(), cozo::ScriptMutability::Mutable) {
        Ok(rows) => Ok((rows.headers, rows.rows)),
        Err(e) => Err(format!("{:?}", e)),
    }
}

/// The library's value for a CozoDB value: null, booleans, integers (a
/// fractional number truncated) and strings carry over, anything else is
/// `Other`. Claimed: the result is `value_of_cozo` of the CozoDB value.
#[verifier::external_body]
fn value_of_data(d: cozo::DataValue) -> (r: Value)
    ensures
        r == value_of_cozo(d),
{
    match d {
        cozo::DataValue::Null => Value::Null,
        cozo::DataValue::Bool(b) => Value::Bool(b),
        cozo::DataValue::Num(cozo::Num::Int(i)) => Value::Int(i),
        cozo::DataValue::Num(cozo::Num::Float(f)) => Value::Int(f as i64),
        cozo::DataValue::Str(s) => Value::Str(s.to_string()),
        _ => Value::Other,
    }
}

/// CozoDB database wrapper implementing the generic Database trait.
pub struct CozoDatabase {
    inner: cozo::DbInstance,
}

impl CozoDatabase {
    /// The CozoDB instance queries run on.
    pub closed spec fn instance(self) -> cozo::DbInstance {
        self.inner
    }

    /// Wraps an opened CozoDB instance.
    pub fn from_instance(inner: cozo::DbInstance) -> (r: Self)
        ensures
            r.instance() == inner,
    {
        CozoDatabase { inner }
    }

    /// Opens an in-memory CozoDB database, which always succeeds.
    pub fn open_mem() -> (r: Result<Self, DbError>)
        ensures
            r is Ok,
    {
        match new_mem_instance() {
            Ok(inner) => Ok(CozoDatabase { inner }),
            Err(message) => Err(DbError::OpenFailed { path: "mem".to_owned(), message }),
        }
    }

    /// Returns a reference to the inner DbInstance.
    pub fn inner_ref(&self) -> (r: &cozo::DbInstance)
        ensures
            *r == self.instance(),
    {
        &self.inner
    }
}

/// The parameters as CozoDB's named values: every name, in the order of the
/// names, each with CozoDB's value for its value.
fn convert_query_params(params: &QueryParams) -> (r: Vec<(String, cozo::DataValue)>)
    ensures
        r@.len() == params.entries().len(),
        forall|i: int| 0 <= i < r@.len() ==> (#[trigger] r@[i]).0 == params.entries()[i].0
            && r@[i].1 == cozo_param_value(params.entries()[i].1@),
{
    let entries = params.params();
    let mut out: Vec<(String, cozo::DataValue)> = Vec::new();
    let mut i: usize = 0;
    while i < entries.len()
        invariant
            i <= entries@.len(),
            entries@ == params.entries(),
            out@.len() == i,
            forall|j: int| 0 <= j < i ==> (#[trigger] out@[j]).0 == entries@[j].0
                && out@[j].1 == cozo_param_value(entries@[j].1@),
        decreases entries@.len() - i,
    {
        let name = entries[i].0.clone();
        let value = data_value_of(&entries[i].1);
        out.push((name, value));
        i = i + 1;
    }
    out
}

/// The rows as the library's rows: every row, each value converted, in order.
fn convert_rows(rows: Vec<Vec<cozo::DataValue>>) -> (r: Vec<Row>)
    ensures
        rows_read(r@, rows@.map_values(|row: Vec<cozo::DataValue>| row@)),
{
    let mut out: Vec<Row> = Vec::new();
    let mut rest = rows;
    let ghost orig = rest@.map_values(|row: Vec<cozo::DataValue>| row@);
    let ghost total = rest.len();
    assert(orig.len() == total);
    let mut k: usize = 0;
    while rest.len() > 0
        invariant
            orig.len() <= usize::MAX,
            k + rest@.len() == orig.len(),
            out@.len() == k,
            forall|j: int| 0 <= j < rest@.len() ==> #[trigger] rest@[j]@ == orig[k + j],
            forall|j: int| 0 <= j < k ==> row_read(#[trigger] out@[j], orig[j]),
        decreases rest@.len(),
    {
        let ghost before = rest@;
        let data_row = rest.remove(0);
        assert(data_row@ == orig[k as int]);
        assert forall|j: int| 0 <= j < rest@.len() implies #[trigger] rest@[j]@ == orig[k + 1 + j] by {
            assert(rest@[j] == before[j + 1]);
        }
        let ghost cells0 = data_row@;
        let mut values: Vec<Value> = Vec::new();
        let mut cells = data_row;
        let ghost mut m: int = 0;
        while cells.len() > 0
            invariant
                0 <= m <= cells0.len(),
                cells@ == cells0.skip(m),
                values@.len() == m,
                forall|j: int| 0 <= j < m ==> #[trigger] values@[j] == value_of_cozo(cells0[j]),
            decreases cells@.len(),
        {
            let d = cells.remove(0);
            assert(d == cells0[m]);
            values.push(value_of_data(d));
            proof {
                assert(cells@ =~= cells0.skip(m + 1));
                m = m + 1;
            }
        }
        let ghost prev = out@;
        out.push(Row::new(values));
        assert forall|j: int| 0 <= j < k + 1 implies row_read(#[trigger] out@[j], orig[j]) by {
            if j < k {
                assert(out@[j] == prev[j]);
            }
        }
        k = k + 1;
    }
    out
}

/// A row is read from CozoDB's row: each value converted, in order.
pub open spec fn row_read(row: Row, data: Seq<cozo::DataValue>) -> bool {
    &&& row.values@.len() == data.len()
    &&& forall|j: int| 0 <= j < data.len() ==> #[trigger] row.values@[j] == value_of_cozo(data[j])
}

/// A result read from some rows that CozoDB handed back.
pub open spec fn read_from_cozo(res: QueryResult) -> bool {
    exists|data: Seq<Seq<cozo::DataValue>>| #[trigger] rows_read(res.rows@, data)
}

/// The rows are read from CozoDB's rows: one for each, in order.
pub open spec fn rows_read(rows: Seq<Row>, data: Seq<Seq<cozo::DataValue>>) -> bool {
    &&& rows.len() == data.len()
    &&& forall|i: int| 0 <= i < data.len() ==> row_read(#[trigger] rows[i], data[i])
}

impl Database for CozoDatabase {
    /// CozoDB answers with a failure that is `QueryFailed`, or with rows
    /// read value by value from rows that it handed back.
    open spec fn answers(&self, query: Seq<char>, params: QueryParams, outcome: Result<QueryResult, DbError>) -> bool {
        match outcome {
            Err(e) => e is QueryFailed,
            Ok(res) => read_from_cozo(res),
        }
    }

    fn execute_query(&self, query: &str, params: QueryParams) -> (r: Result<QueryResult, DbError>)
        ensures
            r matches Err(e) ==> e is QueryFailed,
            r matches Ok(res) ==> read_from_cozo(res),
    {
        let cozo_params = convert_query_params(&params);
        match run_cozo_script(&self.inner, query, cozo_params) {
            Ok(named) => {
                let (headers, rows) = named;
                let ghost data = rows@.map_values(|row: Vec<cozo::DataValue>| row@);
                let read = convert_rows(rows);
                let res = QueryResult { headers, rows: read };
                assert(rows_read(res.rows@, data));
                assert(read_from_cozo(res));
                Ok(res)
            },
            Err(message) => Err(DbError::QueryFailed { message }),
        }
    }
}

} // verus!
