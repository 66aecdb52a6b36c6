//! Reading result rows into records.

use vstd::prelude::*;
use crate::backend::{Row, Value};
use crate::db::{cell_int_or, cell_text, cell_text_or};

verus! {

/// A record read from one result row.
pub trait RowRecord: View + Sized {
    /// The record a row describes, or none when the row lacks a required value.
    spec fn read(row: Seq<Value>) -> Option<Self::V>;

    fn from_row(row: &Row) -> (r: Option<Self>)
        ensures
            match r {
                Some(x) => Self::read(row.values@) == Some(x@),
                None => Self::read(row.values@) is None,
            },
    ;
}

/// No two columns of a result carry the same name.
pub open spec fn distinct_names(cols: Seq<Seq<char>>) -> bool {
    forall|i: int, j: int| 0 <= i < cols.len() && 0 <= j < cols.len() && i != j ==> #[trigger] cols[i] != #[trigger] cols[j]
}

/// `v` is the integer the row holds in the column named `name` (`d` when that
/// cell holds no integer), for the result's column names `cols`.
pub open spec fn int_in_column(cols: Seq<Seq<char>>, row: Seq<Value>, name: Seq<char>, v: i64, d: i64) -> bool {
    forall|i: int| 0 <= i < cols.len() && #[trigger] cols[i] == name ==> v == cell_int_or(row, i, d)
}

/// `v` is the text the row holds in the column named `name` (`d` when that
/// cell holds no text), for the result's column names `cols`.
pub open spec fn text_in_column(cols: Seq<Seq<char>>, row: Seq<Value>, name: Seq<char>, v: Seq<char>, d: Seq<char>) -> bool {
    forall|i: int| 0 <= i < cols.len() && #[trigger] cols[i] == name ==> v == cell_text_or(row, i, d)
}

/// Every column named `name` holds text in the row.
pub open spec fn text_at_column(cols: Seq<Seq<char>>, row: Seq<Value>, name: Seq<char>) -> bool {
    forall|i: int| 0 <= i < cols.len() && #[trigger] cols[i] == name ==> cell_text(row, i) is Some
}

/// The value read at the position of a column is the value of the column of
/// that name, when no two columns share a name.
pub proof fn lemma_named_cell(cols: Seq<Seq<char>>, row: Seq<Value>, k: int)
    requires
        distinct_names(cols),
        0 <= k < cols.len(),
    ensures
        forall|d: i64| #[trigger] int_in_column(cols, row, cols[k], cell_int_or(row, k, d), d),
        forall|d: Seq<char>| #[trigger] text_in_column(cols, row, cols[k], cell_text_or(row, k, d), d),
        text_at_column(cols, row, cols[k]) <==> cell_text(row, k) is Some,
{
    assert forall|i: int| 0 <= i < cols.len() && #[trigger] cols[i] == cols[k] implies i == k by {
        if i != k {
            assert(cols[i] != cols[k]);
        }
    }
    assert forall|d: i64| #[trigger] int_in_column(cols, row, cols[k], cell_int_or(row, k, d), d) by {
        assert forall|i: int| 0 <= i < cols.len() && #[trigger] cols[i] == cols[k] implies cell_int_or(row, k, d) == cell_int_or(row, i, d) by {
            if i != k {
                assert(cols[i] != cols[k]);
            }
        }
    }
    assert forall|d: Seq<char>| #[trigger] text_in_column(cols, row, cols[k], cell_text_or(row, k, d), d) by {
        assert forall|i: int| 0 <= i < cols.len() && #[trigger] cols[i] == cols[k] implies cell_text_or(row, k, d) == cell_text_or(row, i, d) by {
            if i != k {
                assert(cols[i] != cols[k]);
            }
        }
    }
}

/// The views of a sequence of values.
pub open spec fn views<T: View>(s: Seq<T>) -> Seq<T::V> {
    s.map_values(|x: T| x@)
}

/// The records the rows describe, in row order; rows that describe none are skipped.
pub open spec fn read_rows<T: RowRecord>(rows: Seq<Row>) -> Seq<T::V> {
    rows.filter_map(|r: Row| T::read(r.values@))
}

/// Reads every row that describes a record, in row order.
pub fn decode_rows<T: RowRecord>(rows: &Vec<Row>) -> (r: Vec<T>)
    ensures
        views(r@) == read_rows::<T>(rows@),
{
    let mut out: Vec<T> = Vec::new();
    let mut i: usize = 0;
    while i < rows.len()
        invariant
            i <= rows@.len(),
            views(out@) == read_rows::<T>(rows@.take(i as int)),
        decreases rows@.len() - i,
    {
        let ghost before = out@;
        let rec = T::from_row(&rows[i]);
        let ghost t = rows@.take(i + 1);
        assert(t.drop_last() =~= rows@.take(i as int));
        assert(t.last() == rows@[i as int]);
        match rec {
            Some(x) => {
                out.push(x);
                assert(views(out@) =~= views(before) + seq![x@]);
            },
            None => {},
        }
        i = i + 1;
    }
    assert(rows@.take(rows@.len() as int) =~= rows@);
    out
}


/// A record read from one row of a CozoDB answer, whose columns come in the
/// order the script's head names them.
pub trait CozoRecord: View + Sized {
    /// The record a CozoDB row describes, or none when the row lacks a required value.
    spec fn read_cozo(row: Seq<Value>) -> Option<Self::V>;

    fn from_cozo_row(row: &Row) -> (r: Option<Self>)
        ensures
            match r {
                Some(x) => Self::read_cozo(row.values@) == Some(x@),
                None => Self::read_cozo(row.values@) is None,
            },
    ;
}

/// The records CozoDB's rows describe, in row order; rows that describe none are skipped.
pub open spec fn read_cozo_rows<T: CozoRecord>(rows: Seq<Row>) -> Seq<T::V> {
    rows.filter_map(|r: Row| T::read_cozo(r.values@))
}

/// Reads every CozoDB row that describes a record, in row order.
pub fn decode_cozo_rows<T: CozoRecord>(rows: &Vec<Row>) -> (r: Vec<T>)
    ensures
        views(r@) == read_cozo_rows::<T>(rows@),
{
    let mut out: Vec<T> = Vec::new();
    let mut i: usize = 0;
    while i < rows.len()
        invariant
            i <= rows@.len(),
            views(out@) == read_cozo_rows::<T>(rows@.take(i as int)),
        decreases rows@.len() - i,
    {
        let ghost before = out@;
        let rec = T::from_cozo_row(&rows[i]);
        let ghost t = rows@.take(i + 1);
        assert(t.drop_last() =~= rows@.take(i as int));
        assert(t.last() == rows@[i as int]);
        match rec {
            Some(x) => {
                out.push(x);
                assert(views(out@) =~= views(before) + seq![x@]);
            },
            None => {},
        }
        i = i + 1;
    }
    assert(rows@.take(rows@.len() as int) =~= rows@);
    out
}

} // verus!
