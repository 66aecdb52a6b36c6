//! Turning a statement's result into rows: SurrealDB hands back records as
//! objects (maps from field names to values); the column names are the
//! fields of the first record, and each record becomes a row holding its
//! values in that order.

use vstd::prelude::*;
use crate::backend::{QueryResult, Row, Value};
use crate::text::{lex_order, str_equal, string_views, lemma_lex_order_trans, lemma_lex_order_range};

verus! {

/// One record of a statement's result.
#[derive(Debug)]
pub enum ResponseValue {
    /// A record with named fields, each field once.
    Object(Vec<(String, Value)>),
    /// Any other value.
    Single(Value),
}

/// What a statement returns: several records, one object, nothing (a
/// definition), or a single other value.
#[derive(Debug)]
pub enum StatementValue {
    Array(Vec<ResponseValue>),
    Object(Vec<(String, Value)>),
    Nothing,
    Other(Value),
}

pub open spec fn keys_of(obj: Seq<(String, Value)>) -> Seq<Seq<char>> {
    obj.map_values(|e: (String, Value)| e.0@)
}

/// The value of the first field named `key`, or `Null` when there is none.
pub open spec fn field_of(obj: Seq<(String, Value)>, key: Seq<char>) -> Value
    decreases obj.len(),
{
    if obj.len() == 0 {
        Value::Null
    } else if obj[0].0@ == key {
        obj[0].1
    } else {
        field_of(obj.drop_first(), key)
    }
}

/// An object names each field once.
pub open spec fn fields_distinct(r: ResponseValue) -> bool {
    match r {
        ResponseValue::Object(o) => keys_of(o@).no_duplicates(),
        ResponseValue::Single(_) => true,
    }
}

/// Names in strictly ascending code-point order.
pub open spec fn names_ascending(s: Seq<Seq<char>>) -> bool {
    forall|i: int, j: int| 0 <= i < j < s.len() ==> lex_order(#[trigger] s[i], #[trigger] s[j]) < 0
}

/// An object holds its fields in ascending order of their names, as
/// SurrealDB's objects (sorted maps) do.
pub open spec fn fields_ascending(r: ResponseValue) -> bool {
    match r {
        ResponseValue::Object(o) => names_ascending(keys_of(o@)),
        ResponseValue::Single(_) => true,
    }
}

/// The column names: the fields of the first record when it is an object.
pub open spec fn response_headers(rs: Seq<ResponseValue>) -> Seq<Seq<char>> {
    if rs.len() > 0 {
        match rs[0] {
            ResponseValue::Object(o) => keys_of(o@),
            ResponseValue::Single(_) => Seq::empty(),
        }
    } else {
        Seq::empty()
    }
}

/// A record's row: an object's values in column order (`Null` for a missing
/// field), or the single value alone.
pub open spec fn response_row(r: ResponseValue, headers: Seq<Seq<char>>) -> Seq<Value> {
    match r {
        ResponseValue::Object(o) => headers.map_values(|h: Seq<char>| field_of(o@, h)),
        ResponseValue::Single(v) => seq![v],
    }
}

/// The records of a statement's result.
pub open spec fn statement_records(v: StatementValue) -> Seq<ResponseValue> {
    match v {
        StatementValue::Array(a) => a@,
        StatementValue::Object(o) => seq![ResponseValue::Object(o)],
        StatementValue::Nothing => Seq::empty(),
        StatementValue::Other(x) => seq![ResponseValue::Single(x)],
    }
}

proof fn lemma_field_of_remove(s: Seq<(String, Value)>, j: int, key: Seq<char>)
    requires
        0 <= j < s.len(),
        s[j].0@ != key,
    ensures
        field_of(s.remove(j), key) == field_of(s, key),
    decreases s.len(),
{
    if j == 0 {
        assert(s.remove(0) =~= s.drop_first());
    } else {
        assert(s.remove(j)[0] == s[0]);
        if s[0].0@ != key {
            assert(s.remove(j).drop_first() =~= s.drop_first().remove(j - 1));
            lemma_field_of_remove(s.drop_first(), j - 1, key);
        }
    }
}

proof fn lemma_field_of_at(s: Seq<(String, Value)>, j: int)
    requires
        0 <= j < s.len(),
        keys_of(s).no_duplicates(),
    ensures
        field_of(s, s[j].0@) == s[j].1,
    decreases s.len(),
{
    if j > 0 {
        assert(keys_of(s)[0] != keys_of(s)[j]);
        let t = s.drop_first();
        assert(keys_of(t) =~= keys_of(s).drop_first());
        assert(t[j - 1] == s[j]);
        lemma_field_of_at(t, j - 1);
    }
}

proof fn lemma_field_of_absent(s: Seq<(String, Value)>, key: Seq<char>)
    requires
        forall|j: int| 0 <= j < s.len() ==> s[j].0@ != key,
    ensures
        field_of(s, key) == Value::Null,
    decreases s.len(),
{
    if s.len() > 0 {
        let t = s.drop_first();
        assert forall|j: int| 0 <= j < t.len() implies t[j].0@ != key by {
            assert(t[j] == s[j + 1]);
        }
        lemma_field_of_absent(t, key);
    }
}

/// An object's values in the order of `headers`, taken out of the object.
fn object_row(obj: Vec<(String, Value)>, headers: &Vec<String>) -> (r: Vec<Value>)
    requires
        keys_of(obj@).no_duplicates(),
        string_views(headers@).no_duplicates(),
    ensures
        r@ == string_views(headers@).map_values(|h: Seq<char>| field_of(obj@, h)),
{
    let ghost orig = obj@;
    let ghost hs = string_views(headers@);
    let mut entries = obj;
    let mut values: Vec<Value> = Vec::new();
    let mut k: usize = 0;
    while k < headers.len()
        invariant
            k <= headers@.len(),
            hs == string_views(headers@),
            hs.no_duplicates(),
            keys_of(entries@).no_duplicates(),
            values@ == hs.take(k as int).map_values(|h: Seq<char>| field_of(orig, h)),
            forall|m: int| k <= m < hs.len() ==> field_of(entries@, #[trigger] hs[m]) == field_of(orig, hs[m]),
        decreases headers@.len() - k,
    {
        let h = headers[k].as_str();
        assert(hs[k as int] == h@);
        let mut j: usize = 0;
        while j < entries.len() && !str_equal(entries[j].0.as_str(), h)
            invariant
                j <= entries@.len(),
                forall|i: int| 0 <= i < j ==> entries@[i].0@ != h@,
            decreases entries@.len() - j,
        {
            j = j + 1;
        }
        let ghost before = entries@;
        let ghost prev = values@;
        if j < entries.len() {
            proof {
                lemma_field_of_at(before, j as int);
                assert forall|m: int| k < m < hs.len() implies field_of(before.remove(j as int), #[trigger] hs[m]) == field_of(orig, hs[m]) by {
                    assert(hs[m] != hs[k as int]);
                    lemma_field_of_remove(before, j as int, hs[m]);
                }
                assert(keys_of(before.remove(j as int)) =~= keys_of(before).remove(j as int));
                assert(keys_of(before).remove(j as int).no_duplicates()) by {
                    let ks = keys_of(before);
                    assert forall|a: int, b: int| 0 <= a < b < ks.remove(j as int).len() implies ks.remove(j as int)[a] != ks.remove(j as int)[b] by {
                        let a2 = if a < j { a } else { a + 1 };
                        let b2 = if b < j { b } else { b + 1 };
                        assert(ks.remove(j as int)[a] == ks[a2]);
                        assert(ks.remove(j as int)[b] == ks[b2]);
                    }
                }
            }
            let (_, v) = entries.remove(j);
            values.push(v);
        } else {
            proof {
                lemma_field_of_absent(before, h@);
            }
            values.push(Value::Null);
        }
        proof {
            assert(hs.take(k + 1) =~= hs.take(k as int).push(hs[k as int]));
            assert(values@ =~= hs.take(k + 1).map_values(|h: Seq<char>| field_of(orig, h)));
        }
        k = k + 1;
    }
    assert(hs.take(k as int) =~= hs);
    values
}

/// Turns the records of a result into column names and rows: the names are
/// the fields of the first record (when it is an object), so in ascending
/// order, and each record gives one row.
pub fn tabulate(response: Vec<ResponseValue>) -> (r: QueryResult)
    requires
        forall|i: int| 0 <= i < response@.len() ==> fields_distinct(#[trigger] response@[i]),
        forall|i: int| 0 <= i < response@.len() ==> fields_ascending(#[trigger] response@[i]),
    ensures
        string_views(r.headers@) == response_headers(response@),
        names_ascending(string_views(r.headers@)),
        r.rows@.len() == response@.len(),
        forall|i: int| 0 <= i < response@.len() ==> (#[trigger] r.rows@[i]).values@ == response_row(response@[i], response_headers(response@)),
{
    let ghost orig = response@;
    let mut headers: Vec<String> = Vec::new();
    if response.len() > 0 {
        match &response[0] {
            ResponseValue::Object(first) => {
                let mut k: usize = 0;
                while k < first.len()
                    invariant
                        k <= first@.len(),
                        string_views(headers@) == keys_of(first@).take(k as int),
                    decreases first@.len() - k,
                {
                    let ghost before = string_views(headers@);
                    headers.push(first[k].0.clone());
                    assert(string_views(headers@) =~= before.push(first@[k as int].0@));
                    assert(keys_of(first@).take(k + 1) =~= keys_of(first@).take(k as int).push(first@[k as int].0@));
                    k = k + 1;
                }
                assert(keys_of(first@).take(k as int) =~= keys_of(first@));
            },
            ResponseValue::Single(_) => {},
        }
    }
    let ghost hs = string_views(headers@);
    assert(hs == response_headers(orig));
    assert(hs.no_duplicates() && names_ascending(hs)) by {
        if orig.len() > 0 {
            assert(fields_distinct(orig[0]));
            assert(fields_ascending(orig[0]));
        }
    }
    let mut rest = response;
    let mut rows: Vec<Row> = Vec::new();
    let ghost mut n: int = 0;
    assert(orig.skip(0) =~= orig);
    while rest.len() > 0
        invariant
            0 <= n <= orig.len(),
            rest@ == orig.skip(n),
            hs == string_views(headers@),
            hs == response_headers(orig),
            hs.no_duplicates(),
            forall|i: int| 0 <= i < orig.len() ==> fields_distinct(#[trigger] orig[i]),
            rows@.len() == n,
            forall|i: int| 0 <= i < n ==> (#[trigger] rows@[i]).values@ == response_row(orig[i], hs),
        decreases rest@.len(),
    {
        let ghost old_rest = rest@;
        let record = rest.remove(0);
        proof {
            assert(record == orig[n]);
            assert(rest@ =~= orig.skip(n + 1));
        }
        let values = match record {
            ResponseValue::Object(obj) => object_row(obj, &headers),
            ResponseValue::Single(v) => vec![v],
        };
        rows.push(Row::new(values));
        proof {
            n = n + 1;
        }
    }
    QueryResult { headers, rows }
}

/// The records of a statement's result: an array's elements, an object
/// alone, nothing, or a single other value.
pub fn records_of(value: StatementValue) -> (r: Vec<ResponseValue>)
    ensures
        r@ == statement_records(value),
{
    match value {
        StatementValue::Array(a) => a,
        StatementValue::Object(o) => vec![ResponseValue::Object(o)],
        StatementValue::Nothing => Vec::new(),
        StatementValue::Other(x) => vec![ResponseValue::Single(x)],
    }
}

/// Names ascend when each comes before the next.
pub proof fn lemma_names_ascending_from_adjacent(s: Seq<Seq<char>>)
    requires
        forall|k: int| 0 <= k < s.len() - 1 ==> lex_order(#[trigger] s[k], s[k + 1]) < 0,
    ensures
        names_ascending(s),
    decreases s.len(),
{
    if s.len() > 1 {
        let d = s.drop_last();
        assert forall|k: int| 0 <= k < d.len() - 1 implies lex_order(#[trigger] d[k], d[k + 1]) < 0 by {
            assert(d[k] == s[k] && d[k + 1] == s[k + 1]);
            assert(lex_order(s[k], s[k + 1]) < 0);
        }
        lemma_names_ascending_from_adjacent(d);
        let n = s.len() - 1;
        assert forall|i: int, j: int| 0 <= i < j < s.len() implies lex_order(#[trigger] s[i], #[trigger] s[j]) < 0 by {
            if j < n {
                assert(d[i] == s[i] && d[j] == s[j]);
                assert(lex_order(d[i], d[j]) < 0);
            } else if i < n - 1 {
                assert(d[i] == s[i] && d[n - 1] == s[n - 1]);
                assert(lex_order(d[i], d[n - 1]) < 0);
                assert(lex_order(s[n - 1], s[n]) < 0);
                lemma_lex_order_trans(s[i], s[n - 1], s[n]);
                lemma_lex_order_range(s[i], s[n]);
                lemma_lex_order_range(s[i], s[n - 1]);
                lemma_lex_order_range(s[n - 1], s[n]);
                if s[i] == s[n] {
                    assert(lex_order(s[n - 1], s[i]) == -lex_order(s[i], s[n - 1]));
                }
            } else {
                assert(lex_order(s[n - 1], s[n]) < 0);
            }
        }
    }
}

} // verus!
