//! Backend abstraction layer for database operations.
//!
//! Query results are plain values: a `QueryResult` holds column names and
//! rows, a `Row` holds `Value`s. A backend implements `Database` by running the
//! query text with its parameters and handing back such a result.

use vstd::prelude::*;
use crate::text::{chars_of, compare_char_vecs, lex_order, lemma_lex_order_range, lemma_lex_order_trans, str_equal, string_views};
use crate::db::DbError;

pub mod cozo;
pub mod surreal_rows;
pub mod surrealdb_schema;

verus! {

/// A value in a result row, as the queries read it.
///
/// Numbers are integers (a backend hands a fractional number over truncated,
/// as the queries only read integers); `Thing` is a record reference holding
/// its id (for functions an array `[module, name, arity]`).
#[derive(Debug)]
pub enum Value {
    Null,
    Bool(bool),
    Int(i64),
    Str(String),
    Array(Vec<Value>),
    Thing(Box<Value>),
    Other,
}

impl Value {
    /// The string held, if the value is a string.
    pub open spec fn spec_str(&self) -> Option<String> {
        match self {
            Value::Str(s) => Some(*s),
            _ => None,
        }
    }

    /// The integer held, if the value is a number.
    pub open spec fn spec_i64(&self) -> Option<i64> {
        match self {
            Value::Int(n) => Some(*n),
            _ => None,
        }
    }

    /// The boolean held, if the value is a boolean.
    pub open spec fn spec_bool(&self) -> Option<bool> {
        match self {
            Value::Bool(b) => Some(*b),
            _ => None,
        }
    }

    /// Attempts to extract the value as a string reference.
    pub fn as_str(&self) -> (r: Option<&str>)
        ensures
            match r {
                Some(t) => self.spec_str() matches Some(s) && t@ == s@,
                None => self.spec_str() is None,
            },
    {
        match self {
            Value::Str(s) => Some(s.as_str()),
            _ => None,
        }
    }

    /// Attempts to extract the value as a signed 64-bit integer.
    pub fn as_i64(&self) -> (r: Option<i64>)
        ensures
            r == self.spec_i64(),
    {
        match self {
            Value::Int(n) => Some(*n),
            _ => None,
        }
    }

    /// Attempts to extract the value as a boolean.
    pub fn as_bool(&self) -> (r: Option<bool>)
        ensures
            r == self.spec_bool(),
    {
        match self {
            Value::Bool(b) => Some(*b),
            _ => None,
        }
    }

    /// Attempts to extract the value as an array of values.
    pub fn as_array(&self) -> (r: Option<&Vec<Value>>)
        ensures
            match r {
                Some(a) => self matches Value::Array(b) && *a == b,
                None => !(self is Array),
            },
    {
        match self {
            Value::Array(a) => Some(a),
            _ => None,
        }
    }

    /// Attempts to extract the id from a record reference.
    pub fn as_thing_id(&self) -> (r: Option<&Value>)
        ensures
            match r {
                Some(a) => self matches Value::Thing(b) && *a == *b,
                None => !(self is Thing),
            },
    {
        match self {
            Value::Thing(id) => Some(&**id),
            _ => None,
        }
    }
}

/// A single result row: column values by index.
#[derive(Debug)]
pub struct Row {
    pub values: Vec<Value>,
}

impl Row {
    pub fn new(values: Vec<Value>) -> (r: Row)
        ensures
            r.values == values,
    {
        Row { values }
    }

    /// Retrieves the value at the specified column index.
    pub fn get(&self, index: usize) -> (r: Option<&Value>)
        ensures
            match r {
                Some(v) => index < self.values@.len() && *v == self.values@[index as int],
                None => index >= self.values@.len(),
            },
    {
        if index < self.values.len() {
            Some(&self.values[index])
        } else {
            None
        }
    }

    /// Returns the number of columns in this row.
    pub fn len(&self) -> (r: usize)
        ensures
            r == self.values@.len(),
    {
        self.values.len()
    }

    /// Returns true if the row is empty (contains no columns).
    pub fn is_empty(&self) -> (r: bool)
        ensures
            r == (self.values@.len() == 0),
    {
        self.values.len() == 0
    }
}

/// The result of a query: column names and rows.
#[derive(Debug)]
pub struct QueryResult {
    pub headers: Vec<String>,
    pub rows: Vec<Row>,
}

impl QueryResult {
    /// Returns the names of columns in the result set.
    pub fn headers(&self) -> (r: &Vec<String>)
        ensures
            *r == self.headers,
    {
        &self.headers
    }

    /// Returns the rows in the result set.
    pub fn rows(&self) -> (r: &Vec<Row>)
        ensures
            *r == self.rows,
    {
        &self.rows
    }

    /// Consumes this result and returns the rows.
    pub fn into_rows(self) -> (r: Vec<Row>)
        ensures
            r == self.rows,
    {
        self.rows
    }
}

/// Backend-agnostic parameter values for database queries.
#[derive(Debug, Clone)]
pub enum ValueType {
    /// String value
    Str(String),
    /// Integer value
    Int(i64),
    /// Boolean value
    Bool(bool),
    /// Array of strings
    StrArray(Vec<String>),
}

/// What a parameter value holds, as plain values.
pub enum ParamView {
    Str(Seq<char>),
    Int(i64),
    Bool(bool),
    StrArray(Seq<Seq<char>>),
}

impl View for ValueType {
    type V = ParamView;

    open spec fn view(&self) -> ParamView {
        match self {
            ValueType::Str(s) => ParamView::Str(s@),
            ValueType::Int(n) => ParamView::Int(*n),
            ValueType::Bool(b) => ParamView::Bool(*b),
            ValueType::StrArray(v) => ParamView::StrArray(string_views(v@)),
        }
    }
}

/// Container for query parameters: names mapped to values, kept in the
/// order of their names (as a `BTreeMap` iterates), each name once.
#[derive(Debug)]
pub struct QueryParams {
    params: Vec<(String, ValueType)>,
}

/// Keys strictly increasing in code-point order.
pub open spec fn keys_ascending(s: Seq<(String, ValueType)>) -> bool {
    forall|i: int, j: int| 0 <= i < j < s.len() ==> lex_order(#[trigger] s[i].0@, #[trigger] s[j].0@) < 0
}

impl QueryParams {
    #[verifier::type_invariant]
    spec fn well_formed(self) -> bool {
        keys_ascending(self.params@)
    }

    /// The entries, in the order of their names.
    pub closed spec fn entries(self) -> Seq<(String, ValueType)> {
        self.params@
    }

    /// The value bound to `key`, if any.
    pub open spec fn lookup(self, key: Seq<char>) -> Option<ValueType> {
        lookup_in(self.entries(), key)
    }

    /// The value bound to `key`, as plain values.
    pub open spec fn binding(self, key: Seq<char>) -> Option<ParamView> {
        match self.lookup(key) {
            Some(v) => Some(v@),
            None => None,
        }
    }

    /// The names bound, and their values, are exactly those of `m`.
    pub open spec fn binds_exactly(self, m: Map<Seq<char>, ParamView>) -> bool {
        forall|k: Seq<char>| #[trigger] self.binding(k) == (if m.contains_key(k) { Some(m[k]) } else { None })
    }

    /// The number of names bound.
    pub open spec fn size(self) -> nat {
        self.entries().len()
    }

    /// Creates a new empty parameter container.
    pub fn new() -> (r: Self)
        ensures
            r.size() == 0,
            forall|k: Seq<char>| r.lookup(k) is None,
            r.binds_exactly(Map::empty()),
    {
        QueryParams { params: Vec::new() }
    }

    /// Binds `key` to `value`, replacing an earlier binding of `key`.
    pub fn insert(&mut self, key: String, value: ValueType)
        ensures
            final(self).lookup(key@) == Some(value),
            forall|k: Seq<char>| k != key@ ==> final(self).lookup(k) == old(self).lookup(k),
            final(self).size() == old(self).size() + (if old(self).lookup(key@) is Some { 0int } else { 1int }),
    {
        proof { use_type_invariant(&*self); }
        let mut ps: Vec<(String, ValueType)> = Vec::new();
        std::mem::swap(&mut ps, &mut self.params);
        let ghost old_params = ps@;
        assert(keys_ascending(old_params));
        let kc = chars_of(key.as_str());
        let mut p: usize = 0;
        let mut found = false;
        while p < ps.len() && !found
            invariant
                p <= ps@.len(),
                ps@ == old_params,
                kc@ == key@,
                keys_ascending(ps@),
                forall|j: int| 0 <= j < p ==> lex_order(#[trigger] ps@[j].0@, key@) < 0,
                found ==> p < ps@.len() && lex_order(ps@[p as int].0@, key@) >= 0,
            decreases ps@.len() - p + (if found { 0int } else { 1int }),
        {
            let c = compare_char_vecs(&chars_of(ps[p].0.as_str()), &kc);
            if c >= 0 {
                found = true;
            } else {
                p = p + 1;
            }
        }
        if found && str_equal(ps[p].0.as_str(), key.as_str()) {
            proof {
                lemma_lookup_update(old_params, p as int, key, value);
            }
            ps.set(p, (key, value));
        } else {
            proof {
                if p < old_params.len() {
                    lemma_lex_order_range(old_params[p as int].0@, key@);
                }
                lemma_insert_sorted(old_params, p as int, key, value);
            }
            ps.insert(p, (key, value));
        }
        self.params = ps;
    }

    /// Inserts a parameter with a string value.
    pub fn with_str(self, key: &str, value: &str) -> (r: Self)
        ensures
            r.lookup(key@) matches Some(ValueType::Str(s)) && s@ == value@,
            forall|k: Seq<char>| k != key@ ==> r.lookup(k) == self.lookup(k),
            forall|m: Map<Seq<char>, ParamView>|
                self.binds_exactly(m) ==> #[trigger] r.binds_exactly(m.insert(key@, ParamView::Str(value@))),
    {
        let mut r = self;
        r.insert(key.to_owned(), ValueType::Str(value.to_owned()));
        proof {
            assert forall|m: Map<Seq<char>, ParamView>| self.binds_exactly(m) implies #[trigger] r.binds_exactly(m.insert(key@, ParamView::Str(value@))) by {
                lemma_binds_insert(self, r, m, key@);
            }
        }
        r
    }

    /// Inserts a parameter with an integer value.
    pub fn with_int(self, key: &str, value: i64) -> (r: Self)
        ensures
            r.lookup(key@) == Some(ValueType::Int(value)),
            forall|k: Seq<char>| k != key@ ==> r.lookup(k) == self.lookup(k),
            forall|m: Map<Seq<char>, ParamView>|
                self.binds_exactly(m) ==> #[trigger] r.binds_exactly(m.insert(key@, ParamView::Int(value))),
    {
        let mut r = self;
        r.insert(key.to_owned(), ValueType::Int(value));
        proof {
            assert forall|m: Map<Seq<char>, ParamView>| self.binds_exactly(m) implies #[trigger] r.binds_exactly(m.insert(key@, ParamView::Int(value))) by {
                lemma_binds_insert(self, r, m, key@);
            }
        }
        r
    }

    /// Inserts a parameter with a boolean value.
    pub fn with_bool(self, key: &str, value: bool) -> (r: Self)
        ensures
            r.lookup(key@) == Some(ValueType::Bool(value)),
            forall|k: Seq<char>| k != key@ ==> r.lookup(k) == self.lookup(k),
            forall|m: Map<Seq<char>, ParamView>|
                self.binds_exactly(m) ==> #[trigger] r.binds_exactly(m.insert(key@, ParamView::Bool(value))),
    {
        let mut r = self;
        r.insert(key.to_owned(), ValueType::Bool(value));
        proof {
            assert forall|m: Map<Seq<char>, ParamView>| self.binds_exactly(m) implies #[trigger] r.binds_exactly(m.insert(key@, ParamView::Bool(value))) by {
                lemma_binds_insert(self, r, m, key@);
            }
        }
        r
    }

    /// Inserts a parameter with an array of strings.
    pub fn with_str_array(self, key: &str, value: Vec<String>) -> (r: Self)
        ensures
            r.lookup(key@) == Some(ValueType::StrArray(value)),
            forall|k: Seq<char>| k != key@ ==> r.lookup(k) == self.lookup(k),
            forall|m: Map<Seq<char>, ParamView>|
                self.binds_exactly(m) ==> #[trigger] r.binds_exactly(m.insert(key@, ParamView::StrArray(string_views(value@)))),
    {
        let mut r = self;
        r.insert(key.to_owned(), ValueType::StrArray(value));
        proof {
            assert forall|m: Map<Seq<char>, ParamView>| self.binds_exactly(m) implies #[trigger] r.binds_exactly(m.insert(key@, ParamView::StrArray(string_views(value@)))) by {
                lemma_binds_insert(self, r, m, key@);
            }
        }
        r
    }

    /// Returns the parameters, in the order of their names.
    pub fn params(&self) -> (r: &Vec<(String, ValueType)>)
        ensures
            r@ == self.entries(),
    {
        &self.params
    }

    /// Returns the number of parameters.
    pub fn len(&self) -> (r: usize)
        ensures
            r == self.size(),
    {
        self.params.len()
    }

    /// The value bound to `key`, if any.
    pub fn get(&self, key: &str) -> (r: Option<&ValueType>)
        ensures
            match r {
                Some(v) => self.lookup(key@) == Some(*v),
                None => self.lookup(key@) is None,
            },
    {
        let mut i: usize = 0;
        while i < self.params.len()
            invariant
                i <= self.params@.len(),
                forall|j: int| 0 <= j < i ==> #[trigger] self.params@[j].0@ != key@,
            decreases self.params@.len() - i,
        {
            if str_equal(self.params[i].0.as_str(), key) {
                proof {
                    use_type_invariant(self);
                    lemma_lookup_at(self.params@, i as int);
                }
                return Some(&self.params[i].1);
            }
            i = i + 1;
        }
        proof {
            lemma_lookup_none(self.params@, key@);
        }
        None
    }

    /// Whether `key` is bound.
    pub fn contains_key(&self, key: &str) -> (r: bool)
        ensures
            r == self.lookup(key@) is Some,
    {
        self.get(key).is_some()
    }
}

/// Binding `key` on top of parameters that bind exactly `m` gives parameters
/// that bind exactly `m` with `key` set to the new value.
proof fn lemma_binds_insert(p: QueryParams, q: QueryParams, m: Map<Seq<char>, ParamView>, key: Seq<char>)
    requires
        p.binds_exactly(m),
        q.lookup(key) is Some,
        forall|k: Seq<char>| k != key ==> q.lookup(k) == p.lookup(k),
    ensures
        q.binds_exactly(m.insert(key, q.binding(key).unwrap())),
{
    let mm = m.insert(key, q.binding(key).unwrap());
    assert forall|k: Seq<char>| #[trigger] q.binding(k) == (if mm.contains_key(k) { Some(mm[k]) } else { None }) by {
        if k != key {
            assert(p.binding(k) == (if m.contains_key(k) { Some(m[k]) } else { None }));
        }
    }
}

/// The value bound to `key` in a sequence of entries, if any.
pub open spec fn lookup_in(s: Seq<(String, ValueType)>, key: Seq<char>) -> Option<ValueType>
    decreases s.len(),
{
    if s.len() == 0 {
        None
    } else if s.last().0@ == key {
        Some(s.last().1)
    } else {
        lookup_in(s.drop_last(), key)
    }
}

proof fn lemma_lookup_none(s: Seq<(String, ValueType)>, key: Seq<char>)
    requires
        forall|i: int| 0 <= i < s.len() ==> #[trigger] s[i].0@ != key,
    ensures
        lookup_in(s, key) is None,
    decreases s.len(),
{
    if s.len() > 0 {
        assert(s.last().0@ != key);
        assert forall|i: int| 0 <= i < s.drop_last().len() implies #[trigger] s.drop_last()[i].0@ != key by {
            assert(s.drop_last()[i] == s[i]);
        }
        lemma_lookup_none(s.drop_last(), key);
    }
}

proof fn lemma_lookup_at(s: Seq<(String, ValueType)>, i: int)
    requires
        keys_ascending(s),
        0 <= i < s.len(),
    ensures
        lookup_in(s, s[i].0@) == Some(s[i].1),
    decreases s.len(),
{
    if i < s.len() - 1 {
        assert(lex_order(s[i].0@, s[s.len() - 1].0@) < 0);
        lemma_lex_order_range(s[i].0@, s[s.len() - 1].0@);
        let d = s.drop_last();
        assert forall|a: int, b: int| 0 <= a < b < d.len() implies lex_order(#[trigger] d[a].0@, #[trigger] d[b].0@) < 0 by {
            assert(d[a] == s[a] && d[b] == s[b]);
        }
        assert(d[i] == s[i]);
        lemma_lookup_at(d, i);
    }
}

/// `lookup_in` on entries with ascending keys: the entry carrying the key, or none.
proof fn lemma_lookup_cases(s: Seq<(String, ValueType)>, key: Seq<char>)
    requires
        keys_ascending(s),
    ensures
        lookup_in(s, key) is None <==> forall|i: int| 0 <= i < s.len() ==> #[trigger] s[i].0@ != key,
        forall|i: int| 0 <= i < s.len() && #[trigger] s[i].0@ == key ==> lookup_in(s, key) == Some(s[i].1),
{
    if exists|i: int| 0 <= i < s.len() && #[trigger] s[i].0@ == key {
        let i = choose|i: int| 0 <= i < s.len() && #[trigger] s[i].0@ == key;
        lemma_lookup_at(s, i);
    } else {
        lemma_lookup_none(s, key);
    }
    assert forall|i: int| 0 <= i < s.len() && #[trigger] s[i].0@ == key implies lookup_in(s, key) == Some(s[i].1) by {
        lemma_lookup_at(s, i);
    }
}

proof fn lemma_lookup_update(s: Seq<(String, ValueType)>, p: int, key: String, value: ValueType)
    requires
        keys_ascending(s),
        0 <= p < s.len(),
        s[p].0@ == key@,
    ensures
        keys_ascending(s.update(p, (key, value))),
        lookup_in(s.update(p, (key, value)), key@) == Some(value),
        forall|k: Seq<char>| k != key@ ==> lookup_in(s.update(p, (key, value)), k) == lookup_in(s, k),
        s.update(p, (key, value)).len() == s.len(),
        lookup_in(s, key@) is Some,
{
    let t = s.update(p, (key, value));
    assert forall|i: int, j: int| 0 <= i < j < t.len() implies lex_order(#[trigger] t[i].0@, #[trigger] t[j].0@) < 0 by {
        assert(lex_order(s[i].0@, s[j].0@) < 0);
    }
    lemma_lookup_at(t, p);
    lemma_lookup_at(s, p);
    assert forall|k: Seq<char>| k != key@ implies lookup_in(t, k) == lookup_in(s, k) by {
        lemma_lookup_cases(s, k);
        lemma_lookup_cases(t, k);
        if exists|i: int| 0 <= i < s.len() && #[trigger] s[i].0@ == k {
            let i = choose|i: int| 0 <= i < s.len() && #[trigger] s[i].0@ == k;
            assert(t[i] == s[i]);
        } else {
            assert forall|i: int| 0 <= i < t.len() implies #[trigger] t[i].0@ != k by {
                if i != p {
                    assert(t[i] == s[i]);
                }
            }
        }
    }
}

proof fn lemma_insert_sorted(s: Seq<(String, ValueType)>, p: int, key: String, value: ValueType)
    requires
        keys_ascending(s),
        0 <= p <= s.len(),
        forall|j: int| 0 <= j < p ==> lex_order(#[trigger] s[j].0@, key@) < 0,
        p < s.len() ==> lex_order(s[p].0@, key@) > 0,
    ensures
        keys_ascending(s.insert(p, (key, value))),
        lookup_in(s.insert(p, (key, value)), key@) == Some(value),
        forall|k: Seq<char>| k != key@ ==> lookup_in(s.insert(p, (key, value)), k) == lookup_in(s, k),
        s.insert(p, (key, value)).len() == s.len() + 1,
        lookup_in(s, key@) is None,
{
    let t = s.insert(p, (key, value));
    assert forall|j: int| p <= j < s.len() implies lex_order(key@, #[trigger] s[j].0@) < 0 by {
        lemma_lex_order_range(s[p].0@, key@);
        if j > p {
            assert(lex_order(s[p].0@, s[j].0@) < 0);
            lemma_lex_order_range(s[p].0@, s[j].0@);
            lemma_lex_order_trans(key@, s[p].0@, s[j].0@);
            lemma_lex_order_range(key@, s[j].0@);
            if lex_order(key@, s[j].0@) == 0 {
                lemma_lex_order_range(s[p].0@, key@);
            }
        }
    }
    assert forall|i: int, j: int| 0 <= i < j < t.len() implies lex_order(#[trigger] t[i].0@, #[trigger] t[j].0@) < 0 by {
        if j < p {
            assert(t[i] == s[i] && t[j] == s[j]);
        } else if j == p {
            assert(t[i] == s[i]);
        } else if i < p {
            assert(t[i] == s[i] && t[j] == s[j - 1]);
            assert(lex_order(s[i].0@, key@) < 0);
            assert(lex_order(key@, s[j - 1].0@) < 0);
            lemma_lex_order_trans(s[i].0@, key@, s[j - 1].0@);
            lemma_lex_order_range(s[i].0@, s[j - 1].0@);
            if lex_order(s[i].0@, s[j - 1].0@) == 0 {
                lemma_lex_order_range(s[i].0@, key@);
                lemma_lex_order_range(key@, s[j - 1].0@);
            }
        } else if i == p {
            assert(t[j] == s[j - 1]);
        } else {
            assert(t[i] == s[i - 1] && t[j] == s[j - 1]);
        }
    }
    assert(t[p].0@ == key@);
    lemma_lookup_at(t, p);
    assert forall|j: int| 0 <= j < s.len() implies #[trigger] s[j].0@ != key@ by {
        if j < p {
            lemma_lex_order_range(s[j].0@, key@);
        } else {
            lemma_lex_order_range(key@, s[j].0@);
        }
    }
    lemma_lookup_none(s, key@);
    assert forall|k: Seq<char>| k != key@ implies lookup_in(t, k) == lookup_in(s, k) by {
        lemma_lookup_cases(s, k);
        lemma_lookup_cases(t, k);
        if exists|i: int| 0 <= i < s.len() && #[trigger] s[i].0@ == k {
            let i = choose|i: int| 0 <= i < s.len() && #[trigger] s[i].0@ == k;
            let ti = if i < p { i } else { i + 1 };
            assert(t[ti] == s[i]);
        } else {
            assert forall|i: int| 0 <= i < t.len() implies #[trigger] t[i].0@ != k by {
                if i < p {
                    assert(t[i] == s[i]);
                } else if i > p {
                    assert(t[i] == s[i - 1]);
                }
            }
        }
    }
}

/// Core trait for database operations: a backend runs the query text with its
/// parameters and returns the result rows, or fails.
///
/// `answers` is the backend's own account of which outcomes a query may have;
/// callers learn nothing more of the outcome than that it is one of them. A
/// backend that gives no account allows every outcome.
pub trait Database {
    /// `outcome` is an outcome this backend may give for `query` with `params`.
    closed spec fn answers(&self, query: Seq<char>, params: QueryParams, outcome: Result<QueryResult, DbError>) -> bool {
        true
    }

    /// Executes a query with the provided parameters.
    fn execute_query(&self, query: &str, params: QueryParams) -> (r: Result<QueryResult, DbError>)
        ensures
            self.answers(query@, params, r),
    ;

    /// Executes a query without parameters.
    fn execute_query_no_params(&self, query: &str) -> (r: Result<QueryResult, DbError>)
        ensures
            exists|p: QueryParams| p.size() == 0 && #[trigger] self.answers(query@, p, r),
    {
        let p = QueryParams::new();
        let ghost gp = p;
        let r = self.execute_query(query, p);
        assert(gp.size() == 0 && self.answers(query@, gp, r));
        r
    }
}

} // verus!
