//! A stable sort by composite keys (text fields in code-point order and
//! integer fields ascending or descending): the output is the insertion sort
//! of the input, which is ordered by key and holds the same elements.

use vstd::prelude::*;
use crate::text::{lex_order, lemma_lex_order_range, lemma_lex_order_trans, compare_char_vecs};
use crate::queries::rows::views;

verus! {

/// One component of a sort key, as the order sees it.
pub enum SortField {
    Text(Seq<char>),
    Asc(int),
    Desc(int),
}

/// One component of a sort key, as it is computed.
pub enum KeyPart {
    Text(Vec<char>),
    Asc(i64),
    Desc(i64),
}

impl KeyPart {
    pub open spec fn field(&self) -> SortField {
        match self {
            KeyPart::Text(v) => SortField::Text(v@),
            KeyPart::Asc(n) => SortField::Asc(*n as int),
            KeyPart::Desc(n) => SortField::Desc(*n as int),
        }
    }
}

pub open spec fn key_view(k: Seq<KeyPart>) -> Seq<SortField> {
    k.map_values(|p: KeyPart| p.field())
}

pub open spec fn tag_of(f: SortField) -> int {
    match f {
        SortField::Text(_) => 0,
        SortField::Asc(_) => 1,
        SortField::Desc(_) => 2,
    }
}

pub open spec fn int_order(a: int, b: int) -> int {
    if a < b { -1 } else if a > b { 1 } else { 0 }
}

/// Three-way order of two key components.
pub open spec fn field_order(a: SortField, b: SortField) -> int {
    match (a, b) {
        (SortField::Text(x), SortField::Text(y)) => lex_order(x, y),
        (SortField::Asc(x), SortField::Asc(y)) => int_order(x, y),
        (SortField::Desc(x), SortField::Desc(y)) => int_order(y, x),
        _ => int_order(tag_of(a), tag_of(b)),
    }
}

/// Three-way lexicographic order of two composite keys.
pub open spec fn key_order(a: Seq<SortField>, b: Seq<SortField>) -> int
    decreases a.len(),
{
    if a.len() == 0 {
        if b.len() == 0 { 0 } else { -1 }
    } else if b.len() == 0 {
        1
    } else if field_order(a[0], b[0]) != 0 {
        field_order(a[0], b[0])
    } else {
        key_order(a.drop_first(), b.drop_first())
    }
}

pub proof fn lemma_field_order(a: SortField, b: SortField)
    ensures
        -1 <= field_order(a, b) <= 1,
        field_order(a, b) == -field_order(b, a),
        field_order(a, b) == 0 <==> a == b,
{
    match (a, b) {
        (SortField::Text(x), SortField::Text(y)) => {
            lemma_lex_order_range(x, y);
        },
        _ => {},
    }
}

pub proof fn lemma_field_order_trans(a: SortField, b: SortField, c: SortField)
    requires
        field_order(a, b) <= 0,
        field_order(b, c) <= 0,
    ensures
        field_order(a, c) <= 0,
{
    match (a, b, c) {
        (SortField::Text(x), SortField::Text(y), SortField::Text(z)) => {
            lemma_lex_order_trans(x, y, z);
        },
        _ => {},
    }
}

pub proof fn lemma_key_order(a: Seq<SortField>, b: Seq<SortField>)
    ensures
        -1 <= key_order(a, b) <= 1,
        key_order(a, b) == -key_order(b, a),
        key_order(a, b) == 0 <==> a == b,
    decreases a.len(),
{
    if a.len() > 0 && b.len() > 0 {
        lemma_field_order(a[0], b[0]);
        lemma_key_order(a.drop_first(), b.drop_first());
        if a[0] == b[0] && a.drop_first() == b.drop_first() {
            assert(a =~= seq![a[0]] + a.drop_first());
            assert(b =~= seq![b[0]] + b.drop_first());
        }
        if a == b {
            assert(a.drop_first() == b.drop_first());
        }
    } else if a.len() == 0 && b.len() == 0 {
        assert(a =~= b);
    }
}

pub proof fn lemma_key_order_trans(a: Seq<SortField>, b: Seq<SortField>, c: Seq<SortField>)
    requires
        key_order(a, b) <= 0,
        key_order(b, c) <= 0,
    ensures
        key_order(a, c) <= 0,
    decreases a.len(),
{
    if a.len() > 0 && b.len() > 0 && c.len() > 0 {
        lemma_field_order(a[0], b[0]);
        lemma_field_order(b[0], c[0]);
        lemma_field_order(a[0], c[0]);
        lemma_field_order_trans(a[0], b[0], c[0]);
        if field_order(a[0], b[0]) == 0 && field_order(b[0], c[0]) == 0 {
            lemma_key_order_trans(a.drop_first(), b.drop_first(), c.drop_first());
        } else if field_order(a[0], c[0]) == 0 {
            // a[0] == c[0], so a[0] <= b[0] <= a[0] forces equality on both sides
            lemma_field_order_trans(b[0], c[0], a[0]);
        }
    }
}

/// Strict variant of transitivity used when placing an element.
pub proof fn lemma_key_order_trans_strict(a: Seq<SortField>, b: Seq<SortField>, c: Seq<SortField>)
    requires
        key_order(a, b) < 0,
        key_order(b, c) <= 0,
    ensures
        key_order(a, c) < 0,
{
    lemma_key_order(a, b);
    lemma_key_order(b, c);
    lemma_key_order(a, c);
    lemma_key_order_trans(a, b, c);
    if key_order(a, c) == 0 {
        assert(a == c);
        lemma_key_order(b, a);
    }
}

fn compare_fields(a: &KeyPart, b: &KeyPart) -> (r: i8)
    ensures
        r as int == field_order(a.field(), b.field()),
{
    match (a, b) {
        (KeyPart::Text(x), KeyPart::Text(y)) => compare_char_vecs(x, y),
        (KeyPart::Asc(x), KeyPart::Asc(y)) => if *x < *y { -1 } else if *x > *y { 1 } else { 0 },
        (KeyPart::Desc(x), KeyPart::Desc(y)) => if *y < *x { -1 } else if *y > *x { 1 } else { 0 },
        (KeyPart::Text(_), _) => -1,
        (KeyPart::Asc(_), KeyPart::Text(_)) => 1,
        (KeyPart::Asc(_), _) => -1,
        (KeyPart::Desc(_), _) => 1,
    }
}

/// Three-way comparison of two computed keys.
pub fn compare_keys(a: &Vec<KeyPart>, b: &Vec<KeyPart>) -> (r: i8)
    ensures
        r as int == key_order(key_view(a@), key_view(b@)),
{
    let mut i: usize = 0;
    assert(key_view(a@).skip(0) =~= key_view(a@));
    assert(key_view(b@).skip(0) =~= key_view(b@));
    while i < a.len() && i < b.len()
        invariant
            i <= a.len(),
            i <= b.len(),
            key_order(key_view(a@), key_view(b@)) == key_order(
                key_view(a@).skip(i as int),
                key_view(b@).skip(i as int),
            ),
        decreases a.len() - i,
    {
        let c = compare_fields(&a[i], &b[i]);
        assert(key_view(a@).skip(i as int)[0] == a@[i as int].field());
        assert(key_view(b@).skip(i as int)[0] == b@[i as int].field());
        if c != 0 {
            return c;
        }
        assert(key_view(a@).skip(i as int).drop_first() =~= key_view(a@).skip(i + 1));
        assert(key_view(b@).skip(i as int).drop_first() =~= key_view(b@).skip(i + 1));
        i = i + 1;
    }
    if i < a.len() {
        1
    } else if i < b.len() {
        -1
    } else {
        assert(key_view(a@).skip(i as int).len() == 0);
        0
    }
}

/// A record that can be ordered by a composite key computed from its view.
pub trait Keyed: View + Sized {
    spec fn view_key(v: Self::V) -> Seq<SortField>;

    fn key(&self) -> (k: Vec<KeyPart>)
        ensures
            key_view(k@) == Self::view_key(self@),
    ;
}

/// Places `x` before the first element whose key is at least `x`'s.
pub open spec fn insert_by_key<T: Keyed>(s: Seq<T::V>, x: T::V) -> Seq<T::V>
    decreases s.len(),
{
    if s.len() == 0 {
        seq![x]
    } else if key_order(T::view_key(s[0]), T::view_key(x)) >= 0 {
        seq![x] + s
    } else {
        seq![s[0]] + insert_by_key::<T>(s.drop_first(), x)
    }
}

/// The elements ordered by key, elements with equal keys in their given order.
pub open spec fn sorted_by<T: Keyed>(s: Seq<T::V>) -> Seq<T::V>
    decreases s.len(),
{
    if s.len() == 0 {
        s
    } else {
        insert_by_key::<T>(sorted_by::<T>(s.drop_first()), s[0])
    }
}

/// Every element's key is at most the key of every later element.
pub open spec fn ordered_by_key<T: Keyed>(s: Seq<T::V>) -> bool {
    forall|i: int, j: int|
        0 <= i < j < s.len() ==> key_order(T::view_key(#[trigger] s[i]), T::view_key(#[trigger] s[j])) <= 0
}

proof fn lemma_insert_by_key<T: Keyed>(s: Seq<T::V>, x: T::V, p: int)
    requires
        0 <= p <= s.len(),
        forall|j: int| 0 <= j < p ==> key_order(T::view_key(#[trigger] s[j]), T::view_key(x)) < 0,
        p < s.len() ==> key_order(T::view_key(s[p]), T::view_key(x)) >= 0,
    ensures
        insert_by_key::<T>(s, x) == s.insert(p, x),
    decreases s.len(),
{
    if s.len() == 0 {
        assert(s.insert(p, x) =~= seq![x]);
    } else if p == 0 {
        assert(s.insert(0, x) =~= seq![x] + s);
    } else {
        let t = s.drop_first();
        assert forall|j: int| 0 <= j < p - 1 implies key_order(T::view_key(#[trigger] t[j]), T::view_key(x)) < 0 by {
            assert(t[j] == s[j + 1]);
        }
        if p - 1 < t.len() {
            assert(t[p - 1] == s[p]);
        }
        lemma_insert_by_key::<T>(t, x, p - 1);
        assert(s.insert(p, x) =~= seq![s[0]] + t.insert(p - 1, x));
    }
}

/// Sorts `v` by key, keeping elements with equal keys in their input order.
pub fn stable_sort<T: Keyed>(v: Vec<T>) -> (r: Vec<T>)
    ensures
        views(r@) == sorted_by::<T>(views(v@)),
{
    let ghost orig = views(v@);
    let mut input = v;
    let mut out: Vec<T> = Vec::new();
    let mut keys: Vec<Vec<KeyPart>> = Vec::new();
    assert(orig.skip(orig.len() as int) =~= Seq::<T::V>::empty());
    while input.len() > 0
        invariant
            views(input@) == orig.take(input@.len() as int),
            input@.len() <= orig.len(),
            keys@.len() == out@.len(),
            forall|i: int| 0 <= i < keys@.len() ==> key_view(#[trigger] keys@[i]@) == T::view_key(out@[i]@),
            views(out@) == sorted_by::<T>(orig.skip(input@.len() as int)),
        decreases input@.len(),
    {
        let ghost n = input@.len() as int;
        let ghost before_input = input@;
        let e = input.pop().unwrap();
        proof {
            assert(input@ =~= before_input.drop_last());
            assert(e == before_input[n - 1]);
            assert(views(before_input)[n - 1] == orig.take(n)[n - 1]);
            assert(views(input@) =~= orig.take(n - 1));
            assert(e@ == orig[n - 1]);
            assert(orig.skip(n - 1).drop_first() =~= orig.skip(n));
            assert(orig.skip(n - 1)[0] == orig[n - 1]);
        }
        let k = e.key();
        let mut p: usize = 0;
        while p < keys.len() && compare_keys(&keys[p], &k) < 0
            invariant
                p <= keys@.len(),
                keys@.len() == out@.len(),
                forall|i: int| 0 <= i < keys@.len() ==> key_view(#[trigger] keys@[i]@) == T::view_key(out@[i]@),
                key_view(k@) == T::view_key(e@),
                forall|j: int| 0 <= j < p ==> key_order(T::view_key(#[trigger] views(out@)[j]), T::view_key(e@)) < 0,
            decreases keys@.len() - p,
        {
            assert(views(out@)[p as int] == out@[p as int]@);
            p = p + 1;
        }
        proof {
            if p < out@.len() {
                assert(views(out@)[p as int] == out@[p as int]@);
            }
            lemma_insert_by_key::<T>(views(out@), e@, p as int);
        }
        let ghost before = views(out@);
        let ghost before_keys = keys@;
        out.insert(p, e);
        keys.insert(p, k);
        proof {
            assert(views(out@) =~= before.insert(p as int, e@));
            assert forall|i: int| 0 <= i < keys@.len() implies key_view(#[trigger] keys@[i]@) == T::view_key(out@[i]@) by {
                if i < p {
                    assert(keys@[i] == before_keys[i]);
                } else if i > p {
                    assert(keys@[i] == before_keys[i - 1]);
                }
            }
        }
    }
    assert(orig.skip(0) =~= orig);
    out
}

/// The sorted sequence is ordered by key.
pub proof fn lemma_sorted_by_ordered<T: Keyed>(s: Seq<T::V>)
    ensures
        ordered_by_key::<T>(sorted_by::<T>(s)),
    decreases s.len(),
{
    if s.len() > 0 {
        lemma_sorted_by_ordered::<T>(s.drop_first());
        lemma_insert_keeps_order::<T>(sorted_by::<T>(s.drop_first()), s[0]);
    }
}

proof fn lemma_insert_keeps_order<T: Keyed>(s: Seq<T::V>, x: T::V)
    requires
        ordered_by_key::<T>(s),
    ensures
        ordered_by_key::<T>(insert_by_key::<T>(s, x)),
        insert_by_key::<T>(s, x).to_multiset() == s.to_multiset().insert(x),
        forall|y: T::V| #[trigger] insert_by_key::<T>(s, x).contains(y) ==> y == x || s.contains(y),
    decreases s.len(),
{
    broadcast use vstd::seq_lib::group_seq_properties;
    broadcast use vstd::multiset::group_multiset_axioms;
    let r = insert_by_key::<T>(s, x);
    if s.len() == 0 {
        assert(r =~= seq![x]);
        assert(seq![x] =~= Seq::<T::V>::empty().push(x));
    } else if key_order(T::view_key(s[0]), T::view_key(x)) >= 0 {
        assert forall|i: int, j: int| 0 <= i < j < r.len() implies key_order(T::view_key(#[trigger] r[i]), T::view_key(#[trigger] r[j])) <= 0 by {
            if i == 0 {
                lemma_key_order(T::view_key(s[0]), T::view_key(x));
                assert(r[j] == s[j - 1]);
                if j - 1 > 0 {
                    assert(key_order(T::view_key(s[0]), T::view_key(s[j - 1])) <= 0);
                    lemma_key_order_trans(T::view_key(x), T::view_key(s[0]), T::view_key(s[j - 1]));
                }
            } else {
                assert(r[i] == s[i - 1] && r[j] == s[j - 1]);
            }
        }
        assert(r =~= seq![x] + s);
        vstd::seq_lib::lemma_multiset_commutative(seq![x], s);
        assert(seq![x] =~= Seq::<T::V>::empty().push(x));
    } else {
        let t = s.drop_first();
        assert forall|i: int, j: int| 0 <= i < j < t.len() implies key_order(T::view_key(#[trigger] t[i]), T::view_key(#[trigger] t[j])) <= 0 by {
            assert(t[i] == s[i + 1] && t[j] == s[j + 1]);
        }
        lemma_insert_keeps_order::<T>(t, x);
        let rt = insert_by_key::<T>(t, x);
        assert(r =~= seq![s[0]] + rt);
        assert forall|i: int, j: int| 0 <= i < j < r.len() implies key_order(T::view_key(#[trigger] r[i]), T::view_key(#[trigger] r[j])) <= 0 by {
            if i == 0 {
                assert(r[j] == rt[j - 1]);
                assert(rt.contains(rt[j - 1]));
                if rt[j - 1] == x {
                    lemma_key_order(T::view_key(s[0]), T::view_key(x));
                } else {
                    let k = choose|k: int| 0 <= k < t.len() && t[k] == rt[j - 1];
                    assert(t[k] == s[k + 1]);
                }
            } else {
                assert(r[i] == rt[i - 1] && r[j] == rt[j - 1]);
            }
        }
        vstd::seq_lib::lemma_multiset_commutative(seq![s[0]], rt);
        vstd::seq_lib::lemma_multiset_commutative(seq![s[0]], t);
        assert(s =~= seq![s[0]] + t);
        assert forall|y: T::V| #[trigger] r.contains(y) implies y == x || s.contains(y) by {
            if r.contains(y) {
                let i = choose|i: int| 0 <= i < r.len() && r[i] == y;
                if i > 0 {
                    assert(rt.contains(rt[i - 1]));
                    if rt[i - 1] != x {
                        let k = choose|k: int| 0 <= k < t.len() && t[k] == rt[i - 1];
                        assert(s[k + 1] == y);
                    }
                } else {
                    assert(s[0] == y);
                }
            }
        }
    }
}

/// Sorting keeps every element, each as often as it occurs.
pub proof fn lemma_sorted_by_permutation<T: Keyed>(s: Seq<T::V>)
    ensures
        sorted_by::<T>(s).to_multiset() == s.to_multiset(),
    decreases s.len(),
{
    broadcast use vstd::seq_lib::group_seq_properties;
    if s.len() > 0 {
        lemma_sorted_by_permutation::<T>(s.drop_first());
        lemma_sorted_by_ordered::<T>(s.drop_first());
        lemma_insert_keeps_order::<T>(sorted_by::<T>(s.drop_first()), s[0]);
        vstd::seq_lib::lemma_multiset_commutative(seq![s[0]], s.drop_first());
        assert(s =~= seq![s[0]] + s.drop_first());
        assert(seq![s[0]] =~= Seq::<T::V>::empty().push(s[0]));
    }
}

} // verus!
