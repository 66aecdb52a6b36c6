//! Character-level helpers shared by the query builders: lexicographic order on
//! strings, substring search, decimal formatting and parsing of integers.

use vstd::prelude::*;

verus! {

/// Three-way lexicographic comparison of two character sequences, character by
/// character on their code points: `-1`, `0` or `1`.
pub open spec fn lex_order(a: Seq<char>, b: Seq<char>) -> int
    decreases a.len(),
{
    if a.len() == 0 {
        if b.len() == 0 { 0 } else { -1 }
    } else if b.len() == 0 {
        1
    } else if (a[0] as int) < (b[0] as int) {
        -1
    } else if (a[0] as int) > (b[0] as int) {
        1
    } else {
        lex_order(a.drop_first(), b.drop_first())
    }
}

pub proof fn lemma_lex_order_range(a: Seq<char>, b: Seq<char>)
    ensures
        -1 <= lex_order(a, b) <= 1,
        lex_order(a, b) == -lex_order(b, a),
        lex_order(a, b) == 0 <==> a == b,
    decreases a.len(),
{
    if a.len() > 0 && b.len() > 0 {
        lemma_lex_order_range(a.drop_first(), b.drop_first());
        if a[0] == b[0] && a.drop_first() == b.drop_first() {
            assert(a =~= seq![a[0]] + a.drop_first());
            assert(b =~= seq![b[0]] + b.drop_first());
        }
        if a == b {
            assert(a.drop_first() == b.drop_first());
        }
    } else if a.len() == 0 && b.len() == 0 {
        assert(a =~= b);
    }
}

pub proof fn lemma_lex_order_trans(a: Seq<char>, b: Seq<char>, c: Seq<char>)
    requires
        lex_order(a, b) <= 0,
        lex_order(b, c) <= 0,
    ensures
        lex_order(a, c) <= 0,
    decreases a.len(),
{
    if a.len() > 0 && b.len() > 0 && c.len() > 0 {
        if (a[0] as int) == (b[0] as int) && (b[0] as int) == (c[0] as int) {
            lemma_lex_order_trans(a.drop_first(), b.drop_first(), c.drop_first());
        }
    }
}

/// The characters of a string, one element per character.
pub fn chars_of(s: &str) -> (v: Vec<char>)
    ensures
        v@ == s@,
{
    broadcast use vstd::string::group_string_axioms;
    let mut v: Vec<char> = Vec::new();
    for c in it: s.chars()
        invariant
            v@ == it.seq().take(it.index() as int),
    {
        v.push(c);
    }
    assert(v@ =~= s@);
    v
}

/// Lexicographic comparison of two character vectors.
pub fn compare_char_vecs(a: &Vec<char>, b: &Vec<char>) -> (r: i8)
    ensures
        r as int == lex_order(a@, b@),
{
    let mut i: usize = 0;
    assert(a@.skip(0) =~= a@);
    assert(b@.skip(0) =~= b@);
    while i < a.len() && i < b.len()
        invariant
            i <= a.len(),
            i <= b.len(),
            lex_order(a@, b@) == lex_order(a@.skip(i as int), b@.skip(i as int)),
        decreases a.len() - i,
    {
        let x = a[i];
        let y = b[i];
        assert(a@.skip(i as int)[0] == x && b@.skip(i as int)[0] == y);
        if x < y {
            return -1;
        } else if x > y {
            return 1;
        }
        assert(a@.skip(i as int).drop_first() =~= a@.skip(i + 1));
        assert(b@.skip(i as int).drop_first() =~= b@.skip(i + 1));
        i = i + 1;
    }
    if i < a.len() {
        1
    } else if i < b.len() {
        -1
    } else {
        0
    }
}

} // verus!

verus! {

/// Appends one character to a string (std's `String::push`).
#[verifier::external_body]
pub(crate) fn push_char(s: &mut String, c: char)
    ensures
        final(s)@ == old(s)@.push(c),
{
    s.push(c);
}

/// Builds a string from its characters.
pub fn string_of(v: &Vec<char>) -> (s: String)
    ensures
        s@ == v@,
{
    let mut s = String::new();
    let mut i: usize = 0;
    while i < v.len()
        invariant
            i <= v.len(),
            s@ == v@.take(i as int),
        decreases v.len() - i,
    {
        push_char(&mut s, v[i]);
        i = i + 1;
        assert(s@ =~= v@.take(i as int));
    }
    assert(v@.take(v@.len() as int) =~= v@);
    s
}

/// Whether two strings hold the same characters.
pub fn str_equal(a: &str, b: &str) -> (r: bool)
    ensures
        r == (a@ == b@),
{
    let x = chars_of(a);
    let y = chars_of(b);
    proof {
        lemma_lex_order_range(x@, y@);
    }
    compare_char_vecs(&x, &y) == 0
}

/// `t` occurs in `s` starting at position `i`.
pub open spec fn occurs_at(s: Seq<char>, t: Seq<char>, i: int) -> bool {
    0 <= i && i + t.len() <= s.len() && s.subrange(i, i + t.len()) == t
}

/// `t` occurs somewhere in `s`.
pub open spec fn contains_seq(s: Seq<char>, t: Seq<char>) -> bool {
    exists|i: int| occurs_at(s, t, i)
}

fn occurs_at_exec(s: &Vec<char>, t: &Vec<char>, i: usize) -> (r: bool)
    requires
        i + t@.len() <= s@.len(),
    ensures
        r == occurs_at(s@, t@, i as int),
{
    let mut j: usize = 0;
    while j < t.len()
        invariant
            j <= t@.len(),
            i + t@.len() <= s@.len(),
            forall|m: int| 0 <= m < j ==> s@[i + m] == t@[m],
        decreases t@.len() - j,
    {
        assert(i + j < s.len());
        let k: usize = i + j;
        if s[k] != t[j] {
            assert(s@.subrange(i as int, i + t@.len())[j as int] != t@[j as int]);
            return false;
        }
        j = j + 1;
    }
    assert(s@.subrange(i as int, i + t@.len()) =~= t@);
    true
}

/// Whether `t` occurs in `s` (std's `str::contains` with a string pattern).
pub fn str_contains(s: &str, t: &str) -> (r: bool)
    ensures
        r == contains_seq(s@, t@),
{
    let sv = chars_of(s);
    let tv = chars_of(t);
    if tv.len() == 0 {
        assert(occurs_at(s@, t@, 0)) by {
            assert(s@.subrange(0, 0) =~= t@);
        }
        return true;
    }
    if tv.len() > sv.len() {
        return false;
    }
    let mut i: usize = 0;
    let last = sv.len() - tv.len();
    while i <= last
        invariant
            tv@.len() <= sv@.len(),
            last == sv@.len() - tv@.len(),
            tv@.len() > 0,
            last < sv.len(),
            sv@ == s@,
            tv@ == t@,
            i <= last + 1,
            forall|m: int| 0 <= m < i ==> !occurs_at(s@, t@, m),
        decreases last + 1 - i,
    {
        if occurs_at_exec(&sv, &tv, i) {
            return true;
        }
        i = i + 1;
    }
    assert forall|m: int| !occurs_at(s@, t@, m) by {
        if 0 <= m && m + t@.len() <= s@.len() {
            assert(m < i);
        }
    }
    false
}

/// The decimal digit for `d` (0 to 9).
pub open spec fn digit_char(d: int) -> char {
    if d == 0 { '0' } else if d == 1 { '1' } else if d == 2 { '2' } else if d == 3 { '3' }
    else if d == 4 { '4' } else if d == 5 { '5' } else if d == 6 { '6' } else if d == 7 { '7' }
    else if d == 8 { '8' } else { '9' }
}

/// The value of a decimal digit character, if it is one.
pub open spec fn digit_value(c: char) -> Option<int> {
    if c == '0' { Some(0) } else if c == '1' { Some(1) } else if c == '2' { Some(2) }
    else if c == '3' { Some(3) } else if c == '4' { Some(4) } else if c == '5' { Some(5) }
    else if c == '6' { Some(6) } else if c == '7' { Some(7) } else if c == '8' { Some(8) }
    else if c == '9' { Some(9) } else { None }
}

/// Decimal notation of a natural number, without leading zeros.
pub open spec fn decimal_nat(n: nat) -> Seq<char>
    decreases n,
{
    if n < 10 {
        seq![digit_char(n as int)]
    } else {
        decimal_nat((n / 10) as nat).push(digit_char((n % 10) as int))
    }
}

/// Decimal notation of an integer, as Rust's `Display` writes it.
pub open spec fn decimal_int(n: int) -> Seq<char> {
    if n < 0 { seq!['-'] + decimal_nat((-n) as nat) } else { decimal_nat(n as nat) }
}

fn digit_char_exec(d: u64) -> (c: char)
    requires
        d < 10,
    ensures
        c == digit_char(d as int),
{
    if d == 0 { '0' } else if d == 1 { '1' } else if d == 2 { '2' } else if d == 3 { '3' }
    else if d == 4 { '4' } else if d == 5 { '5' } else if d == 6 { '6' } else if d == 7 { '7' }
    else if d == 8 { '8' } else { '9' }
}

fn push_decimal_nat(s: &mut String, n: u64)
    ensures
        final(s)@ == old(s)@ + decimal_nat(n as nat),
    decreases n,
{
    if n < 10 {
        push_char(s, digit_char_exec(n));
    } else {
        push_decimal_nat(s, n / 10);
        push_char(s, digit_char_exec(n % 10));
    }
}

/// Appends the decimal notation of `n`.
pub fn push_decimal(s: &mut String, n: i64)
    ensures
        final(s)@ == old(s)@ + decimal_int(n as int),
{
    if n < 0 {
        push_char(s, '-');
        let m: u64 = if n == i64::MIN { 9223372036854775808u64 } else { (-n) as u64 };
        push_decimal_nat(s, m);
    } else {
        push_decimal_nat(s, n as u64);
    }
}

/// Decimal notation of `n` as a new string.
pub fn decimal_string(n: i64) -> (s: String)
    ensures
        s@ == decimal_int(n as int),
{
    let mut s = String::new();
    push_decimal(&mut s, n);
    s
}

/// Value of a non-empty run of decimal digits (no sign).
pub open spec fn digits_value(s: Seq<char>) -> Option<int>
    decreases s.len(),
{
    if s.len() == 0 {
        None
    } else {
        match digit_value(s.last()) {
            None => None,
            Some(d) => if s.len() == 1 {
                Some(d)
            } else {
                match digits_value(s.drop_last()) {
                    None => None,
                    Some(v) => Some(v * 10 + d),
                }
            },
        }
    }
}

/// What `str::parse::<i64>` yields: an optional `+` or `-`, then one or more
/// decimal digits, with the value in range of `i64`.
pub open spec fn parse_i64_spec(s: Seq<char>) -> Option<int> {
    let (neg, body) = if s.len() > 0 && s[0] == '-' {
        (true, s.drop_first())
    } else if s.len() > 0 && s[0] == '+' {
        (false, s.drop_first())
    } else {
        (false, s)
    };
    match digits_value(body) {
        None => None,
        Some(v) => {
            let x = if neg { -v } else { v };
            if i64::MIN <= x <= i64::MAX { Some(x) } else { None }
        },
    }
}

proof fn lemma_digits_value_nonneg(s: Seq<char>)
    ensures
        digits_value(s) matches Some(v) ==> v >= 0,
    decreases s.len(),
{
    if s.len() > 1 {
        lemma_digits_value_nonneg(s.drop_last());
    }
}

/// Parses a decimal `i64` as `str::parse::<i64>` does.
pub fn parse_i64(v: &Vec<char>) -> (r: Option<i64>)
    ensures
        match r {
            Some(x) => parse_i64_spec(v@) == Some(x as int),
            None => parse_i64_spec(v@) is None,
        },
{
    let n = v.len();
    let mut start: usize = 0;
    let mut neg = false;
    if n > 0 && v[0] == '-' {
        neg = true;
        start = 1;
    } else if n > 0 && v[0] == '+' {
        start = 1;
    }
    let ghost body = v@.skip(start as int);
    assert(start == 1 ==> body =~= v@.drop_first());
    assert(start == 0 ==> body =~= v@);
    if start >= n {
        assert(body.len() == 0);
        return None;
    }
    // accumulate the magnitude, stopping once it leaves the range of i64
    let mut acc: u64 = 0;
    let mut i: usize = start;
    let limit: u64 = 9223372036854775808u64;
    while i < n
        invariant
            n == v@.len(),
            limit == 9223372036854775808u64,
            start <= 1,
            neg <==> (n > 0 && v@[0] == '-'),
            start == 1 <==> (n > 0 && (v@[0] == '-' || v@[0] == '+')),
            start == 1 ==> body =~= v@.drop_first(),
            start == 0 ==> body =~= v@,
            start <= i <= n,
            start < n,
            body == v@.skip(start as int),
            acc <= limit,
            i > start ==> digits_value(v@.subrange(start as int, i as int)) == Some(acc as int),
            i == start ==> acc == 0,
        decreases n - i,
    {
        let c = v[i];
        let d: u64 = if c == '0' { 0 } else if c == '1' { 1 } else if c == '2' { 2 } else if c == '3' { 3 }
            else if c == '4' { 4 } else if c == '5' { 5 } else if c == '6' { 6 } else if c == '7' { 7 }
            else if c == '8' { 8 } else if c == '9' { 9 } else { 10 };
        let ghost pre = v@.subrange(start as int, i as int);
        let ghost cur = v@.subrange(start as int, i + 1);
        assert(cur.drop_last() =~= pre);
        assert(cur.last() == c);
        assert(v@.subrange(start as int, n as int).take((i - start) + 1) =~= cur);
        if d == 10 {
            // a non-digit makes every longer prefix, and the whole body, fail
            proof {
                assert(digits_value(cur) is None);
                lemma_digits_none_extends(v@.subrange(start as int, n as int), (i - start) + 1);
                assert(v@.subrange(start as int, n as int) =~= body);
            }
            return None;
        }
        assert(d < 10);
        assert(digits_value(cur) == Some(acc * 10 + d));
        if acc > (limit - d) / 10 {
            // the magnitude exceeds 2^63 and only grows from here
            proof {
                assert(acc * 10 + d > limit) by (nonlinear_arith)
                    requires acc > (limit - d) / 10, d < 10, limit == 9223372036854775808u64;
                lemma_digits_grow(v@.subrange(start as int, n as int), (i - start) + 1, limit as int);
                assert(v@.subrange(start as int, n as int) =~= body);
                lemma_digits_value_nonneg(body);
            }
            return None;
        }
        proof {
            assert(acc * 10 + d <= limit) by (nonlinear_arith)
                requires acc <= (limit - d) / 10, d < 10;
        }
        acc = acc * 10 + d;
        i = i + 1;
    }
    assert(v@.subrange(start as int, n as int) =~= body);
    if neg {
        if acc == limit {
            Some(i64::MIN)
        } else {
            Some(-(acc as i64))
        }
    } else {
        if acc == limit {
            None
        } else {
            Some(acc as i64)
        }
    }
}

proof fn lemma_digits_none_extends(s: Seq<char>, k: int)
    requires
        1 <= k <= s.len(),
        digits_value(s.take(k)) is None,
    ensures
        digits_value(s) is None,
    decreases s.len() - k,
{
    if k < s.len() {
        assert(s.take(k + 1).drop_last() =~= s.take(k));
        lemma_digits_none_extends(s, k + 1);
    } else {
        assert(s.take(k) =~= s);
    }
}

proof fn lemma_digits_grow(s: Seq<char>, k: int, bound: int)
    requires
        1 <= k <= s.len(),
        bound >= 0,
        digits_value(s.take(k)) matches Some(v) ==> v > bound,
    ensures
        digits_value(s) matches Some(v) ==> v > bound,
    decreases s.len() - k,
{
    if k < s.len() {
        assert(s.take(k + 1).drop_last() =~= s.take(k));
        lemma_digits_value_nonneg(s.take(k + 1));
        lemma_digits_grow(s, k + 1, bound);
    } else {
        assert(s.take(k) =~= s);
    }
}

} // verus!

verus! {

/// The position of the last `c` in `s`, if any.
pub open spec fn last_index_of(s: Seq<char>, c: char) -> Option<int>
    decreases s.len(),
{
    if s.len() == 0 {
        None
    } else if s.last() == c {
        Some(s.len() - 1)
    } else {
        last_index_of(s.drop_last(), c)
    }
}

pub proof fn lemma_last_index_of(s: Seq<char>, c: char)
    ensures
        match last_index_of(s, c) {
            Some(i) => 0 <= i < s.len() && s[i] == c && forall|j: int| i < j < s.len() ==> s[j] != c,
            None => forall|j: int| 0 <= j < s.len() ==> s[j] != c,
        },
    decreases s.len(),
{
    if s.len() > 0 {
        let d = s.drop_last();
        lemma_last_index_of(d, c);
        assert forall|j: int| 0 <= j < d.len() implies d[j] == s[j] by {}
    }
}

/// Finds the last `c` in `v` (std's `str::rfind` with a character).
pub fn rfind_char(v: &Vec<char>, c: char) -> (r: Option<usize>)
    ensures
        match r {
            Some(i) => last_index_of(v@, c) == Some(i as int),
            None => last_index_of(v@, c) is None,
        },
{
    let mut found: Option<usize> = None;
    let mut i: usize = 0;
    while i < v.len()
        invariant
            i <= v@.len(),
            match found {
                Some(j) => last_index_of(v@.take(i as int), c) == Some(j as int),
                None => last_index_of(v@.take(i as int), c) is None,
            },
        decreases v@.len() - i,
    {
        if v[i] == c {
            found = Some(i);
        }
        assert(v@.take(i + 1).drop_last() =~= v@.take(i as int));
        i = i + 1;
    }
    assert(v@.take(v@.len() as int) =~= v@);
    found
}

/// Characters `from..to` of `v` as a new vector.
pub fn slice_chars(v: &Vec<char>, from: usize, to: usize) -> (r: Vec<char>)
    requires
        from <= to <= v@.len(),
    ensures
        r@ == v@.subrange(from as int, to as int),
{
    let mut r: Vec<char> = Vec::new();
    let mut i = from;
    while i < to
        invariant
            from <= i <= to,
            to <= v@.len(),
            r@ == v@.subrange(from as int, i as int),
        decreases to - i,
    {
        r.push(v[i]);
        i = i + 1;
        assert(r@ =~= v@.subrange(from as int, i as int));
    }
    r
}

proof fn lemma_digits_of_decimal(n: nat)
    ensures
        digits_value(decimal_nat(n)) == Some(n as int),
        decimal_nat(n).len() >= 1,
        digit_value(decimal_nat(n)[0]) is Some,
    decreases n,
{
    if n >= 10 {
        lemma_digits_of_decimal((n / 10) as nat);
        let d = decimal_nat((n / 10) as nat);
        assert(decimal_nat(n).drop_last() =~= d);
        assert(decimal_nat(n)[0] == d[0]);
    }
}

/// Reading back the decimal notation of an `i64` gives the number.
pub proof fn lemma_parse_decimal(n: i64)
    ensures
        parse_i64_spec(decimal_int(n as int)) == Some(n as int),
{
    if n < 0 {
        let m = (-(n as int)) as nat;
        lemma_digits_of_decimal(m);
        let s = decimal_int(n as int);
        assert(s.drop_first() =~= decimal_nat(m));
    } else {
        lemma_digits_of_decimal(n as nat);
    }
}

} // verus!

verus! {

/// How a pattern character is written inside an interpolated pattern:
/// backslashes and double quotes get a backslash in front.
pub open spec fn pattern_escape_char(c: char) -> Seq<char> {
    if c == '\\' {
        seq!['\\', '\\']
    } else if c == '"' {
        seq!['\\', '"']
    } else {
        seq![c]
    }
}

/// `s.replace('\\', "\\\\").replace('"', "\\\"")`.
pub open spec fn pattern_escaped(s: Seq<char>) -> Seq<char>
    decreases s.len(),
{
    if s.len() == 0 {
        Seq::empty()
    } else {
        pattern_escaped(s.drop_last()) + pattern_escape_char(s.last())
    }
}

/// Escapes backslashes and double quotes of a pattern that is interpolated
/// into a query.
pub fn escape_pattern(s: &str) -> (r: String)
    ensures
        r@ == pattern_escaped(s@),
{
    broadcast use vstd::string::group_string_axioms;
    let mut out = String::new();
    for c in it: s.chars()
        invariant
            out@ == pattern_escaped(it.seq().take(it.index() as int)),
            it.seq() == s@,
    {
        let ghost prefix = it.seq().take(it.index() as int);
        let ghost before = out@;
        if c == '\\' {
            push_char(&mut out, '\\');
            push_char(&mut out, '\\');
        } else if c == '"' {
            push_char(&mut out, '\\');
            push_char(&mut out, '"');
        } else {
            push_char(&mut out, c);
        }
        proof {
            assert(out@ =~= before + pattern_escape_char(c));
            assert(it.seq().take(it.index() + 1).drop_last() =~= prefix);
        }
    }
    assert(s@.take(s@.len() as int) =~= s@);
    out
}

/// The parts joined with `sep` between consecutive parts.
pub open spec fn joined(parts: Seq<Seq<char>>, sep: Seq<char>) -> Seq<char>
    decreases parts.len(),
{
    if parts.len() == 0 {
        Seq::empty()
    } else if parts.len() == 1 {
        parts[0]
    } else {
        joined(parts.drop_last(), sep) + sep + parts.last()
    }
}

pub open spec fn string_views(v: Seq<String>) -> Seq<Seq<char>> {
    v.map_values(|s: String| s@)
}

/// Joins the parts with `sep` (std's `join` on a slice of strings).
pub fn join_strings(parts: &Vec<String>, sep: &str) -> (r: String)
    ensures
        r@ == joined(string_views(parts@), sep@),
{
    let mut out = String::new();
    let mut i: usize = 0;
    while i < parts.len()
        invariant
            i <= parts@.len(),
            out@ == joined(string_views(parts@).take(i as int), sep@),
        decreases parts@.len() - i,
    {
        let ghost t = string_views(parts@).take(i + 1);
        assert(t.drop_last() =~= string_views(parts@).take(i as int));
        if i > 0 {
            out.append(sep);
        } else {
            assert(string_views(parts@).take(0) =~= Seq::<Seq<char>>::empty());
        }
        out.append(parts[i].as_str());
        i = i + 1;
    }
    assert(string_views(parts@).take(parts@.len() as int) =~= string_views(parts@));
    out
}

/// Appends a copy of `s` to the list.
pub fn push_text(v: &mut Vec<String>, s: &str)
    ensures
        string_views(final(v)@) == string_views(old(v)@).push(s@),
{
    let ghost before = v@;
    v.push(s.to_owned());
    assert(string_views(v@) =~= string_views(before).push(s@));
}

/// The conditions joined with `" AND "` behind `prefix`, or nothing when
/// there is no condition.
pub open spec fn where_text(prefix: Seq<char>, conditions: Seq<Seq<char>>) -> Seq<char> {
    if conditions.len() == 0 { Seq::empty() } else { prefix + joined(conditions, " AND "@) }
}

/// Builds `where_text(prefix, conditions)`.
pub fn where_clause(prefix: &str, conditions: &Vec<String>) -> (r: String)
    ensures
        r@ == where_text(prefix@, string_views(conditions@)),
{
    if conditions.len() == 0 {
        String::new()
    } else {
        let j = join_strings(conditions, " AND ");
        let mut r = String::new();
        r.append(prefix);
        r.append(j.as_str());
        r
    }
}

/// Whether the list holds a string equal to `s`.
pub fn contains_text(v: &Vec<String>, s: &str) -> (r: bool)
    ensures
        r == string_views(v@).contains(s@),
{
    let mut i: usize = 0;
    while i < v.len()
        invariant
            i <= v@.len(),
            forall|j: int| 0 <= j < i ==> string_views(v@)[j] != s@,
        decreases v@.len() - i,
    {
        if str_equal(v[i].as_str(), s) {
            assert(string_views(v@)[i as int] == s@);
            return true;
        }
        i = i + 1;
    }
    false
}

/// A copy of the strings, in order.
pub fn copy_strings(v: &Vec<String>) -> (r: Vec<String>)
    ensures
        r@ == v@,
{
    let mut out: Vec<String> = Vec::new();
    let mut i: usize = 0;
    while i < v.len()
        invariant
            i <= v@.len(),
            out@ == v@.take(i as int),
        decreases v@.len() - i,
    {
        out.push(v[i].clone());
        assert(out@ =~= v@.take(i + 1));
        i = i + 1;
    }
    assert(v@.take(i as int) =~= v@);
    out
}

/// A piece of a part of a text occurs in the whole text.
pub proof fn lemma_contains_piece(p: Seq<char>, l: Seq<char>, s: Seq<char>, o: int, needle: Seq<char>)
    requires
        0 <= o,
        o + needle.len() <= l.len(),
        l.subrange(o, o + needle.len()) == needle,
    ensures
        contains_seq(p + l + s, needle),
{
    let t = p + l + s;
    let k = p.len() + o;
    assert(t.subrange(k, k + needle.len()) =~= needle);
    assert(occurs_at(t, needle, k));
}

/// A text comes before another when they agree up to a position where the
/// first ends and the second goes on, or where the first has the smaller
/// character.
pub proof fn lemma_lex_less(a: Seq<char>, b: Seq<char>, p: int)
    requires
        0 <= p <= a.len(),
        p <= b.len(),
        forall|i: int| 0 <= i < p ==> a[i] == b[i],
        (p == a.len() && p < b.len()) || (p < a.len() && p < b.len() && (a[p] as int) < (b[p] as int)),
    ensures
        lex_order(a, b) == -1,
    decreases p,
{
    if p > 0 {
        assert forall|i: int| 0 <= i < p - 1 implies a.drop_first()[i] == b.drop_first()[i] by {
            assert(a[i + 1] == b[i + 1]);
        }
        lemma_lex_less(a.drop_first(), b.drop_first(), p - 1);
        assert(a[0] == b[0]);
    }
}

} // verus!
