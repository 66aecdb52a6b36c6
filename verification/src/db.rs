//! Query-building and result-extraction helpers shared by every query:
//! string escaping for query literals, value extraction from result rows,
//! and the column layout of call rows.

use vstd::prelude::*;
use crate::text::{push_char, str_equal, str_contains, contains_seq};
use crate::backend::{Database, QueryParams, QueryResult, Row, Value};
use crate::types::{Call, CallView, FunctionRef, FunctionRefView};

verus! {

/// `char::is_control`: the characters of the Unicode general category Cc.
pub open spec fn is_control(c: char) -> bool {
    (c as int) <= 0x1f || (0x7f <= (c as int) && (c as int) <= 0x9f)
}

/// Lower-case hexadecimal digit for `d` (0 to 15).
pub open spec fn hex_digit(d: int) -> char {
    if d < 10 { crate::text::digit_char(d) }
    else if d == 10 { 'a' } else if d == 11 { 'b' } else if d == 12 { 'c' }
    else if d == 13 { 'd' } else if d == 14 { 'e' } else { 'f' }
}

/// Value of a hexadecimal digit character, if it is one.
pub open spec fn hex_value(c: char) -> Option<int> {
    match crate::text::digit_value(c) {
        Some(d) => Some(d),
        None => if c == 'a' || c == 'A' { Some(10) } else if c == 'b' || c == 'B' { Some(11) }
            else if c == 'c' || c == 'C' { Some(12) } else if c == 'd' || c == 'D' { Some(13) }
            else if c == 'e' || c == 'E' { Some(14) } else if c == 'f' || c == 'F' { Some(15) }
            else { None },
    }
}

/// `\u` followed by the code of `c` as four lower-case hexadecimal digits
/// (what `format!("\\u{:04x}", c as u32)` writes for codes below 0x10000).
pub open spec fn unicode_escape(c: char) -> Seq<char> {
    let n = c as int;
    seq!['\\', 'u', hex_digit((n / 4096) % 16), hex_digit((n / 256) % 16), hex_digit((n / 16) % 16), hex_digit(n % 16)]
}

/// How one character is written inside a literal quoted with `quote`.
pub open spec fn escape_char(c: char, quote: char) -> Seq<char> {
    if c == '\\' {
        seq!['\\', '\\']
    } else if c == quote {
        seq!['\\', c]
    } else if c == '\n' {
        seq!['\\', 'n']
    } else if c == '\r' {
        seq!['\\', 'r']
    } else if c == '\t' {
        seq!['\\', 't']
    } else if is_control(c) {
        unicode_escape(c)
    } else {
        seq![c]
    }
}

/// How a whole string is written inside a literal quoted with `quote`.
pub open spec fn escaped(s: Seq<char>, quote: char) -> Seq<char>
    decreases s.len(),
{
    if s.len() == 0 {
        Seq::empty()
    } else {
        escape_char(s[0], quote) + escaped(s.drop_first(), quote)
    }
}

pub proof fn lemma_escaped_push(s: Seq<char>, c: char, quote: char)
    ensures
        escaped(s.push(c), quote) == escaped(s, quote) + escape_char(c, quote),
    decreases s.len(),
{
    if s.len() == 0 {
        assert(s.push(c).drop_first() =~= Seq::<char>::empty());
        assert(s.push(c)[0] == c);
        assert(escaped(Seq::<char>::empty(), quote) =~= Seq::<char>::empty());
        assert(s =~= Seq::<char>::empty());
        assert(escaped(s.push(c), quote) =~= escape_char(c, quote));
    } else {
        assert(s.push(c).drop_first() =~= s.drop_first().push(c));
        lemma_escaped_push(s.drop_first(), c, quote);
        assert(escaped(s.push(c), quote) =~= escaped(s, quote) + escape_char(c, quote));
    }
}

fn hex_digit_exec(d: u32) -> (c: char)
    requires
        d < 16,
    ensures
        c == hex_digit(d as int),
{
    if d == 0 { '0' } else if d == 1 { '1' } else if d == 2 { '2' } else if d == 3 { '3' }
    else if d == 4 { '4' } else if d == 5 { '5' } else if d == 6 { '6' } else if d == 7 { '7' }
    else if d == 8 { '8' } else if d == 9 { '9' } else if d == 10 { 'a' } else if d == 11 { 'b' }
    else if d == 12 { 'c' } else if d == 13 { 'd' } else if d == 14 { 'e' } else { 'f' }
}

fn push_escaped_char(out: &mut String, c: char, quote_char: char)
    ensures
        final(out)@ == old(out)@ + escape_char(c, quote_char),
{
    let ghost start = out@;
    if c == '\\' {
        push_char(out, '\\');
        push_char(out, '\\');
    } else if c == quote_char {
        push_char(out, '\\');
        push_char(out, c);
    } else if c == '\n' {
        push_char(out, '\\');
        push_char(out, 'n');
    } else if c == '\r' {
        push_char(out, '\\');
        push_char(out, 'r');
    } else if c == '\t' {
        push_char(out, '\\');
        push_char(out, 't');
    } else if c <= '\u{1f}' || ('\u{7f}' <= c && c <= '\u{9f}') {
        let n = c as u32;
        push_char(out, '\\');
        push_char(out, 'u');
        push_char(out, hex_digit_exec((n / 4096) % 16));
        push_char(out, hex_digit_exec((n / 256) % 16));
        push_char(out, hex_digit_exec((n / 16) % 16));
        push_char(out, hex_digit_exec(n % 16));
    } else {
        push_char(out, c);
    }
    assert(out@ =~= start + escape_char(c, quote_char));
}

/// Escape a string for use in string literals.
///
/// Backslashes and the quote character get a backslash in front, newline,
/// carriage return and tab are written `\n`, `\r`, `\t`, and the other
/// control characters `\uXXXX` (JSON format).
pub fn escape_string_for_quote(s: &str, quote_char: char) -> (r: String)
    ensures
        r@ == escaped(s@, quote_char),
{
    broadcast use vstd::string::group_string_axioms;
    let mut result = String::new();
    for c in it: s.chars()
        invariant
            result@ == escaped(it.seq().take(it.index() as int), quote_char),
            it.seq() == s@,
    {
        let ghost prefix = it.seq().take(it.index() as int);
        push_escaped_char(&mut result, c, quote_char);
        proof {
            lemma_escaped_push(prefix, c, quote_char);
            assert(it.seq().take(it.index() + 1) =~= prefix.push(c));
        }
    }
    assert(s@.take(s@.len() as int) =~= s@);
    result
}

/// Escape a string for use in double-quoted string literals (JSON-compatible).
pub fn escape_string(s: &str) -> (r: String)
    ensures
        r@ == escaped(s@, '"'),
{
    escape_string_for_quote(s, '"')
}

/// Escape a string for use in single-quoted string literals.
pub fn escape_string_single(s: &str) -> (r: String)
    ensures
        r@ == escaped(s@, '\''),
{
    escape_string_for_quote(s, '\'')
}

} // verus!

verus! {

/// Reads back the body of a literal quoted with `quote`: backslash escapes are
/// decoded (`\\`, `\<quote>`, `\n`, `\r`, `\t`, `\uXXXX`), and a bare quote
/// character outside an escape, which would close the literal, makes the body
/// unreadable (`None`).
pub open spec fn unescaped(s: Seq<char>, quote: char) -> Option<Seq<char>>
    decreases s.len(),
{
    if s.len() == 0 {
        Some(Seq::empty())
    } else if s[0] == '\\' {
        if s.len() < 2 {
            None
        } else {
            let e = s[1];
            let simple: Option<char> = if e == '\\' { Some('\\') } else if e == quote { Some(quote) }
                else if e == 'n' { Some('\n') } else if e == 'r' { Some('\r') } else if e == 't' { Some('\t') }
                else { None };
            match simple {
                Some(ch) => match unescaped(s.skip(2), quote) {
                    Some(rest) => Some(seq![ch] + rest),
                    None => None,
                },
                None => if e == 'u' && s.len() >= 6 {
                    match (hex_value(s[2]), hex_value(s[3]), hex_value(s[4]), hex_value(s[5])) {
                        (Some(a), Some(b), Some(c), Some(d)) => match unescaped(s.skip(6), quote) {
                            Some(rest) => Some(seq![((a * 4096 + b * 256 + c * 16 + d) as char)] + rest),
                            None => None,
                        },
                        _ => None,
                    }
                } else {
                    None
                },
            }
        }
    } else if s[0] == quote {
        None
    } else {
        match unescaped(s.drop_first(), quote) {
            Some(rest) => Some(seq![s[0]] + rest),
            None => None,
        }
    }
}

proof fn lemma_hex_round_trip(d: int)
    requires
        0 <= d < 16,
    ensures
        hex_value(hex_digit(d)) == Some(d),
{
}

proof fn lemma_escape_char_read_back(c: char, t: Seq<char>, quote: char)
    requires
        quote_readable(quote),
    ensures
        unescaped(escape_char(c, quote) + t, quote) == (match unescaped(t, quote) {
            Some(rest) => Some(seq![c] + rest),
            None => None,
        }),
{
    let s = escape_char(c, quote) + t;
    if c == '\\' || c == quote || c == '\n' || c == '\r' || c == '\t' {
        assert(s.skip(2) =~= t);
    } else if is_control(c) {
        let n = c as int;
        assert(n < 256);
        assert(n / 4096 == 0 && n / 256 == 0);
        lemma_hex_round_trip(0);
        lemma_hex_round_trip((n / 16) % 16);
        lemma_hex_round_trip(n % 16);
        assert(s[2] == hex_digit(0));
        assert(s[3] == hex_digit(0));
        assert(s.skip(6) =~= t);
        assert(((n / 16) % 16) * 16 + n % 16 == n);
        assert((n as char) == c);
    } else {
        assert(s.drop_first() =~= t);
    }
}

/// A quote character that escapes can be read back with: not a letter that
/// follows a backslash in an escape (`n`, `r`, `t`, `u`).
pub open spec fn quote_readable(quote: char) -> bool {
    quote != 'n' && quote != 'r' && quote != 't' && quote != 'u'
}

/// Reading back an escaped string yields the string that was escaped, for
/// any quote character that escapes can be read back with (the library uses
/// `"` and `'`): escaping makes any text safe to place between the quotes of
/// a query literal, with no bare quote that would end it early.
pub proof fn lemma_escape_read_back(s: Seq<char>, quote: char)
    requires
        quote_readable(quote),
    ensures
        unescaped(escaped(s, quote), quote) == Some(s),
    decreases s.len(),
{
    if s.len() == 0 {
    } else {
        lemma_escape_read_back(s.drop_first(), quote);
        lemma_escape_char_read_back(s[0], escaped(s.drop_first(), quote), quote);
        assert(seq![s[0]] + s.drop_first() =~= s);
    }
}

/// Distinct texts never escape alike, for any quote character that escapes
/// can be read back with.
pub proof fn lemma_escape_injective(s: Seq<char>, t: Seq<char>, quote: char)
    requires
        quote_readable(quote),
        escaped(s, quote) == escaped(t, quote),
    ensures
        s == t,
{
    lemma_escape_read_back(s, quote);
    lemma_escape_read_back(t, quote);
}

} // verus!

verus! {

/// Errors of the database layer.
#[derive(Debug, Clone)]
pub enum DbError {
    OpenFailed { path: String, message: String },
    QueryFailed { message: String },
    MissingColumn { name: String },
}

impl DbError {
    /// The error's text.
    pub open spec fn message(&self) -> Seq<char> {
        match self {
            DbError::OpenFailed { path, message } => "Failed to open database '"@ + path@ + "': "@ + message@,
            DbError::QueryFailed { message } => "Query failed: "@ + message@,
            DbError::MissingColumn { name } => "Missing column '"@ + name@ + "' in query result"@,
        }
    }

    /// The error's text (what `Display` writes).
    pub fn to_string(&self) -> (r: String)
        ensures
            r@ == self.message(),
    {
        let mut r = String::new();
        match self {
            DbError::OpenFailed { path, message } => {
                r.append("Failed to open database '");
                r.append(path.as_str());
                r.append("': ");
                r.append(message.as_str());
            },
            DbError::QueryFailed { message } => {
                r.append("Query failed: ");
                r.append(message.as_str());
            },
            DbError::MissingColumn { name } => {
                r.append("Missing column '");
                r.append(name.as_str());
                r.append("' in query result");
            },
        }
        r
    }
}

/// Run a database query with parameters.
///
/// Works with any backend that implements the Database trait.
pub fn run_query<D: Database + ?Sized>(db: &D, script: &str, params: QueryParams) -> (r: Result<QueryResult, DbError>)
    ensures
        db.answers(script@, params, r),
{
    db.execute_query(script, params)
}

/// Run a database query with no parameters.
pub fn run_query_no_params<D: Database + ?Sized>(db: &D, script: &str) -> (r: Result<QueryResult, DbError>)
    ensures
        exists|p: QueryParams| p.size() == 0 && #[trigger] db.answers(script@, p, r),
{
    let p = QueryParams::new();
    let ghost gp = p;
    let r = db.execute_query(script, p);
    assert(gp.size() == 0);
    assert(db.answers(script@, gp, r));
    r
}

/// A failure text that says the relation is there already: it mentions
/// "already exists" or "already defined".
pub open spec fn says_existing(text: Seq<char>) -> bool {
    contains_seq(text, "already exists"@) || contains_seq(text, "already defined"@)
}

/// What a relation-creation attempt reports for an outcome of the backend:
/// success is `Ok(true)`, a failure saying "already exists" or "already
/// defined" is `Ok(false)`, any other failure is passed on.
pub open spec fn creation_outcome(outcome: Result<QueryResult, DbError>) -> Result<bool, DbError> {
    match outcome {
        Ok(_) => Ok(true),
        Err(e) => if says_existing(e.message()) { Ok(false) } else { Err(e) },
    }
}

/// Classifies the outcome of running a relation's schema script.
pub fn classify_creation(outcome: Result<QueryResult, DbError>) -> (r: Result<bool, DbError>)
    ensures
        r == creation_outcome(outcome),
{
    match outcome {
        Ok(_) => Ok(true),
        Err(e) => {
            let text = e.to_string();
            if str_contains(text.as_str(), "already exists") || str_contains(text.as_str(), "already defined") {
                Ok(false)
            } else {
                Err(e)
            }
        },
    }
}

/// Try to create a relation, returning Ok(true) if created, Ok(false) if already exists.
///
/// A failure whose text says "already exists" or "already defined" counts as
/// an existing relation; any other failure is passed on.
pub fn try_create_relation<D: Database + ?Sized>(db: &D, script: &str) -> (r: Result<bool, DbError>)
    ensures
        exists|p: QueryParams, o: Result<QueryResult, DbError>|
            p.size() == 0 && #[trigger] db.answers(script@, p, o) && r == creation_outcome(o),
        r matches Err(e) ==> !says_existing(e.message()),
{
    let p = QueryParams::new();
    let ghost gp = p;
    let o = db.execute_query(script, p);
    let ghost go = o;
    let r = classify_creation(o);
    assert(gp.size() == 0 && db.answers(script@, gp, go));
    r
}

// Value extraction helpers

/// The text held by a value, if it is a string.
pub open spec fn text_of(v: Value) -> Option<Seq<char>> {
    match v {
        Value::Str(s) => Some(s@),
        _ => None,
    }
}

/// Extract a String from a value, returning None if not a string
pub fn extract_string(value: &Value) -> (r: Option<String>)
    ensures
        crate::types::opt_view(r) == text_of(*value),
{
    match value {
        Value::Str(s) => Some(s.clone()),
        _ => None,
    }
}

/// Extract an i64 from a value, returning the default if not a number
pub fn extract_i64(value: &Value, default: i64) -> (r: i64)
    ensures
        r == (match *value { Value::Int(n) => n, _ => default }),
{
    match value {
        Value::Int(n) => *n,
        _ => default,
    }
}

/// Extract a String from a value, returning the default if not a string
pub fn extract_string_or(value: &Value, default: &str) -> (r: String)
    ensures
        r@ == (match *value { Value::Str(s) => s@, _ => default@ }),
{
    match value {
        Value::Str(s) => s.clone(),
        _ => default.to_owned(),
    }
}

/// Extract a bool from a value, returning the default if not a bool
pub fn extract_bool(value: &Value, default: bool) -> (r: bool)
    ensures
        r == (match *value { Value::Bool(b) => b, _ => default }),
{
    match value {
        Value::Bool(b) => *b,
        _ => default,
    }
}

// Cells of a row, by index

/// The text in column `i`, if the column exists and holds a string.
pub open spec fn cell_text(row: Seq<Value>, i: int) -> Option<Seq<char>> {
    if 0 <= i < row.len() { text_of(row[i]) } else { None }
}

/// The integer in column `i`, or `d` when the column is missing or not a number.
pub open spec fn cell_int_or(row: Seq<Value>, i: int, d: i64) -> i64 {
    if 0 <= i < row.len() {
        match row[i] { Value::Int(n) => n, _ => d }
    } else {
        d
    }
}

/// The text in column `i`, or `d` when the column is missing or not a string.
pub open spec fn cell_text_or(row: Seq<Value>, i: int, d: Seq<char>) -> Seq<char> {
    match cell_text(row, i) {
        Some(t) => t,
        None => d,
    }
}

/// Layout descriptor for extracting call data from query result rows
#[derive(Debug, Clone, Copy)]
pub struct CallRowLayout {
    pub caller_module_idx: usize,
    pub caller_name_idx: usize,
    pub caller_arity_idx: usize,
    pub caller_kind_idx: usize,
    pub caller_start_line_idx: usize,
    pub caller_end_line_idx: usize,
    pub callee_module_idx: usize,
    pub callee_name_idx: usize,
    pub callee_arity_idx: usize,
    pub file_idx: usize,
    pub line_idx: usize,
    pub call_type_idx: Option<usize>,
}

/// The position of the last header named `name`, if any (later duplicates
/// win, as when the headers are collected into a map).
pub open spec fn last_position(headers: Seq<Seq<char>>, name: Seq<char>) -> Option<int>
    decreases headers.len(),
{
    if headers.len() == 0 {
        None
    } else if headers.last() == name {
        Some(headers.len() - 1)
    } else {
        last_position(headers.drop_last(), name)
    }
}

/// The columns a call row must have, in the order they are looked up.
pub open spec fn required_call_columns() -> Seq<Seq<char>> {
    seq![
        "caller_module"@, "caller_name"@, "caller_arity"@, "caller_kind"@,
        "caller_start_line"@, "caller_end_line"@, "callee_module"@, "callee_function"@,
        "callee_arity"@, "file"@, "call_line"@,
    ]
}

pub open spec fn header_names(headers: Seq<String>) -> Seq<Seq<char>> {
    headers.map_values(|h: String| h@)
}

proof fn lemma_last_position(headers: Seq<Seq<char>>, name: Seq<char>)
    ensures
        match last_position(headers, name) {
            Some(i) => 0 <= i < headers.len() && headers[i] == name
                && forall|j: int| i < j < headers.len() ==> headers[j] != name,
            None => forall|j: int| 0 <= j < headers.len() ==> headers[j] != name,
        },
    decreases headers.len(),
{
    if headers.len() > 0 {
        let d = headers.drop_last();
        lemma_last_position(d, name);
        assert forall|j: int| 0 <= j < d.len() implies d[j] == headers[j] by {}
    }
}

fn find_last(headers: &[String], name: &str) -> (r: Option<usize>)
    ensures
        match r {
            Some(i) => last_position(header_names(headers@), name@) == Some(i as int),
            None => last_position(header_names(headers@), name@) is None,
        },
{
    let mut found: Option<usize> = None;
    let mut i: usize = 0;
    while i < headers.len()
        invariant
            i <= headers@.len(),
            match found {
                Some(j) => last_position(header_names(headers@).take(i as int), name@) == Some(j as int),
                None => last_position(header_names(headers@).take(i as int), name@) is None,
            },
        decreases headers@.len() - i,
    {
        let ghost before = header_names(headers@).take(i as int);
        if str_equal(headers[i].as_str(), name) {
            found = Some(i);
        }
        proof {
            assert(header_names(headers@).take(i + 1).drop_last() =~= before);
        }
        i = i + 1;
    }
    assert(header_names(headers@).take(headers@.len() as int) =~= header_names(headers@));
    found
}

/// The first of `cols` that no header carries, if any.
pub open spec fn first_missing(headers: Seq<Seq<char>>, cols: Seq<Seq<char>>) -> Option<Seq<char>>
    decreases cols.len(),
{
    if cols.len() == 0 {
        None
    } else if last_position(headers, cols[0]) is None {
        Some(cols[0])
    } else {
        first_missing(headers, cols.drop_first())
    }
}

/// The position of the header carrying required column `k`.
pub open spec fn column_position(headers: Seq<Seq<char>>, k: int) -> usize {
    last_position(headers, required_call_columns()[k])->0 as usize
}

/// The layout `from_headers` builds, or the first required column missing.
pub open spec fn layout_from_headers(headers: Seq<Seq<char>>) -> Result<CallRowLayout, Seq<char>> {
    match first_missing(headers, required_call_columns()) {
        Some(name) => Err(name),
        None => Ok(CallRowLayout {
            caller_module_idx: column_position(headers, 0),
            caller_name_idx: column_position(headers, 1),
            caller_arity_idx: column_position(headers, 2),
            caller_kind_idx: column_position(headers, 3),
            caller_start_line_idx: column_position(headers, 4),
            caller_end_line_idx: column_position(headers, 5),
            callee_module_idx: column_position(headers, 6),
            callee_name_idx: column_position(headers, 7),
            callee_arity_idx: column_position(headers, 8),
            file_idx: column_position(headers, 9),
            line_idx: column_position(headers, 10),
            call_type_idx: match last_position(headers, "call_type"@) {
                Some(i) => Some(i as usize),
                None => None,
            },
        }),
    }
}

proof fn lemma_first_missing_none(headers: Seq<Seq<char>>, cols: Seq<Seq<char>>)
    requires
        first_missing(headers, cols) is None,
    ensures
        forall|k: int| 0 <= k < cols.len() ==> last_position(headers, #[trigger] cols[k]) is Some,
    decreases cols.len(),
{
    if cols.len() > 0 {
        lemma_first_missing_none(headers, cols.drop_first());
        assert forall|k: int| 0 <= k < cols.len() implies last_position(headers, #[trigger] cols[k]) is Some by {
            if k > 0 {
                assert(cols[k] == cols.drop_first()[k - 1]);
            }
        }
    }
}

proof fn lemma_last_position_contains(headers: Seq<Seq<char>>, name: Seq<char>)
    ensures
        last_position(headers, name) is Some <==> headers.contains(name),
        last_position(headers, name) matches Some(i) ==> 0 <= i < headers.len() && headers[i] == name,
{
    lemma_last_position(headers, name);
    if headers.contains(name) {
        let j = choose|j: int| 0 <= j < headers.len() && headers[j] == name;
        assert(headers[j] == name);
    }
    if let Some(i) = last_position(headers, name) {
        assert(headers[i] == name);
    }
}

proof fn lemma_first_missing_some(headers: Seq<Seq<char>>, cols: Seq<Seq<char>>)
    ensures
        match first_missing(headers, cols) {
            Some(n) => exists|k: int| 0 <= k < cols.len() && cols[k] == n
                && last_position(headers, n) is None
                && forall|j: int| 0 <= j < k ==> last_position(headers, #[trigger] cols[j]) is Some,
            None => forall|k: int| 0 <= k < cols.len() ==> last_position(headers, #[trigger] cols[k]) is Some,
        },
    decreases cols.len(),
{
    if cols.len() > 0 {
        let rest = cols.drop_first();
        lemma_first_missing_some(headers, rest);
        if last_position(headers, cols[0]) is None {
            assert(cols[0] == first_missing(headers, cols)->0);
        } else {
            match first_missing(headers, rest) {
                Some(n) => {
                    let k = choose|k: int| 0 <= k < rest.len() && rest[k] == n
                        && last_position(headers, n) is None
                        && forall|j: int| 0 <= j < k ==> last_position(headers, #[trigger] rest[j]) is Some;
                    assert(cols[k + 1] == n);
                    assert forall|j: int| 0 <= j < k + 1 implies last_position(headers, #[trigger] cols[j]) is Some by {
                        if j > 0 {
                            assert(cols[j] == rest[j - 1]);
                        }
                    }
                },
                None => {
                    assert forall|k: int| 0 <= k < cols.len() implies last_position(headers, #[trigger] cols[k]) is Some by {
                        if k > 0 {
                            assert(cols[k] == rest[k - 1]);
                        }
                    }
                },
            }
        }
    }
}

/// Reading call rows by header name: a layout is built exactly when every
/// required column is among the headers, and then each index points at a
/// header of that column's name (the optional `call_type` index is there
/// exactly when such a header is); otherwise the error names a required
/// column the headers lack, every column before it in the required order
/// being present.
pub proof fn lemma_layout_names_its_columns(headers: Seq<Seq<char>>)
    requires
        headers.len() <= usize::MAX,
    ensures
        layout_from_headers(headers) is Ok
            <==> forall|k: int| 0 <= k < required_call_columns().len() ==> headers.contains(#[trigger] required_call_columns()[k]),
        layout_from_headers(headers) matches Ok(l) ==> {
            &&& l.caller_module_idx < headers.len() && headers[l.caller_module_idx as int] == "caller_module"@
            &&& l.caller_name_idx < headers.len() && headers[l.caller_name_idx as int] == "caller_name"@
            &&& l.caller_arity_idx < headers.len() && headers[l.caller_arity_idx as int] == "caller_arity"@
            &&& l.caller_kind_idx < headers.len() && headers[l.caller_kind_idx as int] == "caller_kind"@
            &&& l.caller_start_line_idx < headers.len() && headers[l.caller_start_line_idx as int] == "caller_start_line"@
            &&& l.caller_end_line_idx < headers.len() && headers[l.caller_end_line_idx as int] == "caller_end_line"@
            &&& l.callee_module_idx < headers.len() && headers[l.callee_module_idx as int] == "callee_module"@
            &&& l.callee_name_idx < headers.len() && headers[l.callee_name_idx as int] == "callee_function"@
            &&& l.callee_arity_idx < headers.len() && headers[l.callee_arity_idx as int] == "callee_arity"@
            &&& l.file_idx < headers.len() && headers[l.file_idx as int] == "file"@
            &&& l.line_idx < headers.len() && headers[l.line_idx as int] == "call_line"@
            &&& match l.call_type_idx {
                Some(i) => i < headers.len() && headers[i as int] == "call_type"@,
                None => !headers.contains("call_type"@),
            }
        },
        layout_from_headers(headers) matches Err(n) ==> {
            &&& !headers.contains(n)
            &&& exists|k: int| 0 <= k < required_call_columns().len() && required_call_columns()[k] == n
                && forall|j: int| 0 <= j < k ==> headers.contains(#[trigger] required_call_columns()[j])
        },
{
    let cols = required_call_columns();
    lemma_first_missing_some(headers, cols);
    assert forall|k: int| 0 <= k < cols.len() implies
        (last_position(headers, #[trigger] cols[k]) is Some <==> headers.contains(cols[k])) by {
        lemma_last_position_contains(headers, cols[k]);
    }
    assert forall|k: int| 0 <= k < cols.len() && last_position(headers, #[trigger] cols[k]) is Some implies
        column_position(headers, k) < headers.len() && headers[column_position(headers, k) as int] == cols[k] by {
        lemma_last_position_contains(headers, cols[k]);
    }
    lemma_last_position_contains(headers, "call_type"@);
    match first_missing(headers, cols) {
        Some(n) => {
            lemma_last_position_contains(headers, n);
            let k = choose|k: int| 0 <= k < cols.len() && cols[k] == n
                && last_position(headers, n) is None
                && forall|j: int| 0 <= j < k ==> last_position(headers, #[trigger] cols[j]) is Some;
            assert(!headers.contains(cols[k]));
        },
        None => {
            assert(cols[0] == "caller_module"@);
            assert(cols[1] == "caller_name"@);
            assert(cols[2] == "caller_arity"@);
            assert(cols[3] == "caller_kind"@);
            assert(cols[4] == "caller_start_line"@);
            assert(cols[5] == "caller_end_line"@);
            assert(cols[6] == "callee_module"@);
            assert(cols[7] == "callee_function"@);
            assert(cols[8] == "callee_arity"@);
            assert(cols[9] == "file"@);
            assert(cols[10] == "call_line"@);
            assert(last_position(headers, cols[0]) is Some);
            assert(last_position(headers, cols[1]) is Some);
            assert(last_position(headers, cols[2]) is Some);
            assert(last_position(headers, cols[3]) is Some);
            assert(last_position(headers, cols[4]) is Some);
            assert(last_position(headers, cols[5]) is Some);
            assert(last_position(headers, cols[6]) is Some);
            assert(last_position(headers, cols[7]) is Some);
            assert(last_position(headers, cols[8]) is Some);
            assert(last_position(headers, cols[9]) is Some);
            assert(last_position(headers, cols[10]) is Some);
        },
    }
}

/// Column `i` is the last of the headers to carry its name.
pub open spec fn last_of_its_name(headers: Seq<Seq<char>>, i: int) -> bool {
    0 <= i < headers.len() && forall|j: int| i < j < headers.len() ==> headers[j] != headers[i]
}

proof fn lemma_last_of_its_name(headers: Seq<Seq<char>>, name: Seq<char>, i: int)
    requires
        last_of_its_name(headers, i),
        headers[i] == name,
    ensures
        last_position(headers, name) == Some(i),
{
    lemma_last_position(headers, name);
    match last_position(headers, name) {
        Some(k) => {
            if k < i {
                assert(headers[i] == name);
            } else if k > i {
                assert(headers[k] == headers[i]);
            }
        },
        None => {
            assert(headers[i] == name);
        },
    }
}

/// A call read from a row under the layout built from the headers takes each
/// part from the column of its name (the last one, when a name repeats): the
/// caller from `caller_module`, `caller_name`, `caller_arity`, `caller_kind`,
/// `caller_start_line`, `caller_end_line` and `file`, the callee from
/// `callee_module`, `callee_function` and `callee_arity`, the line from
/// `call_line` and the call type from `call_type`.
pub proof fn lemma_call_row_named_columns(headers: Seq<Seq<char>>, row: Seq<Value>)
    requires
        headers.len() <= usize::MAX,
        layout_from_headers(headers) is Ok,
    ensures
        call_from_row(row, layout_from_headers(headers)->Ok_0) matches Some(c) ==> forall|i: int| #[trigger] last_of_its_name(headers, i) ==> {
            &&& headers[i] == "caller_module"@ ==> cell_text(row, i) == Some(c.caller.module)
            &&& headers[i] == "caller_name"@ ==> cell_text(row, i) == Some(c.caller.name)
            &&& headers[i] == "caller_arity"@ ==> c.caller.arity == cell_int_or(row, i, 0)
            &&& headers[i] == "caller_kind"@ ==> c.caller.kind == Some(cell_text_or(row, i, ""@))
            &&& headers[i] == "caller_start_line"@ ==> c.caller.start_line == Some(cell_int_or(row, i, 0))
            &&& headers[i] == "caller_end_line"@ ==> c.caller.end_line == Some(cell_int_or(row, i, 0))
            &&& headers[i] == "callee_module"@ ==> cell_text(row, i) == Some(c.callee.module)
            &&& headers[i] == "callee_function"@ ==> cell_text(row, i) == Some(c.callee.name)
            &&& headers[i] == "callee_arity"@ ==> c.callee.arity == cell_int_or(row, i, 0)
            &&& headers[i] == "file"@ ==> c.caller.file == cell_text(row, i)
            &&& headers[i] == "call_line"@ ==> c.line == cell_int_or(row, i, 0)
            &&& headers[i] == "call_type"@ && i < row.len() ==> c.call_type == Some(cell_text_or(row, i, "remote"@))
        },
{
    let cols = required_call_columns();
    assert forall|i: int| #[trigger] last_of_its_name(headers, i) implies ({
        let l = layout_from_headers(headers)->Ok_0;
        &&& headers[i] == "caller_module"@ ==> l.caller_module_idx as int == i
        &&& headers[i] == "caller_name"@ ==> l.caller_name_idx as int == i
        &&& headers[i] == "caller_arity"@ ==> l.caller_arity_idx as int == i
        &&& headers[i] == "caller_kind"@ ==> l.caller_kind_idx as int == i
        &&& headers[i] == "caller_start_line"@ ==> l.caller_start_line_idx as int == i
        &&& headers[i] == "caller_end_line"@ ==> l.caller_end_line_idx as int == i
        &&& headers[i] == "callee_module"@ ==> l.callee_module_idx as int == i
        &&& headers[i] == "callee_function"@ ==> l.callee_name_idx as int == i
        &&& headers[i] == "callee_arity"@ ==> l.callee_arity_idx as int == i
        &&& headers[i] == "file"@ ==> l.file_idx as int == i
        &&& headers[i] == "call_line"@ ==> l.line_idx as int == i
        &&& headers[i] == "call_type"@ ==> l.call_type_idx == Some(i as usize)
    }) by {
        if headers[i] == "caller_module"@ {
            lemma_last_of_its_name(headers, "caller_module"@, i);
            assert(cols[0] == "caller_module"@);
        }
        if headers[i] == "caller_name"@ {
            lemma_last_of_its_name(headers, "caller_name"@, i);
            assert(cols[1] == "caller_name"@);
        }
        if headers[i] == "caller_arity"@ {
            lemma_last_of_its_name(headers, "caller_arity"@, i);
            assert(cols[2] == "caller_arity"@);
        }
        if headers[i] == "caller_kind"@ {
            lemma_last_of_its_name(headers, "caller_kind"@, i);
            assert(cols[3] == "caller_kind"@);
        }
        if headers[i] == "caller_start_line"@ {
            lemma_last_of_its_name(headers, "caller_start_line"@, i);
            assert(cols[4] == "caller_start_line"@);
        }
        if headers[i] == "caller_end_line"@ {
            lemma_last_of_its_name(headers, "caller_end_line"@, i);
            assert(cols[5] == "caller_end_line"@);
        }
        if headers[i] == "callee_module"@ {
            lemma_last_of_its_name(headers, "callee_module"@, i);
            assert(cols[6] == "callee_module"@);
        }
        if headers[i] == "callee_function"@ {
            lemma_last_of_its_name(headers, "callee_function"@, i);
            assert(cols[7] == "callee_function"@);
        }
        if headers[i] == "callee_arity"@ {
            lemma_last_of_its_name(headers, "callee_arity"@, i);
            assert(cols[8] == "callee_arity"@);
        }
        if headers[i] == "file"@ {
            lemma_last_of_its_name(headers, "file"@, i);
            assert(cols[9] == "file"@);
        }
        if headers[i] == "call_line"@ {
            lemma_last_of_its_name(headers, "call_line"@, i);
            assert(cols[10] == "call_line"@);
        }
        if headers[i] == "call_type"@ {
            lemma_last_of_its_name(headers, "call_type"@, i);
        }
    }
}

impl CallRowLayout {
    /// Build layout dynamically from query result headers.
    ///
    /// This looks up column positions by name, making queries resilient to
    /// column reordering. Returns error if any required column is missing.
    ///
    /// Expected column names:
    /// - caller_module, caller_name, caller_arity, caller_kind
    /// - caller_start_line, caller_end_line
    /// - callee_module, callee_function, callee_arity
    /// - file, call_line
    /// - call_type (optional)
    pub fn from_headers(headers: &[String]) -> (r: Result<Self, DbError>)
        ensures
            match r {
                Ok(l) => layout_from_headers(header_names(headers@)) == Ok::<CallRowLayout, Seq<char>>(l),
                Err(e) => e matches DbError::MissingColumn { name }
                    && layout_from_headers(header_names(headers@)) == Err::<CallRowLayout, Seq<char>>(name@),
            },
    {
        let ghost h = header_names(headers@);
        let ghost cols = required_call_columns();
        let names: [&str; 11] = [
            "caller_module", "caller_name", "caller_arity", "caller_kind",
            "caller_start_line", "caller_end_line", "callee_module", "callee_function",
            "callee_arity", "file", "call_line",
        ];
        assert(names@.map_values(|n: &str| n@) =~= cols);
        let mut idx: Vec<usize> = Vec::new();
        let mut i: usize = 0;
        assert(cols.skip(0) =~= cols);
        while i < 11
            invariant
                i <= 11,
                h == header_names(headers@),
                cols == required_call_columns(),
                names@.map_values(|n: &str| n@) == cols,
                idx@.len() == i,
                forall|j: int| 0 <= j < i ==> last_position(h, cols[j]) == Some(#[trigger] idx@[j] as int),
                first_missing(h, cols) == first_missing(h, cols.skip(i as int)),
            decreases 11 - i,
        {
            let name = names[i];
            assert(name@ == cols[i as int]);
            assert(cols.skip(i as int)[0] == cols[i as int]);
            match find_last(headers, name) {
                Some(p) => {
                    idx.push(p);
                    assert(cols.skip(i as int).drop_first() =~= cols.skip(i + 1));
                },
                None => {
                    return Err(DbError::MissingColumn { name: name.to_owned() });
                },
            }
            i = i + 1;
        }
        assert(cols.skip(11) =~= Seq::<Seq<char>>::empty());
        let call_type_idx = find_last(headers, "call_type");
        Ok(CallRowLayout {
            caller_module_idx: idx[0],
            caller_name_idx: idx[1],
            caller_arity_idx: idx[2],
            caller_kind_idx: idx[3],
            caller_start_line_idx: idx[4],
            caller_end_line_idx: idx[5],
            callee_module_idx: idx[6],
            callee_name_idx: idx[7],
            callee_arity_idx: idx[8],
            file_idx: idx[9],
            line_idx: idx[10],
            call_type_idx,
        })
    }
}

/// The call a row describes under `l`, if its required strings are present.
pub open spec fn call_from_row(row: Seq<Value>, l: CallRowLayout) -> Option<CallView> {
    match (
        cell_text(row, l.caller_module_idx as int),
        cell_text(row, l.caller_name_idx as int),
        cell_text(row, l.callee_module_idx as int),
        cell_text(row, l.callee_name_idx as int),
        cell_text(row, l.file_idx as int),
    ) {
        (Some(caller_module), Some(caller_name), Some(callee_module), Some(callee_name), Some(file)) => Some(CallView {
            caller: FunctionRefView {
                module: caller_module,
                name: caller_name,
                arity: cell_int_or(row, l.caller_arity_idx as int, 0),
                kind: Some(cell_text_or(row, l.caller_kind_idx as int, ""@)),
                file: Some(file),
                start_line: Some(cell_int_or(row, l.caller_start_line_idx as int, 0)),
                end_line: Some(cell_int_or(row, l.caller_end_line_idx as int, 0)),
            },
            callee: FunctionRefView {
                module: callee_module,
                name: callee_name,
                arity: cell_int_or(row, l.callee_arity_idx as int, 0),
                kind: None,
                file: None,
                start_line: None,
                end_line: None,
            },
            line: cell_int_or(row, l.line_idx as int, 0),
            call_type: match l.call_type_idx {
                Some(i) => if (i as int) < row.len() { Some(cell_text_or(row, i as int, "remote"@)) } else { None },
                None => None,
            },
            depth: None,
        }),
        _ => None,
    }
}

/// Column `i` of `row` as a string, if present.
pub fn get_string(row: &Row, i: usize) -> (r: Option<String>)
    ensures
        crate::types::opt_view(r) == cell_text(row.values@, i as int),
{
    match row.get(i) {
        Some(v) => extract_string(v),
        None => None,
    }
}

/// Column `i` of `row` as an integer, or `d`.
pub fn get_i64_or(row: &Row, i: usize, d: i64) -> (r: i64)
    ensures
        r == cell_int_or(row.values@, i as int, d),
{
    match row.get(i) {
        Some(v) => extract_i64(v, d),
        None => d,
    }
}

/// Column `i` of `row` as a string, or `d`.
pub fn get_string_or(row: &Row, i: usize, d: &str) -> (r: String)
    ensures
        r@ == cell_text_or(row.values@, i as int, d@),
{
    match row.get(i) {
        Some(v) => extract_string_or(v, d),
        None => d.to_owned(),
    }
}

/// Extract call data from a row
///
/// Returns Some(Call) if all required fields are present, None if any
/// required string field cannot be extracted.
pub fn extract_call_from_row_trait(row: &Row, layout: &CallRowLayout) -> (r: Option<Call>)
    ensures
        match r {
            Some(c) => call_from_row(row.values@, *layout) == Some(c@),
            None => call_from_row(row.values@, *layout) is None,
        },
{
    let caller_module = get_string(row, layout.caller_module_idx)?;
    let caller_name = get_string(row, layout.caller_name_idx)?;
    let caller_arity = get_i64_or(row, layout.caller_arity_idx, 0);
    let caller_kind = get_string_or(row, layout.caller_kind_idx, "");
    let caller_start_line = get_i64_or(row, layout.caller_start_line_idx, 0);
    let caller_end_line = get_i64_or(row, layout.caller_end_line_idx, 0);
    let callee_module = get_string(row, layout.callee_module_idx)?;
    let callee_name = get_string(row, layout.callee_name_idx)?;
    let callee_arity = get_i64_or(row, layout.callee_arity_idx, 0);
    let file = get_string(row, layout.file_idx)?;
    let line = get_i64_or(row, layout.line_idx, 0);
    let call_type = match layout.call_type_idx {
        Some(idx) => match row.get(idx) {
            Some(v) => Some(extract_string_or(v, "remote")),
            None => None,
        },
        None => None,
    };
    let caller = FunctionRef::with_definition(
        caller_module,
        caller_name,
        caller_arity,
        caller_kind,
        file,
        caller_start_line,
        caller_end_line,
    );
    let callee = FunctionRef::new(callee_module, callee_name, callee_arity);
    Some(Call { caller, callee, line, call_type, depth: None })
}

} // verus!
