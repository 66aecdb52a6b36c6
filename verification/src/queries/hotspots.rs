//! Hotspots: the functions with the most incoming or outgoing calls, and
//! per-module size and connectivity figures.

use vstd::prelude::*;
use crate::backend::{Database, QueryParams, QueryResult, Row, Value, ParamView};
use crate::db::{DbError, cell_text, get_string};
use crate::query_builders::{validate_regex_patterns, first_invalid_pattern, opt_str_view, pattern_views, regex_finds, regex_is_match, regex_compiles};
use crate::queries::rows::{views, distinct_names, int_in_column, text_in_column, text_at_column, lemma_named_cell};
use crate::text::{str_equal, string_views};

pub use crate::queries::connectivity::get_module_connectivity;

use crate::backend::surreal_rows::{names_ascending, lemma_names_ascending_from_adjacent};
use crate::text::{lex_order, lemma_lex_less};

verus! {

/// What type of hotspots to find
#[derive(Debug, Clone, Copy, PartialEq, Eq)]
pub enum HotspotKind {
    /// Functions with most incoming calls (most called)
    Incoming,
    /// Functions with most outgoing calls (calls many things)
    Outgoing,
    /// Functions with highest total (incoming + outgoing)
    Total,
    /// Functions with highest ratio of incoming to outgoing calls (boundary functions)
    Ratio,
}

impl Default for HotspotKind {
    fn default() -> (r: Self)
        ensures
            r == HotspotKind::Incoming,
    {
        HotspotKind::Incoming
    }
}

/// Errors of the query.
#[derive(Debug)]
pub enum HotspotsError {
    QueryFailed { message: String },
    InvalidRegex { pattern: String },
}

impl HotspotsError {
    /// The error's text.
    pub open spec fn message(&self) -> Seq<char> {
        match self {
            HotspotsError::QueryFailed { message } => "Hotspots query failed: "@ + message@,
            HotspotsError::InvalidRegex { pattern } => "Invalid regex pattern: "@ + pattern@,
        }
    }

    /// The error's text (what `Display` writes).
    pub fn to_string(&self) -> (r: String)
        ensures
            r@ == self.message(),
    {
        let mut r = String::new();
        match self {
            HotspotsError::QueryFailed { message } => {
                r.append("Hotspots query failed: ");
                r.append(message.as_str());
            },
            HotspotsError::InvalidRegex { pattern } => {
                r.append("Invalid regex pattern: ");
                r.append(pattern.as_str());
            },
        }
        r
    }
}

/// A function hotspot with its call counts. The incoming/outgoing ratio is
/// derived from the two counts by whoever reports it.
#[derive(Debug, Clone)]
pub struct Hotspot {
    pub module: String,
    pub function: String,
    pub incoming: i64,
    pub outgoing: i64,
    pub total: i64,
}

/// What a `Hotspot` holds, as plain values.
pub struct HotspotView {
    pub module: Seq<char>,
    pub function: Seq<char>,
    pub incoming: i64,
    pub outgoing: i64,
    pub total: i64,
}

impl View for Hotspot {
    type V = HotspotView;

    open spec fn view(&self) -> HotspotView {
        HotspotView {
            module: self.module@,
            function: self.function@,
            incoming: self.incoming,
            outgoing: self.outgoing,
            total: self.total,
        }
    }
}

/// Query counting the calls each function receives, grouped by callee record.
pub const INCOMING_QUERY: &'static str = "SELECT out, count() as cnt FROM calls GROUP BY out";

/// Query counting the calls each function makes, grouped by caller record.
pub const OUTGOING_QUERY: &'static str = "SELECT in, count() as cnt FROM calls GROUP BY in";

/// Query listing every function with its module.
pub const FUNCTIONS_QUERY: &'static str = "SELECT module_name as module, name as function FROM functions";

/// The (module, function) of a record reference whose id is an array
/// starting with the module and function names.
pub open spec fn function_key(v: Value) -> Option<(Seq<char>, Seq<char>)> {
    match v {
        Value::Thing(id) => match *id {
            Value::Array(arr) => if arr@.len() >= 2 {
                match (arr@[0], arr@[1]) {
                    (Value::Str(m), Value::Str(f)) => Some((m@, f@)),
                    _ => None,
                }
            } else {
                None
            },
            _ => None,
        },
        _ => None,
    }
}

/// Reads the (module, function) of a record reference.
pub fn extract_function_key(v: &Value) -> (r: Option<(String, String)>)
    ensures
        match r {
            Some(k) => function_key(*v) == Some((k.0@, k.1@)),
            None => function_key(*v) is None,
        },
{
    let id = v.as_thing_id()?;
    let arr = id.as_array()?;
    if arr.len() < 2 {
        return None;
    }
    let module = arr[0].as_str()?;
    let function = arr[1].as_str()?;
    Some((module.to_owned(), function.to_owned()))
}

/// One count row: the count (0 when not a number) for the function the
/// second column refers to.
pub open spec fn count_entry(row: Seq<Value>) -> Option<(Seq<char>, Seq<char>, i64)> {
    if row.len() >= 2 {
        match function_key(row[1]) {
            Some(k) => Some((k.0, k.1, match row[0] { Value::Int(n) => n, _ => 0 })),
            None => None,
        }
    } else {
        None
    }
}

/// The counts the rows give, in row order.
pub open spec fn count_entries(rows: Seq<Row>) -> Seq<(Seq<char>, Seq<char>, i64)> {
    rows.filter_map(|r: Row| count_entry(r.values@))
}

pub open spec fn count_views(v: Seq<(String, String, i64)>) -> Seq<(Seq<char>, Seq<char>, i64)> {
    v.map_values(|e: (String, String, i64)| (e.0@, e.1@, e.2))
}

/// The count recorded last for (module, function), or 0 when there is none
/// (a later row replaces an earlier one for the same function).
pub open spec fn count_for(entries: Seq<(Seq<char>, Seq<char>, i64)>, module: Seq<char>, function: Seq<char>) -> i64
    decreases entries.len(),
{
    if entries.len() == 0 {
        0
    } else if entries.last().0 == module && entries.last().1 == function {
        entries.last().2
    } else {
        count_for(entries.drop_last(), module, function)
    }
}

fn decode_counts(rows: &Vec<Row>) -> (r: Vec<(String, String, i64)>)
    ensures
        count_views(r@) == count_entries(rows@),
{
    let mut out: Vec<(String, String, i64)> = Vec::new();
    let mut i: usize = 0;
    while i < rows.len()
        invariant
            i <= rows@.len(),
            count_views(out@) == count_entries(rows@.take(i as int)),
        decreases rows@.len() - i,
    {
        let ghost before = out@;
        let row = &rows[i];
        let ghost t = rows@.take(i + 1);
        assert(t.drop_last() =~= rows@.take(i as int));
        assert(t.last() == rows@[i as int]);
        if row.len() >= 2 {
            let cnt = match row.values[0].as_i64() {
                Some(n) => n,
                None => 0,
            };
            match extract_function_key(&row.values[1]) {
                Some(key) => {
                    out.push((key.0, key.1, cnt));
                    assert(count_views(out@) =~= count_views(before) + seq![(key.0@, key.1@, cnt)]);
                },
                None => {},
            }
        }
        i = i + 1;
    }
    assert(rows@.take(rows@.len() as int) =~= rows@);
    out
}

fn lookup_count(entries: &Vec<(String, String, i64)>, module: &str, function: &str) -> (r: i64)
    ensures
        r == count_for(count_views(entries@), module@, function@),
{
    let mut i: usize = entries.len();
    assert(entries@.take(i as int) =~= entries@);
    while i > 0
        invariant
            i <= entries@.len(),
            count_for(count_views(entries@), module@, function@) == count_for(count_views(entries@.take(i as int)), module@, function@),
        decreases i,
    {
        let ghost t = count_views(entries@.take(i as int));
        assert(count_views(entries@.take(i - 1)) =~= t.drop_last());
        if str_equal(entries[i - 1].0.as_str(), module) && str_equal(entries[i - 1].1.as_str(), function) {
            return entries[i - 1].2;
        }
        i = i - 1;
    }
    0
}

/// The first position of `name` among the column names.
pub open spec fn first_position(headers: Seq<Seq<char>>, name: Seq<char>) -> Option<int>
    decreases headers.len(),
{
    if headers.len() == 0 {
        None
    } else if headers[0] == name {
        Some(0)
    } else {
        match first_position(headers.drop_first(), name) {
            Some(i) => Some(i + 1),
            None => None,
        }
    }
}

pub proof fn lemma_first_position(headers: Seq<Seq<char>>, name: Seq<char>)
    ensures
        first_position(headers, name) matches Some(i) ==> 0 <= i < headers.len() && headers[i] == name
            && forall|j: int| 0 <= j < i ==> headers[j] != name,
        first_position(headers, name) is None ==> forall|j: int| 0 <= j < headers.len() ==> headers[j] != name,
    decreases headers.len(),
{
    if headers.len() > 0 {
        lemma_first_position(headers.drop_first(), name);
        assert forall|j: int| 1 <= j < headers.len() implies headers[j] == headers.drop_first()[j - 1] by {}
    }
}

/// Column `i` is the first of the headers to carry its name.
pub open spec fn first_of_its_name(headers: Seq<Seq<char>>, i: int) -> bool {
    0 <= i < headers.len() && forall|j: int| 0 <= j < i ==> headers[j] != headers[i]
}

/// The first position of a name is the column that first carries it.
pub proof fn lemma_first_position_is_first(headers: Seq<Seq<char>>, name: Seq<char>, i: int)
    requires
        first_of_its_name(headers, i),
        headers[i] == name,
    ensures
        first_position(headers, name) == Some(i),
{
    lemma_first_position(headers, name);
    match first_position(headers, name) {
        Some(k) => {
            if k < i {
                assert(headers[k] == headers[i]);
            } else if k > i {
                assert(headers[i] == name);
            }
        },
        None => {
            assert(headers[i] == name);
        },
    }
}

/// The position of the first column named `name`.
pub fn find_col(headers: &Vec<String>, name: &str) -> (r: Option<usize>)
    ensures
        match r {
            Some(i) => first_position(string_views(headers@), name@) == Some(i as int),
            None => first_position(string_views(headers@), name@) is None,
        },
{
    let ghost hs = string_views(headers@);
    proof { lemma_first_position(hs, name@); }
    let mut i: usize = 0;
    while i < headers.len()
        invariant
            i <= headers@.len(),
            hs == string_views(headers@),
            forall|j: int| 0 <= j < i ==> hs[j] != name@,
        decreases headers@.len() - i,
    {
        if str_equal(headers[i].as_str(), name) {
            proof {
                lemma_first_position(hs, name@);
                assert(hs[i as int] == headers@[i as int]@);
                if first_position(hs, name@) != Some(i as int) {
                    match first_position(hs, name@) {
                        Some(k) => {
                            assert(hs[k] == name@);
                            assert(k > i ==> hs[i as int] != name@);
                        },
                        None => {
                            assert(hs[i as int] != name@);
                        },
                    }
                }
            }
            return Some(i);
        }
        i = i + 1;
    }
    None
}

/// Whether a module passes the module filter: a regex match, or equality
/// with the pattern; any module passes when there is no pattern.
pub open spec fn module_selected(module_pattern: Option<Seq<char>>, use_regex: bool, module: Seq<char>) -> bool {
    match module_pattern {
        Some(p) => if use_regex { regex_finds(p, module) } else { module == p },
        None => true,
    }
}

/// The hotspot a function row gives, with the counts recorded for it; none
/// when the row lacks its names, when outgoing calls are required and it
/// makes none, or when its module does not pass the module filter.
pub open spec fn hotspot_of_row(
    row: Seq<Value>,
    mod_idx: int,
    fn_idx: int,
    incoming: Seq<(Seq<char>, Seq<char>, i64)>,
    outgoing: Seq<(Seq<char>, Seq<char>, i64)>,
    require_outgoing: bool,
    module_pattern: Option<Seq<char>>,
    use_regex: bool,
) -> Option<HotspotView> {
    if row.len() >= 2 {
        match (cell_text(row, mod_idx), cell_text(row, fn_idx)) {
            (Some(m), Some(f)) => {
                let i = count_for(incoming, m, f);
                let o = count_for(outgoing, m, f);
                if (require_outgoing && o == 0) || !module_selected(module_pattern, use_regex, m) {
                    None
                } else {
                    Some(HotspotView { module: m, function: f, incoming: i, outgoing: o, total: i.wrapping_add(o) })
                }
            },
            _ => None,
        }
    } else {
        None
    }
}

/// The hotspots the function listing gives, in listing order; none when the
/// listing lacks a `module` or a `function` column.
pub open spec fn hotspot_candidates(
    functions: QueryResult,
    incoming: Seq<(Seq<char>, Seq<char>, i64)>,
    outgoing: Seq<(Seq<char>, Seq<char>, i64)>,
    require_outgoing: bool,
    module_pattern: Option<Seq<char>>,
    use_regex: bool,
) -> Seq<HotspotView> {
    let hs = string_views(functions.headers@);
    match (first_position(hs, "module"@), first_position(hs, "function"@)) {
        (Some(mi), Some(fi)) => functions.rows@.filter_map(
            |r: Row| hotspot_of_row(r.values@, mi, fi, incoming, outgoing, require_outgoing, module_pattern, use_regex),
        ),
        _ => Seq::empty(),
    }
}

/// The count a kind ranks by.
pub open spec fn score(h: HotspotView, kind: HotspotKind) -> int {
    match kind {
        HotspotKind::Incoming => h.incoming as int,
        HotspotKind::Outgoing => h.outgoing as int,
        HotspotKind::Total => h.total as int,
        HotspotKind::Ratio => 0,
    }
}

/// Places `h` after every element that scores at least as high.
pub open spec fn insert_ranked(s: Seq<HotspotView>, h: HotspotView, kind: HotspotKind) -> Seq<HotspotView>
    decreases s.len(),
{
    if s.len() == 0 {
        seq![h]
    } else if score(s[0], kind) < score(h, kind) {
        seq![h] + s
    } else {
        seq![s[0]] + insert_ranked(s.drop_first(), h, kind)
    }
}

/// The hotspots ordered by decreasing score, equal scores in their given
/// order.
pub open spec fn ranked(s: Seq<HotspotView>, kind: HotspotKind) -> Seq<HotspotView>
    decreases s.len(),
{
    if s.len() == 0 {
        s
    } else {
        insert_ranked(ranked(s.drop_last(), kind), s.last(), kind)
    }
}

/// Every hotspot scores at least as high as every later one.
pub open spec fn ranked_desc(s: Seq<HotspotView>, kind: HotspotKind) -> bool {
    forall|i: int, j: int| 0 <= i < j < s.len() ==> score(#[trigger] s[i], kind) >= score(#[trigger] s[j], kind)
}

proof fn lemma_insert_ranked_props(s: Seq<HotspotView>, h: HotspotView, kind: HotspotKind)
    requires
        ranked_desc(s, kind),
    ensures
        ranked_desc(insert_ranked(s, h, kind), kind),
        insert_ranked(s, h, kind).to_multiset() == s.to_multiset().insert(h),
        forall|y: HotspotView| #[trigger] insert_ranked(s, h, kind).contains(y) ==> y == h || s.contains(y),
    decreases s.len(),
{
    broadcast use vstd::seq_lib::group_seq_properties;
    broadcast use vstd::multiset::group_multiset_axioms;
    let r = insert_ranked(s, h, kind);
    if s.len() == 0 {
        assert(r =~= seq![h]);
        assert(seq![h] =~= Seq::<HotspotView>::empty().push(h));
    } else if score(s[0], kind) < score(h, kind) {
        assert(r =~= seq![h] + s);
        assert forall|i: int, j: int| 0 <= i < j < r.len() implies score(#[trigger] r[i], kind) >= score(#[trigger] r[j], kind) by {
            if i == 0 {
                assert(r[j] == s[j - 1]);
                if j - 1 > 0 {
                    assert(score(s[0], kind) >= score(s[j - 1], kind));
                }
            } else {
                assert(r[i] == s[i - 1] && r[j] == s[j - 1]);
            }
        }
        vstd::seq_lib::lemma_multiset_commutative(seq![h], s);
        assert(seq![h] =~= Seq::<HotspotView>::empty().push(h));
    } else {
        let t = s.drop_first();
        assert forall|i: int, j: int| 0 <= i < j < t.len() implies score(#[trigger] t[i], kind) >= score(#[trigger] t[j], kind) by {
            assert(t[i] == s[i + 1] && t[j] == s[j + 1]);
        }
        lemma_insert_ranked_props(t, h, kind);
        let rt = insert_ranked(t, h, kind);
        assert(r =~= seq![s[0]] + rt);
        assert forall|i: int, j: int| 0 <= i < j < r.len() implies score(#[trigger] r[i], kind) >= score(#[trigger] r[j], kind) by {
            if i == 0 {
                assert(r[j] == rt[j - 1]);
                assert(rt.contains(rt[j - 1]));
                if rt[j - 1] != h {
                    let k = choose|k: int| 0 <= k < t.len() && t[k] == rt[j - 1];
                    assert(t[k] == s[k + 1]);
                }
            } else {
                assert(r[i] == rt[i - 1] && r[j] == rt[j - 1]);
            }
        }
        vstd::seq_lib::lemma_multiset_commutative(seq![s[0]], rt);
        vstd::seq_lib::lemma_multiset_commutative(seq![s[0]], t);
        assert(s =~= seq![s[0]] + t);
        assert forall|y: HotspotView| #[trigger] r.contains(y) implies y == h || s.contains(y) by {
            let i = choose|i: int| 0 <= i < r.len() && r[i] == y;
            if i > 0 {
                assert(rt.contains(rt[i - 1]));
                if rt[i - 1] != h {
                    let k = choose|k: int| 0 <= k < t.len() && t[k] == rt[i - 1];
                    assert(s[k + 1] == y);
                }
            } else {
                assert(s[0] == y);
            }
        }
    }
}

/// Ranking orders the hotspots by decreasing score and keeps every one of
/// them, each as often as it occurs.
pub proof fn lemma_ranked(s: Seq<HotspotView>, kind: HotspotKind)
    ensures
        ranked_desc(ranked(s, kind), kind),
        ranked(s, kind).to_multiset() == s.to_multiset(),
    decreases s.len(),
{
    broadcast use vstd::seq_lib::group_seq_properties;
    if s.len() > 0 {
        lemma_ranked(s.drop_last(), kind);
        lemma_insert_ranked_props(ranked(s.drop_last(), kind), s.last(), kind);
        assert(s =~= s.drop_last().push(s.last()));
    } else {
        assert(ranked(s, kind) =~= s);
    }
}

/// What `find_hotspots` returns for the three query results: the candidates,
/// ranked by the kind's count and cut to `limit` (for `Ratio`, in listing
/// order and uncut: that ranking is by a floating-point ratio).
pub open spec fn hotspots_result(
    incoming_rows: Seq<Row>,
    outgoing_rows: Seq<Row>,
    functions: QueryResult,
    kind: HotspotKind,
    module_pattern: Option<Seq<char>>,
    use_regex: bool,
    limit: u32,
    require_outgoing: bool,
) -> Seq<HotspotView> {
    let c = hotspot_candidates(
        functions,
        count_entries(incoming_rows),
        count_entries(outgoing_rows),
        require_outgoing,
        module_pattern,
        use_regex,
    );
    if kind is Ratio {
        c
    } else {
        let r = ranked(c, kind);
        if r.len() > limit { r.take(limit as int) } else { r }
    }
}

proof fn lemma_insert_ranked(s: Seq<HotspotView>, h: HotspotView, kind: HotspotKind, p: int)
    requires
        0 <= p <= s.len(),
        forall|j: int| 0 <= j < p ==> score(#[trigger] s[j], kind) >= score(h, kind),
        p < s.len() ==> score(s[p], kind) < score(h, kind),
    ensures
        insert_ranked(s, h, kind) == s.insert(p, h),
    decreases s.len(),
{
    if s.len() == 0 {
        assert(s.insert(p, h) =~= seq![h]);
    } else if p == 0 {
        assert(s.insert(0, h) =~= seq![h] + s);
    } else {
        let t = s.drop_first();
        assert forall|j: int| 0 <= j < p - 1 implies score(#[trigger] t[j], kind) >= score(h, kind) by {
            assert(t[j] == s[j + 1]);
        }
        if p - 1 < t.len() {
            assert(t[p - 1] == s[p]);
        }
        lemma_insert_ranked(t, h, kind, p - 1);
        assert(s.insert(p, h) =~= seq![s[0]] + t.insert(p - 1, h));
    }
}

fn score_of(h: &Hotspot, kind: HotspotKind) -> (r: i64)
    requires
        !(kind is Ratio),
    ensures
        r as int == score(h@, kind),
{
    match kind {
        HotspotKind::Incoming => h.incoming,
        HotspotKind::Outgoing => h.outgoing,
        _ => h.total,
    }
}

/// Ranks the hotspots by the kind's count, highest first, keeping the given
/// order among equal counts (for `Ratio`, the order is left as given).
pub fn rank_hotspots(v: Vec<Hotspot>, kind: HotspotKind) -> (r: Vec<Hotspot>)
    ensures
        views(r@) == (if kind is Ratio { views(v@) } else { ranked(views(v@), kind) }),
{
    if let HotspotKind::Ratio = kind {
        return v;
    }
    let ghost all = views(v@);
    let n = v.len();
    assert(all.len() == n);
    let mut rest = v;
    let mut out: Vec<Hotspot> = Vec::new();
    let mut k: usize = 0;
    assert(all.skip(0) =~= all);
    while rest.len() > 0
        invariant
            !(kind is Ratio),
            k <= all.len(),
            all.len() <= usize::MAX,
            views(rest@) == all.skip(k as int),
            views(out@) == ranked(all.take(k as int), kind),
        decreases rest@.len(),
    {
        let ghost old_rest = rest@;
        let h = rest.remove(0);
        proof {
            assert(rest@ =~= old_rest.drop_first());
            assert(views(old_rest)[0] == all.skip(k as int)[0]);
            assert(views(rest@) =~= views(old_rest).drop_first());
            assert(views(old_rest).drop_first() =~= all.skip(k + 1));
        }
        assert(h@ == all[k as int]);
        assert(k < all.len());
        let score_h = score_of(&h, kind);
        let mut p: usize = 0;
        while p < out.len() && score_of(&out[p], kind) >= score_h
            invariant
                !(kind is Ratio),
                p <= out@.len(),
                score_h as int == score(h@, kind),
                forall|j: int| 0 <= j < p ==> score(#[trigger] views(out@)[j], kind) >= score(h@, kind),
            decreases out@.len() - p,
        {
            p = p + 1;
        }
        proof {
            lemma_insert_ranked(views(out@), h@, kind, p as int);
            assert(all.take(k + 1).drop_last() =~= all.take(k as int));
        }
        let ghost before = views(out@);
        out.insert(p, h);
        assert(views(out@) =~= before.insert(p as int, h@));
        k = k + 1;
    }
    assert(all.take(k as int) =~= all);
    out
}

/// Whether a module passes the module filter.
pub fn module_passes(module_pattern: Option<&str>, use_regex: bool, module: &str) -> (r: bool)
    requires
        use_regex && module_pattern is Some ==> crate::query_builders::regex_compiles(module_pattern.unwrap()@),
    ensures
        r == module_selected(opt_str_view(module_pattern), use_regex, module@),
{
    match module_pattern {
        Some(p) => if use_regex { regex_is_match(p, module) } else { str_equal(module, p) },
        None => true,
    }
}

fn hotspot_from_row(
    row: &Row,
    mod_idx: usize,
    fn_idx: usize,
    incoming: &Vec<(String, String, i64)>,
    outgoing: &Vec<(String, String, i64)>,
    require_outgoing: bool,
    module_pattern: Option<&str>,
    use_regex: bool,
) -> (r: Option<Hotspot>)
    requires
        use_regex && module_pattern is Some ==> crate::query_builders::regex_compiles(module_pattern.unwrap()@),
    ensures
        match r {
            Some(h) => hotspot_of_row(row.values@, mod_idx as int, fn_idx as int, count_views(incoming@), count_views(outgoing@), require_outgoing, opt_str_view(module_pattern), use_regex) == Some(h@),
            None => hotspot_of_row(row.values@, mod_idx as int, fn_idx as int, count_views(incoming@), count_views(outgoing@), require_outgoing, opt_str_view(module_pattern), use_regex) is None,
        },
{
    if row.len() < 2 {
        return None;
    }
    let module = get_string(row, mod_idx)?;
    let function = get_string(row, fn_idx)?;
    let incoming_count = lookup_count(incoming, module.as_str(), function.as_str());
    let outgoing_count = lookup_count(outgoing, module.as_str(), function.as_str());
    if require_outgoing && outgoing_count == 0 {
        return None;
    }
    if !module_passes(module_pattern, use_regex, module.as_str()) {
        return None;
    }
    let total = incoming_count.wrapping_add(outgoing_count);
    Some(Hotspot { module, function, incoming: incoming_count, outgoing: outgoing_count, total })
}

/// The hotspots the function listing gives, with their counts, in listing
/// order, keeping those that pass the filters.
pub fn collect_hotspots(
    functions: &QueryResult,
    incoming: &Vec<(String, String, i64)>,
    outgoing: &Vec<(String, String, i64)>,
    require_outgoing: bool,
    module_pattern: Option<&str>,
    use_regex: bool,
) -> (r: Vec<Hotspot>)
    requires
        use_regex && module_pattern is Some ==> crate::query_builders::regex_compiles(module_pattern.unwrap()@),
    ensures
        views(r@) == hotspot_candidates(*functions, count_views(incoming@), count_views(outgoing@), require_outgoing, opt_str_view(module_pattern), use_regex),
{
    let mod_idx = find_col(&functions.headers, "module");
    let fn_idx = find_col(&functions.headers, "function");
    let mut out: Vec<Hotspot> = Vec::new();
    match (mod_idx, fn_idx) {
        (Some(mi), Some(fi)) => {
            let rows = &functions.rows;
            let ghost pick = |r: Row| hotspot_of_row(r.values@, mi as int, fi as int, count_views(incoming@), count_views(outgoing@), require_outgoing, opt_str_view(module_pattern), use_regex);
            let mut i: usize = 0;
            while i < rows.len()
                invariant
                    i <= rows@.len(),
                    *rows == functions.rows,
                    use_regex && module_pattern is Some ==> crate::query_builders::regex_compiles(module_pattern.unwrap()@),
                    pick == (|r: Row| hotspot_of_row(r.values@, mi as int, fi as int, count_views(incoming@), count_views(outgoing@), require_outgoing, opt_str_view(module_pattern), use_regex)),
                    views(out@) == rows@.take(i as int).filter_map(pick),
                decreases rows@.len() - i,
            {
                let ghost before = out@;
                let ghost t = rows@.take(i + 1);
                assert(t.drop_last() =~= rows@.take(i as int));
                assert(t.last() == rows@[i as int]);
                match hotspot_from_row(&rows[i], mi, fi, incoming, outgoing, require_outgoing, module_pattern, use_regex) {
                    Some(h) => {
                        out.push(h);
                        assert(views(out@) =~= views(before) + seq![h@]);
                    },
                    None => {},
                }
                i = i + 1;
            }
            assert(rows@.take(rows@.len() as int) =~= rows@);
        },
        _ => {},
    }
    out
}

fn count_query_failure(what: &str, e: &DbError) -> (r: String)
    ensures
        r@ == "Failed to get "@ + what@ + ": "@ + e.message(),
{
    let mut m = String::new();
    m.append("Failed to get ");
    m.append(what);
    m.append(": ");
    let t = e.to_string();
    m.append(t.as_str());
    m
}

/// Find the functions with the most calls of the given kind: the counts of
/// incoming and outgoing calls per function, for every listed function that
/// passes the filters (outgoing calls required, module pattern), ranked by
/// the kind's count and cut to `limit`. For `Ratio` the ranking (by the
/// floating-point ratio of incoming to outgoing calls) and the cut are left
/// to the caller: the functions come in listing order.
pub fn find_hotspots<D: Database + ?Sized>(
    db: &D,
    kind: HotspotKind,
    module_pattern: Option<&str>,
    _project: &str,
    use_regex: bool,
    limit: u32,
    _exclude_generated: bool,
    require_outgoing: bool,
) -> (r: Result<Vec<Hotspot>, HotspotsError>)
    ensures
        match r {
            Err(HotspotsError::InvalidRegex { pattern: bad }) => first_invalid_pattern(use_regex, seq![opt_str_view(module_pattern)]) == Some(bad@),
            Err(HotspotsError::QueryFailed { message }) => first_invalid_pattern(use_regex, seq![opt_str_view(module_pattern)]) is None && (
                (exists|p1: QueryParams, e: DbError| p1.binds_exactly(Map::empty())
                    && #[trigger] db.answers(INCOMING_QUERY@, p1, Err(e))
                    && message@ == "Failed to get "@ + "incoming calls"@ + ": "@ + e.message())
                || (exists|p1: QueryParams, r1: QueryResult, p2: QueryParams, e: DbError|
                    #![trigger db.answers(INCOMING_QUERY@, p1, Ok(r1)), db.answers(OUTGOING_QUERY@, p2, Err(e))]
                    p1.binds_exactly(Map::empty()) && db.answers(INCOMING_QUERY@, p1, Ok(r1))
                    && p2.binds_exactly(Map::empty()) && db.answers(OUTGOING_QUERY@, p2, Err(e))
                    && message@ == "Failed to get "@ + "outgoing calls"@ + ": "@ + e.message())
                || (exists|p1: QueryParams, r1: QueryResult, p2: QueryParams, r2: QueryResult, p3: QueryParams, e: DbError|
                    #![trigger db.answers(INCOMING_QUERY@, p1, Ok(r1)), db.answers(OUTGOING_QUERY@, p2, Ok(r2)), db.answers(FUNCTIONS_QUERY@, p3, Err(e))]
                    p1.binds_exactly(Map::empty()) && db.answers(INCOMING_QUERY@, p1, Ok(r1))
                    && p2.binds_exactly(Map::empty()) && db.answers(OUTGOING_QUERY@, p2, Ok(r2))
                    && p3.binds_exactly(Map::empty()) && db.answers(FUNCTIONS_QUERY@, p3, Err(e))
                    && message@ == "Failed to get "@ + "functions"@ + ": "@ + e.message())),
            Ok(v) => first_invalid_pattern(use_regex, seq![opt_str_view(module_pattern)]) is None
                && exists|p1: QueryParams, r1: QueryResult, p2: QueryParams, r2: QueryResult, p3: QueryParams, r3: QueryResult|
                    #![trigger db.answers(INCOMING_QUERY@, p1, Ok(r1)), db.answers(OUTGOING_QUERY@, p2, Ok(r2)), db.answers(FUNCTIONS_QUERY@, p3, Ok(r3))]
                    p1.binds_exactly(Map::empty()) && db.answers(INCOMING_QUERY@, p1, Ok(r1))
                    && p2.binds_exactly(Map::empty()) && db.answers(OUTGOING_QUERY@, p2, Ok(r2))
                    && p3.binds_exactly(Map::empty()) && db.answers(FUNCTIONS_QUERY@, p3, Ok(r3))
                    && views(v@) == hotspots_result(r1.rows@, r2.rows@, r3, kind, opt_str_view(module_pattern), use_regex, limit, require_outgoing),
        },
        r matches Ok(v) ==> (!(kind is Ratio) ==> v@.len() <= limit && ranked_desc(views(v@), kind)),
{
    let pats: [Option<&str>; 1] = [module_pattern];
    assert(pattern_views(pats@) =~= seq![opt_str_view(module_pattern)]);
    match validate_regex_patterns(use_regex, &pats) {
        Err(p) => {
            return Err(HotspotsError::InvalidRegex { pattern: p });
        },
        Ok(()) => {},
    }
    proof {
        if use_regex && module_pattern is Some {
            reveal_with_fuel(first_invalid_pattern, 2);
            assert(seq![opt_str_view(module_pattern)].drop_first() =~= Seq::<Option<Seq<char>>>::empty());
        }
    }
    let p1 = QueryParams::new();
    let ghost g1 = p1;
    let incoming_result = match db.execute_query(INCOMING_QUERY, p1) {
        Ok(res) => res,
        Err(e) => {
            let message = count_query_failure("incoming calls", &e);
            assert(db.answers(INCOMING_QUERY@, g1, Err(e)));
            return Err(HotspotsError::QueryFailed { message });
        },
    };
    let p2 = QueryParams::new();
    let ghost g2 = p2;
    let outgoing_result = match db.execute_query(OUTGOING_QUERY, p2) {
        Ok(res) => res,
        Err(e) => {
            let message = count_query_failure("outgoing calls", &e);
            assert(db.answers(INCOMING_QUERY@, g1, Ok(incoming_result)));
            assert(db.answers(OUTGOING_QUERY@, g2, Err(e)));
            return Err(HotspotsError::QueryFailed { message });
        },
    };
    let p3 = QueryParams::new();
    let ghost g3 = p3;
    let functions_result = match db.execute_query(FUNCTIONS_QUERY, p3) {
        Ok(res) => res,
        Err(e) => {
            let message = count_query_failure("functions", &e);
            assert(db.answers(INCOMING_QUERY@, g1, Ok(incoming_result)));
            assert(db.answers(OUTGOING_QUERY@, g2, Ok(outgoing_result)));
            assert(db.answers(FUNCTIONS_QUERY@, g3, Err(e)));
            return Err(HotspotsError::QueryFailed { message });
        },
    };
    let incoming_counts = decode_counts(&incoming_result.rows);
    let outgoing_counts = decode_counts(&outgoing_result.rows);
    let candidates = collect_hotspots(&functions_result, &incoming_counts, &outgoing_counts, require_outgoing, module_pattern, use_regex);
    proof {
        lemma_ranked(views(candidates@), kind);
    }
    let mut hotspots = rank_hotspots(candidates, kind);
    let ghost ranked_v = views(hotspots@);
    if let HotspotKind::Ratio = kind {
    } else {
        let n = limit as usize;
        if hotspots.len() > n {
            hotspots.truncate(n);
        }
        proof {
            assert forall|i: int, j: int| 0 <= i < j < views(hotspots@).len() implies
                score(#[trigger] views(hotspots@)[i], kind) >= score(#[trigger] views(hotspots@)[j], kind) by {
                assert(views(hotspots@)[i] == ranked_v[i]);
                assert(views(hotspots@)[j] == ranked_v[j]);
            }
        }
    }
    assert(db.answers(INCOMING_QUERY@, g1, Ok(incoming_result)));
    assert(db.answers(OUTGOING_QUERY@, g2, Ok(outgoing_result)));
    assert(db.answers(FUNCTIONS_QUERY@, g3, Ok(functions_result)));
    Ok(hotspots)
}


/// The module filter of the per-module queries.
pub open spec fn module_clause(module_pattern: Option<Seq<char>>, use_regex: bool) -> Seq<char> {
    match module_pattern {
        Some(_) => if use_regex {
            "WHERE string::matches(module_name, $module_pattern)"@
        } else {
            "WHERE module_name = $module_pattern"@
        },
        None => ""@,
    }
}

fn module_clause_of(module_pattern: Option<&str>, use_regex: bool) -> (r: &'static str)
    ensures
        r@ == module_clause(opt_str_view(module_pattern), use_regex),
{
    if module_pattern.is_some() {
        if use_regex {
            "WHERE string::matches(module_name, $module_pattern)"
        } else {
            "WHERE module_name = $module_pattern"
        }
    } else {
        ""
    }
}

/// The parameters of the per-module queries: the module pattern when given.
pub open spec fn module_params(module_pattern: Option<Seq<char>>) -> Map<Seq<char>, ParamView> {
    match module_pattern {
        Some(p) => Map::empty().insert("module_pattern"@, ParamView::Str(p)),
        None => Map::empty(),
    }
}

pub fn module_params_of(module_pattern: Option<&str>) -> (r: QueryParams)
    ensures
        r.binds_exactly(module_params(opt_str_view(module_pattern))),
{
    let mut params = QueryParams::new();
    match module_pattern {
        Some(pattern) => {
            params = params.with_str("module_pattern", pattern);
        },
        None => {},
    }
    params
}

/// The query summing the lines of each module's clauses.
pub open spec fn module_loc_query_text(module_pattern: Option<Seq<char>>, use_regex: bool) -> Seq<char> {
    r#"
        SELECT module_name, math::sum(end_line - start_line + 1) as loc
        FROM clauses
        "#@ + module_clause(module_pattern, use_regex) + r#"
        GROUP BY module_name
        ORDER BY loc DESC
        "#@
}

/// The query counting each module's distinct functions.
pub open spec fn function_counts_query_text(module_pattern: Option<Seq<char>>, use_regex: bool) -> Seq<char> {
    r#"
        SELECT module_name, count() as function_count
        FROM (
            SELECT module_name, function_name, arity
            FROM clauses
            "#@ + module_clause(module_pattern, use_regex) + r#"
            GROUP BY module_name, function_name, arity
        )
        GROUP BY module_name
        ORDER BY function_count DESC
        "#@
}

/// One figure row: the number in the first column (0 when not a number)
/// for the module named in the second.
pub open spec fn module_figure(row: Seq<Value>) -> Option<(Seq<char>, i64)> {
    if row.len() >= 2 {
        match cell_text(row, 1) {
            Some(m) => Some((m, match row[0] { Value::Int(n) => n, _ => 0 })),
            None => None,
        }
    } else {
        None
    }
}

pub open spec fn module_figures(rows: Seq<Row>) -> Seq<(Seq<char>, i64)> {
    rows.filter_map(|r: Row| module_figure(r.values@))
}

pub open spec fn figure_views(v: Seq<(String, i64)>) -> Seq<(Seq<char>, i64)> {
    v.map_values(|e: (String, i64)| (e.0@, e.1))
}

/// The map the figures give, a later figure for a module replacing an
/// earlier one.
pub open spec fn figures_map(e: Seq<(Seq<char>, i64)>) -> Map<Seq<char>, i64>
    decreases e.len(),
{
    if e.len() == 0 {
        Map::empty()
    } else {
        figures_map(e.drop_last()).insert(e.last().0, e.last().1)
    }
}

pub open spec fn names_distinct(e: Seq<(Seq<char>, i64)>) -> bool {
    forall|i: int, j: int| 0 <= i < j < e.len() ==> e[i].0 != e[j].0
}

proof fn lemma_figures_update(s: Seq<(Seq<char>, i64)>, j: int, v: i64)
    requires
        names_distinct(s),
        0 <= j < s.len(),
    ensures
        figures_map(s.update(j, (s[j].0, v))) == figures_map(s).insert(s[j].0, v),
        names_distinct(s.update(j, (s[j].0, v))),
    decreases s.len(),
{
    let t = s.update(j, (s[j].0, v));
    if j == s.len() - 1 {
        assert(t.drop_last() =~= s.drop_last());
        assert(figures_map(t) =~= figures_map(s).insert(s[j].0, v));
    } else {
        assert(t.drop_last() =~= s.drop_last().update(j, (s[j].0, v)));
        assert(s.drop_last()[j] == s[j]);
        lemma_figures_update(s.drop_last(), j, v);
        assert(s.last().0 != s[j].0);
        assert(figures_map(t) =~= figures_map(s).insert(s[j].0, v));
    }
}

proof fn lemma_figures_absent(s: Seq<(Seq<char>, i64)>, k: Seq<char>)
    requires
        forall|i: int| 0 <= i < s.len() ==> s[i].0 != k,
    ensures
        !figures_map(s).contains_key(k),
    decreases s.len(),
{
    if s.len() > 0 {
        lemma_figures_absent(s.drop_last(), k);
    }
}

/// Collects figures into a table holding each module once, with the last
/// figure given for it.
pub fn collect_figures(figures: &Vec<(String, i64)>) -> (r: Vec<(String, i64)>)
    ensures
        names_distinct(figure_views(r@)),
        figures_map(figure_views(r@)) == figures_map(figure_views(figures@)),
{
    let ghost all = figure_views(figures@);
    let mut table: Vec<(String, i64)> = Vec::new();
    let mut i: usize = 0;
    while i < figures.len()
        invariant
            i <= figures@.len(),
            all == figure_views(figures@),
            names_distinct(figure_views(table@)),
            figures_map(figure_views(table@)) == figures_map(all.take(i as int)),
        decreases figures@.len() - i,
    {
        let name = figures[i].0.as_str();
        let value = figures[i].1;
        let ghost tv = figure_views(table@);
        proof {
            assert(all.take(i + 1).drop_last() =~= all.take(i as int));
            assert(all.take(i + 1).last() == (name@, value));
        }
        let mut j: usize = 0;
        while j < table.len() && !str_equal(table[j].0.as_str(), name)
            invariant
                j <= table@.len(),
                tv == figure_views(table@),
                forall|m: int| 0 <= m < j ==> tv[m].0 != name@,
            decreases table@.len() - j,
        {
            j = j + 1;
        }
        if j < table.len() {
            proof {
                lemma_figures_update(tv, j as int, value);
            }
            let entry = (name.to_owned(), value);
            table.set(j, entry);
            assert(figure_views(table@) =~= tv.update(j as int, (tv[j as int].0, value)));
        } else {
            proof {
                lemma_figures_absent(tv, name@);
            }
            table.push((name.to_owned(), value));
            assert(figure_views(table@) =~= tv.push((name@, value)));
            assert(figure_views(table@).drop_last() =~= tv);
        }
        i = i + 1;
    }
    assert(all.take(i as int) =~= all);
    table
}

fn decode_figures(rows: &Vec<Row>) -> (r: Vec<(String, i64)>)
    ensures
        figure_views(r@) == module_figures(rows@),
{
    let mut out: Vec<(String, i64)> = Vec::new();
    let mut i: usize = 0;
    while i < rows.len()
        invariant
            i <= rows@.len(),
            figure_views(out@) == module_figures(rows@.take(i as int)),
        decreases rows@.len() - i,
    {
        let ghost before = out@;
        let ghost t = rows@.take(i + 1);
        assert(t.drop_last() =~= rows@.take(i as int));
        assert(t.last() == rows@[i as int]);
        let row = &rows[i];
        if row.len() >= 2 {
            let n = match row.values[0].as_i64() {
                Some(n) => n,
                None => 0,
            };
            match get_string(row, 1) {
                Some(m) => {
                    out.push((m, n));
                    assert(figure_views(out@) =~= figure_views(before) + seq![(m@, n)]);
                },
                None => {},
            }
        }
        i = i + 1;
    }
    assert(rows@.take(rows@.len() as int) =~= rows@);
    out
}
/// Get lines of code per module (the sum of its clauses' line spans), each
/// module once (as a map: a later row for a module replaces an earlier one).
pub fn get_module_loc<D: Database + ?Sized>(
    db: &D,
    _project: &str,
    module_pattern: Option<&str>,
    use_regex: bool,
) -> (r: Result<Vec<(String, i64)>, HotspotsError>)
    ensures
        match r {
            Err(HotspotsError::InvalidRegex { pattern: bad }) => first_invalid_pattern(use_regex, seq![opt_str_view(module_pattern)]) == Some(bad@),
            Err(HotspotsError::QueryFailed { message }) => first_invalid_pattern(use_regex, seq![opt_str_view(module_pattern)]) is None
                && exists|p: QueryParams, e: DbError| p.binds_exactly(module_params(opt_str_view(module_pattern)))
                    && #[trigger] db.answers(module_loc_query_text(opt_str_view(module_pattern), use_regex), p, Err(e)) && message@ == e.message(),
            Ok(v) => first_invalid_pattern(use_regex, seq![opt_str_view(module_pattern)]) is None
                && exists|p: QueryParams, res: QueryResult| p.binds_exactly(module_params(opt_str_view(module_pattern)))
                    && #[trigger] db.answers(module_loc_query_text(opt_str_view(module_pattern), use_regex), p, Ok(res))
                    && names_distinct(figure_views(v@))
                    && figures_map(figure_views(v@)) == figures_map(module_figures(res.rows@)),
        },
{
    let pats: [Option<&str>; 1] = [module_pattern];
    assert(pattern_views(pats@) =~= seq![opt_str_view(module_pattern)]);
    match validate_regex_patterns(use_regex, &pats) {
        Err(p) => {
            return Err(HotspotsError::InvalidRegex { pattern: p });
        },
        Ok(()) => {},
    }
    let mut query = String::new();
    query.append(r#"
        SELECT module_name, math::sum(end_line - start_line + 1) as loc
        FROM clauses
        "#);
    query.append(module_clause_of(module_pattern, use_regex));
    query.append(r#"
        GROUP BY module_name
        ORDER BY loc DESC
        "#);
    assert(query@ =~= module_loc_query_text(opt_str_view(module_pattern), use_regex));
    let params = module_params_of(module_pattern);
    let ghost gp = params;
    match db.execute_query(query.as_str(), params) {
        Ok(res) => {
            let figures = decode_figures(&res.rows);
            let table = collect_figures(&figures);
            assert(db.answers(query@, gp, Ok(res)));
            Ok(table)
        },
        Err(e) => {
            let ghost ge = e;
            let message = e.to_string();
            assert(db.answers(query@, gp, Err(ge)));
            Err(HotspotsError::QueryFailed { message })
        },
    }
}
/// Get the number of distinct functions per module, each module once (as a
/// map: a later row for a module replaces an earlier one).
pub fn get_function_counts<D: Database + ?Sized>(
    db: &D,
    _project: &str,
    module_pattern: Option<&str>,
    use_regex: bool,
) -> (r: Result<Vec<(String, i64)>, HotspotsError>)
    ensures
        match r {
            Err(HotspotsError::InvalidRegex { pattern: bad }) => first_invalid_pattern(use_regex, seq![opt_str_view(module_pattern)]) == Some(bad@),
            Err(HotspotsError::QueryFailed { message }) => first_invalid_pattern(use_regex, seq![opt_str_view(module_pattern)]) is None
                && exists|p: QueryParams, e: DbError| p.binds_exactly(module_params(opt_str_view(module_pattern)))
                    && #[trigger] db.answers(function_counts_query_text(opt_str_view(module_pattern), use_regex), p, Err(e)) && message@ == e.message(),
            Ok(v) => first_invalid_pattern(use_regex, seq![opt_str_view(module_pattern)]) is None
                && exists|p: QueryParams, res: QueryResult| p.binds_exactly(module_params(opt_str_view(module_pattern)))
                    && #[trigger] db.answers(function_counts_query_text(opt_str_view(module_pattern), use_regex), p, Ok(res))
                    && names_distinct(figure_views(v@))
                    && figures_map(figure_views(v@)) == figures_map(module_figures(res.rows@)),
        },
{
    let pats: [Option<&str>; 1] = [module_pattern];
    assert(pattern_views(pats@) =~= seq![opt_str_view(module_pattern)]);
    match validate_regex_patterns(use_regex, &pats) {
        Err(p) => {
            return Err(HotspotsError::InvalidRegex { pattern: p });
        },
        Ok(()) => {},
    }
    let mut query = String::new();
    query.append(r#"
        SELECT module_name, count() as function_count
        FROM (
            SELECT module_name, function_name, arity
            FROM clauses
            "#);
    query.append(module_clause_of(module_pattern, use_regex));
    query.append(r#"
            GROUP BY module_name, function_name, arity
        )
        GROUP BY module_name
        ORDER BY function_count DESC
        "#);
    assert(query@ =~= function_counts_query_text(opt_str_view(module_pattern), use_regex));
    let params = module_params_of(module_pattern);
    let ghost gp = params;
    match db.execute_query(query.as_str(), params) {
        Ok(res) => {
            let figures = decode_figures(&res.rows);
            let table = collect_figures(&figures);
            assert(db.answers(query@, gp, Ok(res)));
            Ok(table)
        },
        Err(e) => {
            let ghost ge = e;
            let message = e.to_string();
            assert(db.answers(query@, gp, Err(ge)));
            Err(HotspotsError::QueryFailed { message })
        },
    }
}


/// The columns of the query's answer, as SurrealDB gives them: the names
/// the query selects, in alphabetical order.
pub open spec fn module_loc_columns() -> Seq<Seq<char>> {
    seq!["loc"@, "module_name"@]
}

proof fn lemma_module_loc_columns_distinct()
    ensures
        distinct_names(module_loc_columns()),
{
    let c = module_loc_columns();
    reveal_strlit("loc");
    reveal_strlit("module_name");
    assert(c[0] == "loc"@);
    assert(c[1] == "module_name"@);
    assert(c[0].len() != c[1].len());
    assert(c[0] != c[1]);
    assert forall|i: int, j: int| 0 <= i < c.len() && 0 <= j < c.len() && i != j implies #[trigger] c[i] != #[trigger] c[j] by {
        assert(i == 0 || i == 1);
        assert(j == 0 || j == 1);
    }
}

/// Each part of what a row of the answer gives is the value in the column
/// of its name; a row gives one exactly when it has every column and text
/// in the columns `module_name`.
pub proof fn lemma_module_figure_loc_named_columns(row: Seq<Value>)
    ensures
        module_figure(row) is Some <==> (row.len() >= module_loc_columns().len() && text_at_column(module_loc_columns(), row, "module_name"@)),
        module_figure(row) matches Some(m) ==> {
            &&& text_in_column(module_loc_columns(), row, "module_name"@, m.0, ""@)
            &&& int_in_column(module_loc_columns(), row, "loc"@, m.1, 0)
        },
{
    lemma_module_loc_columns_distinct();
    let c = module_loc_columns();
    assert(c[0] == "loc"@);
    lemma_named_cell(c, row, 0);
    assert(c[1] == "module_name"@);
    lemma_named_cell(c, row, 1);
}

/// The columns of the query's answer, as SurrealDB gives them: the names
/// the query selects, in alphabetical order.
pub open spec fn function_counts_columns() -> Seq<Seq<char>> {
    seq!["function_count"@, "module_name"@]
}

proof fn lemma_function_counts_columns_distinct()
    ensures
        distinct_names(function_counts_columns()),
{
    let c = function_counts_columns();
    reveal_strlit("function_count");
    reveal_strlit("module_name");
    assert(c[0] == "function_count"@);
    assert(c[1] == "module_name"@);
    assert(c[0].len() != c[1].len());
    assert(c[0] != c[1]);
    assert forall|i: int, j: int| 0 <= i < c.len() && 0 <= j < c.len() && i != j implies #[trigger] c[i] != #[trigger] c[j] by {
        assert(i == 0 || i == 1);
        assert(j == 0 || j == 1);
    }
}

/// Each part of what a row of the answer gives is the value in the column
/// of its name; a row gives one exactly when it has every column and text
/// in the columns `module_name`.
pub proof fn lemma_module_figure_count_named_columns(row: Seq<Value>)
    ensures
        module_figure(row) is Some <==> (row.len() >= function_counts_columns().len() && text_at_column(function_counts_columns(), row, "module_name"@)),
        module_figure(row) matches Some(m) ==> {
            &&& text_in_column(function_counts_columns(), row, "module_name"@, m.0, ""@)
            &&& int_in_column(function_counts_columns(), row, "function_count"@, m.1, 0)
        },
{
    lemma_function_counts_columns_distinct();
    let c = function_counts_columns();
    assert(c[0] == "function_count"@);
    lemma_named_cell(c, row, 0);
    assert(c[1] == "module_name"@);
    lemma_named_cell(c, row, 1);
}

/// The columns of the query's answer, as SurrealDB gives them: the names
/// the query selects, in alphabetical order.
pub open spec fn incoming_counts_columns() -> Seq<Seq<char>> {
    seq!["cnt"@, "out"@]
}

proof fn lemma_incoming_counts_columns_distinct()
    ensures
        distinct_names(incoming_counts_columns()),
{
    let c = incoming_counts_columns();
    reveal_strlit("cnt");
    reveal_strlit("out");
    assert(c[0] == "cnt"@);
    assert(c[1] == "out"@);
    assert(c[0][0] != c[1][0]);
    assert(c[0] != c[1]);
    assert forall|i: int, j: int| 0 <= i < c.len() && 0 <= j < c.len() && i != j implies #[trigger] c[i] != #[trigger] c[j] by {
        assert(i == 0 || i == 1);
        assert(j == 0 || j == 1);
    }
}

/// A count read from a row of the incoming counts is the number in the `cnt`
/// column, for the called function the `out` column refers to.
pub proof fn lemma_incoming_count_named_columns(row: Seq<Value>)
    ensures
        count_entry(row) matches Some(e) ==> {
            &&& int_in_column(incoming_counts_columns(), row, "cnt"@, e.2, 0)
            &&& forall|i: int| 0 <= i < incoming_counts_columns().len() && #[trigger] incoming_counts_columns()[i] == "out"@ ==> function_key(row[i]) == Some((e.0, e.1))
        },
{
    lemma_incoming_counts_columns_distinct();
    let c = incoming_counts_columns();
    assert(c[0] == "cnt"@);
    lemma_named_cell(c, row, 0);
    assert(c[1] == "out"@);
    assert(c[0] != c[1]);
}

/// The columns of the query's answer, as SurrealDB gives them: the names
/// the query selects, in alphabetical order.
pub open spec fn outgoing_counts_columns() -> Seq<Seq<char>> {
    seq!["cnt"@, "in"@]
}

proof fn lemma_outgoing_counts_columns_distinct()
    ensures
        distinct_names(outgoing_counts_columns()),
{
    let c = outgoing_counts_columns();
    reveal_strlit("cnt");
    reveal_strlit("in");
    assert(c[0] == "cnt"@);
    assert(c[1] == "in"@);
    assert(c[0].len() != c[1].len());
    assert(c[0] != c[1]);
    assert forall|i: int, j: int| 0 <= i < c.len() && 0 <= j < c.len() && i != j implies #[trigger] c[i] != #[trigger] c[j] by {
        assert(i == 0 || i == 1);
        assert(j == 0 || j == 1);
    }
}

/// A count read from a row of the outgoing counts is the number in the `cnt`
/// column, for the calling function the `in` column refers to.
pub proof fn lemma_outgoing_count_named_columns(row: Seq<Value>)
    ensures
        count_entry(row) matches Some(e) ==> {
            &&& int_in_column(outgoing_counts_columns(), row, "cnt"@, e.2, 0)
            &&& forall|i: int| 0 <= i < outgoing_counts_columns().len() && #[trigger] outgoing_counts_columns()[i] == "in"@ ==> function_key(row[i]) == Some((e.0, e.1))
        },
{
    lemma_outgoing_counts_columns_distinct();
    let c = outgoing_counts_columns();
    assert(c[0] == "cnt"@);
    lemma_named_cell(c, row, 0);
    assert(c[1] == "in"@);
    assert(c[0] != c[1]);
}

/// Each hotspot comes from a row of the function listing: its module is the
/// text in the listing's first `module` column and its function the text in
/// its first `function` column, and its incoming and outgoing counts are
/// those recorded for that function.
pub proof fn lemma_hotspot_candidates_named_columns(
    functions: QueryResult,
    incoming: Seq<(Seq<char>, Seq<char>, i64)>,
    outgoing: Seq<(Seq<char>, Seq<char>, i64)>,
    require_outgoing: bool,
    module_pattern: Option<Seq<char>>,
    use_regex: bool,
)
    ensures
        forall|h: HotspotView| #[trigger] hotspot_candidates(functions, incoming, outgoing, require_outgoing, module_pattern, use_regex).contains(h) ==> {
            &&& h.incoming == count_for(incoming, h.module, h.function)
            &&& h.outgoing == count_for(outgoing, h.module, h.function)
            &&& exists|r: Row| #[trigger] functions.rows@.contains(r) && forall|i: int| #[trigger] first_of_its_name(string_views(functions.headers@), i) ==> {
                &&& string_views(functions.headers@)[i] == "module"@ ==> cell_text(r.values@, i) == Some(h.module)
                &&& string_views(functions.headers@)[i] == "function"@ ==> cell_text(r.values@, i) == Some(h.function)
            }
        },
{
    let hs = string_views(functions.headers@);
    assert forall|h: HotspotView| #[trigger] hotspot_candidates(functions, incoming, outgoing, require_outgoing, module_pattern, use_regex).contains(h) implies {
        &&& h.incoming == count_for(incoming, h.module, h.function)
        &&& h.outgoing == count_for(outgoing, h.module, h.function)
        &&& exists|r: Row| #[trigger] functions.rows@.contains(r) && forall|i: int| #[trigger] first_of_its_name(hs, i) ==> {
            &&& hs[i] == "module"@ ==> cell_text(r.values@, i) == Some(h.module)
            &&& hs[i] == "function"@ ==> cell_text(r.values@, i) == Some(h.function)
        }
    } by {
        match (first_position(hs, "module"@), first_position(hs, "function"@)) {
            (Some(mi), Some(fi)) => {
                let f = |r: Row| hotspot_of_row(r.values@, mi, fi, incoming, outgoing, require_outgoing, module_pattern, use_regex);
                assert(hotspot_candidates(functions, incoming, outgoing, require_outgoing, module_pattern, use_regex) == functions.rows@.filter_map(f));
                functions.rows@.lemma_filter_map_contains(f, h);
                let r = choose|r: Row| #[trigger] functions.rows@.contains(r) && f(r) == Some(h);
                assert forall|i: int| #[trigger] first_of_its_name(hs, i) implies {
                    &&& hs[i] == "module"@ ==> cell_text(r.values@, i) == Some(h.module)
                    &&& hs[i] == "function"@ ==> cell_text(r.values@, i) == Some(h.function)
                } by {
                    if hs[i] == "module"@ {
                        lemma_first_position_is_first(hs, "module"@, i);
                    }
                    if hs[i] == "function"@ {
                        lemma_first_position_is_first(hs, "function"@, i);
                    }
                }
            },
            _ => {},
        }
    }
}

/// A reference to a function record, whose id is `[module, name, arity]`,
/// reads as that module and name.
pub proof fn lemma_function_key_of_id(parts: Vec<Value>, m: String, f: String)
    requires
        parts@.len() >= 2,
        parts@[0] == Value::Str(m),
        parts@[1] == Value::Str(f),
    ensures
        function_key(Value::Thing(Box::new(Value::Array(parts)))) == Some((m@, f@)),
{
}

/// Incoming hotspots rank by the calls a function receives, outgoing ones by
/// the calls it makes, total ones by their sum.
pub proof fn lemma_score_by_kind(h: HotspotView)
    ensures
        score(h, HotspotKind::Incoming) == h.incoming,
        score(h, HotspotKind::Outgoing) == h.outgoing,
        score(h, HotspotKind::Total) == h.total,
{
}

/// A hotspot's total is its incoming plus its outgoing calls (when the sum
/// fits in an `i64`).
pub proof fn lemma_hotspot_total_is_sum(
    functions: QueryResult,
    incoming: Seq<(Seq<char>, Seq<char>, i64)>,
    outgoing: Seq<(Seq<char>, Seq<char>, i64)>,
    require_outgoing: bool,
    module_pattern: Option<Seq<char>>,
    use_regex: bool,
)
    ensures
        forall|h: HotspotView| #[trigger] hotspot_candidates(functions, incoming, outgoing, require_outgoing, module_pattern, use_regex).contains(h)
            && i64::MIN <= h.incoming + h.outgoing <= i64::MAX ==> h.total == h.incoming + h.outgoing,
{
    let hs = string_views(functions.headers@);
    assert forall|h: HotspotView| #[trigger] hotspot_candidates(functions, incoming, outgoing, require_outgoing, module_pattern, use_regex).contains(h)
        && i64::MIN <= h.incoming + h.outgoing <= i64::MAX implies h.total == h.incoming + h.outgoing by {
        match (first_position(hs, "module"@), first_position(hs, "function"@)) {
            (Some(mi), Some(fi)) => {
                let f = |r: Row| hotspot_of_row(r.values@, mi, fi, incoming, outgoing, require_outgoing, module_pattern, use_regex);
                assert(hotspot_candidates(functions, incoming, outgoing, require_outgoing, module_pattern, use_regex) == functions.rows@.filter_map(f));
                functions.rows@.lemma_filter_map_contains(f, h);
            },
            _ => {},
        }
    }
}

/// The columns are in ascending order of their names, as SurrealDB gives them.
pub proof fn lemma_module_loc_columns_ascending()
    ensures
        names_ascending(module_loc_columns()),
{
    let c = module_loc_columns();
    reveal_strlit("loc");
    reveal_strlit("module_name");
    assert(c[0] == "loc"@ && c[1] == "module_name"@);
    assert((c[0][0] as int) < (c[1][0] as int));
    lemma_lex_less(c[0], c[1], 0);
    assert forall|k: int| 0 <= k < c.len() - 1 implies lex_order(#[trigger] c[k], c[k + 1]) < 0 by {
        assert(k == 0);
    }
    lemma_names_ascending_from_adjacent(c);
}

/// The columns are in ascending order of their names, as SurrealDB gives them.
pub proof fn lemma_function_counts_columns_ascending()
    ensures
        names_ascending(function_counts_columns()),
{
    let c = function_counts_columns();
    reveal_strlit("function_count");
    reveal_strlit("module_name");
    assert(c[0] == "function_count"@ && c[1] == "module_name"@);
    assert((c[0][0] as int) < (c[1][0] as int));
    lemma_lex_less(c[0], c[1], 0);
    assert forall|k: int| 0 <= k < c.len() - 1 implies lex_order(#[trigger] c[k], c[k + 1]) < 0 by {
        assert(k == 0);
    }
    lemma_names_ascending_from_adjacent(c);
}

/// The columns are in ascending order of their names, as SurrealDB gives them.
pub proof fn lemma_incoming_counts_columns_ascending()
    ensures
        names_ascending(incoming_counts_columns()),
{
    let c = incoming_counts_columns();
    reveal_strlit("cnt");
    reveal_strlit("out");
    assert(c[0] == "cnt"@ && c[1] == "out"@);
    assert((c[0][0] as int) < (c[1][0] as int));
    lemma_lex_less(c[0], c[1], 0);
    assert forall|k: int| 0 <= k < c.len() - 1 implies lex_order(#[trigger] c[k], c[k + 1]) < 0 by {
        assert(k == 0);
    }
    lemma_names_ascending_from_adjacent(c);
}

/// The columns are in ascending order of their names, as SurrealDB gives them.
pub proof fn lemma_outgoing_counts_columns_ascending()
    ensures
        names_ascending(outgoing_counts_columns()),
{
    let c = outgoing_counts_columns();
    reveal_strlit("cnt");
    reveal_strlit("in");
    assert(c[0] == "cnt"@ && c[1] == "in"@);
    assert((c[0][0] as int) < (c[1][0] as int));
    lemma_lex_less(c[0], c[1], 0);
    assert forall|k: int| 0 <= k < c.len() - 1 implies lex_order(#[trigger] c[k], c[k + 1]) < 0 by {
        assert(k == 0);
    }
    lemma_names_ascending_from_adjacent(c);
}

} // verus!
