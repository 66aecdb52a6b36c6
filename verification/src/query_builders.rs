//! Checking of the patterns a query filters by: when a query matches by
//! regular expression, every pattern it is given must compile.

use vstd::prelude::*;

verus! {

/// Whether `regex::Regex::new` accepts `pattern`.
pub uninterp spec fn regex_compiles(pattern: Seq<char>) -> bool;

/// Whether the compiled `pattern` finds a match in `text` (`Regex::is_match`).
pub uninterp spec fn regex_finds(pattern: Seq<char>, text: Seq<char>) -> bool;

/// Calls `regex::Regex::new(pattern)` and reports whether it succeeded; the
/// contract only names that outcome, which depends on the pattern alone.
#[verifier::external_body]
fn regex_new_succeeds(pattern: &str) -> (r: bool)
    ensures
        r == regex_compiles(pattern@),
{
    regex::Regex::new(pattern).is_ok()
}

/// Compiles `pattern` with `regex::Regex::new` and calls `is_match` on
/// `text`; the contract names the outcome, a function of the pattern and the
/// text alone.
#[verifier::external_body]
pub(crate) fn regex_is_match(pattern: &str, text: &str) -> (r: bool)
    requires
        regex_compiles(pattern@),
    ensures
        r == regex_finds(pattern@, text@),
{
    match regex::Regex::new(pattern) {
        Ok(re) => re.is_match(text),
        Err(_) => false,
    }
}

pub open spec fn opt_str_view(o: Option<&str>) -> Option<Seq<char>> {
    match o {
        Some(s) => Some(s@),
        None => None,
    }
}

/// The first given pattern that does not compile, when regex matching is on.
pub open spec fn first_invalid_pattern(use_regex: bool, patterns: Seq<Option<Seq<char>>>) -> Option<Seq<char>>
    decreases patterns.len(),
{
    if !use_regex || patterns.len() == 0 {
        None
    } else {
        match patterns[0] {
            Some(p) => if !regex_compiles(p) { Some(p) } else { first_invalid_pattern(use_regex, patterns.drop_first()) },
            None => first_invalid_pattern(use_regex, patterns.drop_first()),
        }
    }
}

pub open spec fn pattern_views(patterns: Seq<Option<&str>>) -> Seq<Option<Seq<char>>> {
    patterns.map_values(|o: Option<&str>| opt_str_view(o))
}

/// Validate a single regex pattern (when regex matching is on).
pub fn validate_regex_pattern(use_regex: bool, pattern: &str) -> (r: Result<(), String>)
    ensures
        match r {
            Ok(()) => !use_regex || regex_compiles(pattern@),
            Err(p) => use_regex && !regex_compiles(pattern@) && p@ == pattern@,
        },
{
    if use_regex && !regex_new_succeeds(pattern) {
        Err(pattern.to_owned())
    } else {
        Ok(())
    }
}

/// Validate multiple regex patterns: with regex matching on, every given
/// pattern must compile; the first that does not is reported.
pub fn validate_regex_patterns(use_regex: bool, patterns: &[Option<&str>]) -> (r: Result<(), String>)
    ensures
        match r {
            Ok(()) => first_invalid_pattern(use_regex, pattern_views(patterns@)) is None,
            Err(p) => first_invalid_pattern(use_regex, pattern_views(patterns@)) == Some(p@),
        },
{
    let ghost all = pattern_views(patterns@);
    if !use_regex {
        return Ok(());
    }
    let mut i: usize = 0;
    assert(all.skip(0) =~= all);
    while i < patterns.len()
        invariant
            use_regex,
            all == pattern_views(patterns@),
            i <= patterns@.len(),
            first_invalid_pattern(use_regex, all) == first_invalid_pattern(use_regex, all.skip(i as int)),
        decreases patterns@.len() - i,
    {
        assert(all.skip(i as int)[0] == opt_str_view(patterns@[i as int]));
        assert(all.skip(i as int).drop_first() =~= all.skip(i + 1));
        match patterns[i] {
            Some(p) => {
                if !regex_new_succeeds(p) {
                    return Err(p.to_owned());
                }
            },
            None => {},
        }
        i = i + 1;
    }
    assert(all.skip(i as int).len() == 0);
    Ok(())
}


/// How a CozoDB script matches a field against a parameter: with
/// `regex_matches` in regex mode, by equality otherwise.
pub open spec fn cozo_match(field: Seq<char>, param: Seq<char>, use_regex: bool) -> Seq<char> {
    if use_regex {
        "regex_matches("@ + field + ", $"@ + param + ")"@
    } else {
        field + " == $"@ + param
    }
}

/// The optional module condition of a CozoDB script: a comma and the match
/// of `module` against `$module_pattern` when a pattern is given, else nothing.
pub open spec fn cozo_module_cond(present: bool, use_regex: bool) -> Seq<char> {
    if present { ", "@ + cozo_match("module"@, "module_pattern"@, use_regex) } else { ""@ }
}

/// Appends the match of `field` against `$param`.
pub fn push_cozo_match(s: &mut String, field: &str, param: &str, use_regex: bool)
    ensures
        final(s)@ == old(s)@ + cozo_match(field@, param@, use_regex),
{
    let ghost start = s@;
    if use_regex {
        s.append("regex_matches(");
        s.append(field);
        s.append(", $");
        s.append(param);
        s.append(")");
    } else {
        s.append(field);
        s.append(" == $");
        s.append(param);
    }
    assert(s@ =~= start + cozo_match(field@, param@, use_regex));
}

/// Appends the optional module condition.
pub fn push_cozo_module_cond(s: &mut String, present: bool, use_regex: bool)
    ensures
        final(s)@ == old(s)@ + cozo_module_cond(present, use_regex),
{
    let ghost start = s@;
    if present {
        s.append(", ");
        push_cozo_match(s, "module", "module_pattern", use_regex);
    } else {
        s.append("");
    }
    assert(s@ =~= start + cozo_module_cond(present, use_regex));
}

} // verus!
