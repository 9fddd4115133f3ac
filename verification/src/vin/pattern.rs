//! Matching VIN keys against vPIC patterns: the `LIKE` dialect of the
//! vPIC database (`_` one character, `%` the rest, `[...]` and `[^...]`
//! character classes with `a-z` ranges), and the choice of the first
//! pattern row that matches.
use vstd::prelude::*;

use crate::chars::chars_of;
use crate::text::{str_eq, string_push};
use crate::vin::element_ids::{element_id_value, ElementId};
use crate::vin::parser::Error;

verus! {

/// Where a character class that starts at `j` (after `[` and any `^`) ends:
/// the position after its `]`, or the end of the pattern. A `-` between two
/// characters makes a range, so a `]` that ends a range does not close the
/// class.
pub open spec fn class_end(pat: Seq<char>, j: int) -> int
    decreases pat.len() - j,
{
    if j >= pat.len() {
        pat.len() as int
    } else if pat[j] == ']' {
        j + 1
    } else if j + 1 < pat.len() && pat[j + 1] == '-' {
        if j + 2 < pat.len() {
            class_end(pat, j + 3)
        } else {
            pat.len() as int
        }
    } else {
        class_end(pat, j + 1)
    }
}

/// The character class that starts at `j` holds `c`: one of its
/// characters is `c`, or one of its ranges `a-b` has `a <= c <= b`. A `-`
/// with nothing after it adds nothing.
pub open spec fn class_has(pat: Seq<char>, j: int, c: char) -> bool
    decreases pat.len() - j,
{
    if j >= pat.len() {
        false
    } else if pat[j] == ']' {
        false
    } else if j + 1 < pat.len() && pat[j + 1] == '-' {
        if j + 2 < pat.len() {
            (pat[j] <= c && c <= pat[j + 2]) || class_has(pat, j + 3, c)
        } else {
            false
        }
    } else {
        pat[j] == c || class_has(pat, j + 1, c)
    }
}

/// A class that starts inside the pattern ends after its start and inside it.
pub proof fn lemma_class_end_bounds(pat: Seq<char>, j: int)
    requires
        0 <= j <= pat.len(),
    ensures
        j <= class_end(pat, j) <= pat.len(),
        j < pat.len() ==> j < class_end(pat, j),
    decreases pat.len() - j,
{
    if j < pat.len() && pat[j] != ']' {
        if j + 1 < pat.len() && pat[j + 1] == '-' {
            if j + 2 < pat.len() {
                lemma_class_end_bounds(pat, j + 3);
            }
        } else {
            lemma_class_end_bounds(pat, j + 1);
        }
    }
}

/// The class that `[` at `j` opens is negated: `^` follows the `[`.
pub open spec fn class_negated(pat: Seq<char>, j: int) -> bool {
    j + 1 < pat.len() && pat[j + 1] == '^'
}

/// Where the members of the class that `[` at `j` opens start.
pub open spec fn class_start(pat: Seq<char>, j: int) -> int {
    if class_negated(pat, j) {
        j + 2
    } else {
        j + 1
    }
}

/// The key from position `i` on matches the pattern from position `j` on:
/// `_` takes any one character, `%` matches whatever remains, a class takes
/// one character that it holds (or, negated, does not hold), any other
/// character takes itself; the key must be used up when the pattern is.
pub open spec fn like_at(key: Seq<char>, pat: Seq<char>, i: int, j: int) -> bool
    decreases pat.len() - j,
{
    if j < 0 || j >= pat.len() {
        i >= key.len()
    } else if pat[j] == '_' {
        i < key.len() && like_at(key, pat, i + 1, j + 1)
    } else if pat[j] == '%' {
        true
    } else if pat[j] == '[' {
        let start = class_start(pat, j);
        let next = class_end(pat, start);
        proof {
            lemma_class_end_bounds(pat, start);
        }
        &&& i < key.len()
        &&& class_has(pat, start, key[i]) != class_negated(pat, j)
        &&& like_at(key, pat, i + 1, next)
    } else {
        i < key.len() && key[i] == pat[j] && like_at(key, pat, i + 1, j + 1)
    }
}

/// The whole key matches the whole pattern.
pub open spec fn like_match(key: Seq<char>, pat: Seq<char>) -> bool {
    like_at(key, pat, 0, 0)
}

/// A pattern as the vPIC `Keys` column stores it, turned into `LIKE` form:
/// each `*` becomes `_`, and `%` is appended.
pub open spec fn sql_like(pattern: Seq<char>) -> Seq<char> {
    pattern.map_values(|c: char| if c == '*' { '_' } else { c }).push('%')
}

/// No character of the text has a meaning of its own in a pattern.
pub open spec fn plain_text(p: Seq<char>) -> bool {
    forall|k: int| 0 <= k < p.len() ==> p[k] != '_' && p[k] != '%' && p[k] != '[' && p[k] != '*'
}

proof fn lemma_plain_prefix_at(key: Seq<char>, p: Seq<char>, i: int)
    requires
        plain_text(p),
        0 <= i <= p.len(),
        i <= key.len(),
    ensures
        like_at(key, sql_like(p), i, i) <==> (p.len() <= key.len() && forall|k: int|
            i <= k < p.len() ==> key[k] == p[k]),
    decreases p.len() - i,
{
    let pat = sql_like(p);
    assert(pat.len() == p.len() + 1);
    if i == p.len() {
        assert(pat[i] == '%');
    } else {
        assert(pat[i] == p[i]);
        if i < key.len() {
            lemma_plain_prefix_at(key, p, i + 1);
        }
    }
}

/// A vPIC pattern without wildcards matches exactly the keys that start
/// with it.
pub proof fn lemma_plain_pattern_is_prefix(key: Seq<char>, p: Seq<char>)
    requires
        plain_text(p),
    ensures
        key_matches(key, p) <==> (p.len() <= key.len() && key.subrange(0, p.len() as int) == p),
{
    lemma_plain_prefix_at(key, p, 0);
    if p.len() <= key.len() {
        if key.subrange(0, p.len() as int) == p {
            assert forall|k: int| 0 <= k < p.len() implies key[k] == p[k] by {
                assert(key.subrange(0, p.len() as int)[k] == key[k]);
            }
        }
        if forall|k: int| 0 <= k < p.len() ==> key[k] == p[k] {
            assert(key.subrange(0, p.len() as int) =~= p);
        }
    }
}

/// A range `a-b` in a class holds every character from `a` to `b`, both
/// ends included, and nothing else.
pub proof fn lemma_class_range_inclusive(a: char, b: char, c: char)
    requires
        a != ']',
    ensures
        class_has(seq![a, '-', b, ']'], 0, c) <==> (a <= c && c <= b),
{
    let pat = seq![a, '-', b, ']'];
    assert(pat[0] == a && pat[1] == '-' && pat[2] == b && pat[3] == ']');
    assert(!class_has(pat, 3, c));
}

/// A one-character key matches the class `[a-b]` exactly when the
/// character lies between `a` and `b`, both included, and the negated
/// class `[^a-b]` exactly when it does not.
pub proof fn lemma_range_class_match(a: char, b: char, c: char)
    requires
        a != ']',
        a != '^',
    ensures
        like_match(seq![c], seq!['[', a, '-', b, ']']) <==> (a <= c && c <= b),
        like_match(seq![c], seq!['[', '^', a, '-', b, ']']) <==> !(a <= c && c <= b),
{
    let key = seq![c];
    let p1 = seq!['[', a, '-', b, ']'];
    assert(p1[0] == '[' && p1[1] == a && p1[2] == '-' && p1[3] == b && p1[4] == ']');
    assert(!class_negated(p1, 0));
    assert(class_end(p1, 4) == 5);
    assert(class_end(p1, 1) == 5);
    assert(!class_has(p1, 4, c));
    assert(class_has(p1, 1, c) <==> (a <= c && c <= b));
    assert(like_at(key, p1, 1, 5));
    assert(like_match(key, p1) == class_has(p1, 1, c));
    let p2 = seq!['[', '^', a, '-', b, ']'];
    assert(p2[0] == '[' && p2[1] == '^' && p2[2] == a && p2[3] == '-' && p2[4] == b && p2[5] == ']');
    assert(class_negated(p2, 0));
    assert(class_end(p2, 5) == 6);
    assert(class_end(p2, 2) == 6);
    assert(!class_has(p2, 5, c));
    assert(class_has(p2, 2, c) <==> (a <= c && c <= b));
    assert(like_at(key, p2, 1, 6));
    assert(like_match(key, p2) == !class_has(p2, 2, c));
}

/// Scans the class that starts at `j`: whether it holds `c`, and where it ends.
fn scan_class(pat: &Vec<char>, j: usize, c: char) -> (res: (bool, usize))
    requires
        j <= pat@.len(),
    ensures
        res.0 == class_has(pat@, j as int, c),
        res.1 == class_end(pat@, j as int),
    decreases pat@.len() - j,
{
    let n = pat.len();
    if j >= n {
        (false, n)
    } else if pat[j] == ']' {
        (false, j + 1)
    } else if j + 1 < n && pat[j + 1] == '-' {
        if j + 2 < n {
            let (has, end) = scan_class(pat, j + 3, c);
            ((pat[j] <= c && c <= pat[j + 2]) || has, end)
        } else {
            (false, n)
        }
    } else {
        let (has, end) = scan_class(pat, j + 1, c);
        (pat[j] == c || has, end)
    }
}

/// Whether the key matches the `LIKE` pattern (see [`like_match`]).
pub fn match_pattern(key: &str, pattern: &str) -> (res: bool)
    ensures
        res == like_match(key@, pattern@),
{
    let k = chars_of(key);
    let p = chars_of(pattern);
    let klen = k.len();
    let plen = p.len();
    let mut i: usize = 0;
    let mut j: usize = 0;
    while j < plen
        invariant
            k@ == key@,
            p@ == pattern@,
            klen == k@.len(),
            plen == p@.len(),
            i <= klen,
            j <= plen,
            like_match(key@, pattern@) == like_at(k@, p@, i as int, j as int),
        decreases plen - j,
    {
        let pc = p[j];
        if pc == '_' {
            if i >= klen {
                return false;
            }
            i = i + 1;
            j = j + 1;
        } else if pc == '%' {
            return true;
        } else if pc == '[' {
            let negated = j + 1 < plen && p[j + 1] == '^';
            let start = if negated {
                j + 2
            } else {
                j + 1
            };
            if i >= klen {
                return false;
            }
            let (has, next) = scan_class(&p, start, k[i]);
            proof {
                lemma_class_end_bounds(p@, start as int);
            }
            if has == negated {
                return false;
            }
            i = i + 1;
            j = next;
        } else {
            if i >= klen || k[i] != pc {
                return false;
            }
            i = i + 1;
            j = j + 1;
        }
    }
    i >= klen
}

/// The `LIKE` form of a vPIC pattern (see [`sql_like`]).
pub fn to_sql_like(pattern: &str) -> (res: String)
    ensures
        res@ == sql_like(pattern@),
{
    let n = pattern.unicode_len();
    let mut out = String::new();
    let mut i: usize = 0;
    while i < n
        invariant
            n == pattern@.len(),
            i <= n,
            out@ == pattern@.subrange(0, i as int).map_values(
                |c: char| if c == '*' { '_' } else { c },
            ),
        decreases n - i,
    {
        let c = pattern.get_char(i);
        let d = if c == '*' {
            '_'
        } else {
            c
        };
        string_push(&mut out, d);
        proof {
            assert(pattern@.subrange(0, i + 1) =~= pattern@.subrange(0, i as int).push(c));
        }
        i = i + 1;
        assert(out@ =~= pattern@.subrange(0, i as int).map_values(
            |c: char| if c == '*' { '_' } else { c },
        ));
    }
    string_push(&mut out, '%');
    assert(pattern@.subrange(0, n as int) =~= pattern@);
    out
}

/// The key matches the vPIC pattern once it is in `LIKE` form.
pub open spec fn key_matches(key: Seq<char>, pattern: Seq<char>) -> bool {
    like_match(key, sql_like(pattern))
}

/// The first of the patterns that the key matches (see [`key_matches`]).
pub open spec fn first_match_from(key: Seq<char>, patterns: Seq<Seq<char>>, i: int) -> Option<int>
    decreases patterns.len() - i,
{
    if i < 0 || i >= patterns.len() {
        None
    } else if key_matches(key, patterns[i]) {
        Some(i)
    } else {
        first_match_from(key, patterns, i + 1)
    }
}

/// The views of some strings.
pub open spec fn string_views(v: Seq<String>) -> Seq<Seq<char>> {
    v.map_values(|s: String| s@)
}

/// The index of the first pattern row whose `Keys` the key matches, as the
/// rows of the `Pattern` table are scanned for an element.
pub fn first_matching_pattern(key: &str, patterns: &Vec<String>) -> (res: Option<usize>)
    ensures
        match first_match_from(key@, string_views(patterns@), 0) {
            Some(k) => res == Some(k as usize),
            None => res is None,
        },
{
    let n = patterns.len();
    let ghost views = string_views(patterns@);
    let mut i: usize = 0;
    while i < n
        invariant
            n == patterns@.len(),
            views == string_views(patterns@),
            i <= n,
            first_match_from(key@, views, 0) == first_match_from(key@, views, i as int),
        decreases n - i,
    {
        let like = to_sql_like(patterns[i].as_str());
        if match_pattern(key, like.as_str()) {
            return Some(i);
        }
        i = i + 1;
    }
    None
}


/// A vehicle spec pattern that the VIN's spec schema offers, with what is
/// needed to tell whether it describes this vehicle: the attribute of its
/// key element, and the attribute that the VIN's own pattern gives for that
/// element (each `None` where the database has none).
#[derive(Debug)]
pub struct VSpecCandidate {
    /// The `Id` of the `VSpecSchemaPattern` row.
    pub pattern_id: i64,
    /// The `AttributeId` of the pattern's key element.
    pub key_attribute: Option<String>,
    /// The `AttributeId` that the VIN's pattern gives for the key element.
    pub matched_attribute: Option<String>,
}

/// The candidate describes this vehicle: its key attribute is the one the
/// VIN's pattern gives.
pub open spec fn candidate_fits(c: VSpecCandidate) -> bool {
    match (c.key_attribute, c.matched_attribute) {
        (Some(k), Some(m)) => k@ == m@,
        _ => false,
    }
}

/// The first fitting candidate from `i` on.
pub open spec fn first_fitting(cs: Seq<VSpecCandidate>, i: int) -> Option<int>
    decreases cs.len() - i,
{
    if i < 0 || i >= cs.len() {
        None
    } else if candidate_fits(cs[i]) {
        Some(i)
    } else {
        first_fitting(cs, i + 1)
    }
}

/// The message of the error for a spec schema without patterns.
pub open spec fn no_vspec_patterns_msg() -> &'static str {
    "get_vspec_pattern_id"
}

/// The vehicle spec pattern of a VIN: no results when the spec schema has
/// no patterns; the only candidate when there is one; otherwise the first
/// that fits (see [`candidate_fits`]); an error when none fits, or when the
/// id chosen is -1 (which stands for none).
pub open spec fn vspec_pattern_choice(cs: Seq<VSpecCandidate>) -> Result<i64, Error> {
    let id = if cs.len() == 1 {
        cs[0].pattern_id
    } else {
        match first_fitting(cs, 0) {
            Some(i) => cs[i].pattern_id,
            None => -1i64,
        }
    };
    if cs.len() == 0 {
        Err(Error::NoResultsFound(no_vspec_patterns_msg()))
    } else if id == -1 {
        Err(Error::InvalidVSpecPatternId)
    } else {
        Ok(id)
    }
}

/// Whether the candidate fits (see [`candidate_fits`]).
fn fits(c: &VSpecCandidate) -> (res: bool)
    ensures
        res == candidate_fits(*c),
{
    match (&c.key_attribute, &c.matched_attribute) {
        (Some(k), Some(m)) => str_eq(k.as_str(), m.as_str()),
        _ => false,
    }
}

/// The element that a key element id of a vehicle spec pattern names: the
/// id is taken as a 16-bit number.
pub fn key_element(key_element_id: i64) -> (res: Option<ElementId>)
    ensures
        res matches Some(e) ==> element_id_value(e) == (key_element_id as u16),
        res is None ==> forall|e: ElementId| element_id_value(e) != (key_element_id as u16),
{
    ElementId::try_from_u16(key_element_id as u16)
}

/// The vehicle spec pattern among the candidates (see
/// [`vspec_pattern_choice`]).
pub fn vspec_pattern_id_from(candidates: &Vec<VSpecCandidate>) -> (res: Result<i64, Error>)
    ensures
        res == vspec_pattern_choice(candidates@),
{
    let n = candidates.len();
    if n == 0 {
        return Err(Error::NoResultsFound("get_vspec_pattern_id"));
    }
    if n == 1 {
        let id = candidates[0].pattern_id;
        return if id == -1 {
            Err(Error::InvalidVSpecPatternId)
        } else {
            Ok(id)
        };
    }
    let mut i: usize = 0;
    while i < n
        invariant
            n == candidates@.len(),
            n != 1,
            i <= n,
            first_fitting(candidates@, 0) == first_fitting(candidates@, i as int),
        decreases n - i,
    {
        if fits(&candidates[i]) {
            let id = candidates[i].pattern_id;
            return if id == -1 {
                Err(Error::InvalidVSpecPatternId)
            } else {
                Ok(id)
            };
        }
        i = i + 1;
    }
    Err(Error::InvalidVSpecPatternId)
}

} // verus!
