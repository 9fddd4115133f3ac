//! Operations on the characters of a text, as `str` offers them: removing
//! every occurrence of a pattern, splitting into lines and into
//! whitespace-separated words, and hexadecimal numbers.
use vstd::prelude::*;

use crate::text::string_push;

verus! {

/// The characters of a string, in a vector.
pub fn chars_of(s: &str) -> (res: Vec<char>)
    ensures
        res@ == s@,
{
    let n = s.unicode_len();
    let mut out: Vec<char> = Vec::new();
    let mut i: usize = 0;
    while i < n
        invariant
            n == s@.len(),
            i <= n,
            out@ == s@.subrange(0, i as int),
        decreases n - i,
    {
        out.push(s.get_char(i));
        i = i + 1;
    }
    out
}

/// A copy of the characters.
pub fn copy_chars(v: &Vec<char>) -> (res: Vec<char>)
    ensures
        res@ == v@,
{
    let mut out: Vec<char> = Vec::new();
    let mut k: usize = 0;
    while k < v.len()
        invariant
            k <= v@.len(),
            out@ == v@.take(k as int),
        decreases v@.len() - k,
    {
        out.push(v[k]);
        assert(v@.take(k + 1) =~= v@.take(k as int).push(v@[k as int]));
        k = k + 1;
    }
    assert(v@.take(v@.len() as int) =~= v@);
    out
}

/// The pattern occurs in `s` at position `i`.
pub open spec fn occurs_at(s: Seq<char>, pat: Seq<char>, i: int) -> bool {
    0 <= i && i + pat.len() <= s.len() && s.subrange(i, i + pat.len()) == pat
}

/// `s` from position `i` on, with each occurrence of a nonempty pattern
/// removed, occurrences found from the left without overlapping (what
/// `str::replace(pat, "")` gives).
pub open spec fn remove_from(s: Seq<char>, pat: Seq<char>, i: int) -> Seq<char>
    decreases s.len() - i,
{
    if i < 0 || i >= s.len() {
        Seq::empty()
    } else if pat.len() > 0 && occurs_at(s, pat, i) {
        remove_from(s, pat, i + pat.len())
    } else {
        seq![s[i]] + remove_from(s, pat, i + 1)
    }
}

/// `s` with each occurrence of a nonempty pattern removed (see
/// [`remove_from`]).
pub open spec fn remove_all(s: Seq<char>, pat: Seq<char>) -> Seq<char> {
    remove_from(s, pat, 0)
}

/// Whether the pattern occurs at position `i`.
fn occurs_at_exec(s: &Vec<char>, pat: &Vec<char>, i: usize) -> (res: bool)
    requires
        i <= s@.len(),
    ensures
        res == occurs_at(s@, pat@, i as int),
{
    let n = pat.len();
    if n > s.len() - i {
        return false;
    }
    let mut k: usize = 0;
    while k < n
        invariant
            n == pat@.len(),
            i + n <= s@.len(),
            s@.len() == s.len(),
            k <= n,
            forall|j: int| 0 <= j < k ==> s@[i + j] == pat@[j],
        decreases n - k,
    {
        if s[i + k] != pat[k] {
            assert(s@.subrange(i as int, i + n)[k as int] != pat@[k as int]);
            return false;
        }
        k = k + 1;
    }
    assert(s@.subrange(i as int, i + n) =~= pat@);
    true
}

/// Removes each occurrence of a nonempty pattern (see [`remove_all`]).
pub fn remove_all_vec(s: &Vec<char>, pat: &Vec<char>) -> (res: Vec<char>)
    requires
        pat@.len() > 0,
    ensures
        res@ == remove_all(s@, pat@),
{
    let n = s.len();
    let mut out: Vec<char> = Vec::new();
    let mut i: usize = 0;
    while i < n
        invariant
            n == s@.len(),
            pat@.len() > 0,
            i <= n,
            remove_all(s@, pat@) == out@ + remove_from(s@, pat@, i as int),
        decreases n - i,
    {
        if occurs_at_exec(s, pat, i) {
            i = i + pat.len();
        } else {
            let ghost before = out@;
            out.push(s[i]);
            assert(before + (seq![s@[i as int]] + remove_from(s@, pat@, i + 1)) =~= out@ + remove_from(
                s@,
                pat@,
                i + 1,
            ));
            i = i + 1;
        }
    }
    assert(out@ + remove_from(s@, pat@, i as int) =~= out@);
    out
}

/// The pieces of `s` between the separators (at least one piece; adjacent
/// separators give an empty piece between them).
pub open spec fn split_at_char(s: Seq<char>, sep: char) -> Seq<Seq<char>>
    decreases s.len(),
{
    if s.len() == 0 {
        seq![Seq::empty()]
    } else {
        let rest = split_at_char(s.drop_last(), sep);
        if s.last() == sep {
            rest.push(Seq::empty())
        } else {
            rest.update(rest.len() - 1, rest.last().push(s.last()))
        }
    }
}

/// `split_at_char` never yields an empty list.
pub proof fn lemma_split_at_char_nonempty(s: Seq<char>, sep: char)
    ensures
        split_at_char(s, sep).len() >= 1,
    decreases s.len(),
{
    if s.len() > 0 {
        lemma_split_at_char_nonempty(s.drop_last(), sep);
    }
}

/// The lines of `s` split at `\n` (what `str::lines` gives on a text
/// without `\r`): the pieces between the newlines, less a last empty one.
pub open spec fn lines_of(s: Seq<char>) -> Seq<Seq<char>> {
    let p = split_at_char(s, '\n');
    if p.last().len() == 0 {
        p.drop_last()
    } else {
        p
    }
}

/// The views of some character vectors.
pub open spec fn char_vec_views(v: Seq<Vec<char>>) -> Seq<Seq<char>> {
    v.map_values(|x: Vec<char>| x@)
}

/// The lines of the characters (see [`lines_of`]).
pub fn lines_vec(s: &Vec<char>) -> (res: Vec<Vec<char>>)
    ensures
        char_vec_views(res@) == lines_of(s@),
{
    let mut done: Vec<Vec<char>> = Vec::new();
    let mut cur: Vec<char> = Vec::new();
    let mut i: usize = 0;
    while i < s.len()
        invariant
            i <= s@.len(),
            split_at_char(s@.take(i as int), '\n') == char_vec_views(done@).push(cur@),
        decreases s@.len() - i,
    {
        proof {
            lemma_split_at_char_nonempty(s@.take(i as int), '\n');
        }
        assert(s@.take(i + 1).drop_last() =~= s@.take(i as int));
        let ghost before = char_vec_views(done@);
        if s[i] == '\n' {
            let piece = cur;
            done.push(piece);
            cur = Vec::new();
            assert(char_vec_views(done@) =~= before.push(piece@));
        } else {
            cur.push(s[i]);
            assert(split_at_char(s@.take(i + 1), '\n') =~= before.push(cur@));
        }
        i = i + 1;
    }
    assert(s@.take(s@.len() as int) =~= s@);
    if cur.len() > 0 {
        done.push(cur);
    }
    proof {
        assert(char_vec_views(done@) =~= lines_of(s@));
    }
    done
}

/// `c` is white space: it has the Unicode `White_Space` property (what
/// `char::is_whitespace` tests).
pub open spec fn is_ws(c: char) -> bool {
    ('\u{9}' <= c && c <= '\u{d}') || c == ' ' || c == '\u{85}' || c == '\u{a0}' || c == '\u{1680}'
        || ('\u{2000}' <= c && c <= '\u{200a}') || c == '\u{2028}' || c == '\u{2029}' || c
        == '\u{202f}' || c == '\u{205f}' || c == '\u{3000}'
}

/// Whether the character is white space (see [`is_ws`]).
pub fn is_whitespace_char(c: char) -> (res: bool)
    ensures
        res == is_ws(c),
{
    ('\u{9}' <= c && c <= '\u{d}') || c == ' ' || c == '\u{85}' || c == '\u{a0}' || c == '\u{1680}'
        || ('\u{2000}' <= c && c <= '\u{200a}') || c == '\u{2028}' || c == '\u{2029}' || c
        == '\u{202f}' || c == '\u{205f}' || c == '\u{3000}'
}

/// The words of `s` read so far: those completed by white space, and the
/// one in progress.
pub open spec fn words_scan(s: Seq<char>) -> (Seq<Seq<char>>, Seq<char>)
    decreases s.len(),
{
    if s.len() == 0 {
        (Seq::empty(), Seq::empty())
    } else {
        let (done, cur) = words_scan(s.drop_last());
        if is_ws(s.last()) {
            if cur.len() > 0 {
                (done.push(cur), Seq::empty())
            } else {
                (done, Seq::empty())
            }
        } else {
            (done, cur.push(s.last()))
        }
    }
}

/// The nonempty runs of non-white-space characters of `s`, in order (what
/// `str::split_whitespace` gives).
pub open spec fn words_of(s: Seq<char>) -> Seq<Seq<char>> {
    let (done, cur) = words_scan(s);
    if cur.len() > 0 {
        done.push(cur)
    } else {
        done
    }
}

/// The words of the characters (see [`words_of`]).
pub fn words_vec(s: &Vec<char>) -> (res: Vec<Vec<char>>)
    ensures
        char_vec_views(res@) == words_of(s@),
{
    let mut done: Vec<Vec<char>> = Vec::new();
    let mut cur: Vec<char> = Vec::new();
    let mut i: usize = 0;
    while i < s.len()
        invariant
            i <= s@.len(),
            words_scan(s@.take(i as int)) == (char_vec_views(done@), cur@),
        decreases s@.len() - i,
    {
        assert(s@.take(i + 1).drop_last() =~= s@.take(i as int));
        let ghost before = char_vec_views(done@);
        if is_whitespace_char(s[i]) {
            if cur.len() > 0 {
                let piece = cur;
                done.push(piece);
                assert(char_vec_views(done@) =~= before.push(piece@));
            }
            cur = Vec::new();
        } else {
            cur.push(s[i]);
        }
        i = i + 1;
    }
    assert(s@.take(s@.len() as int) =~= s@);
    if cur.len() > 0 {
        let ghost before = char_vec_views(done@);
        let piece = cur;
        done.push(piece);
        assert(char_vec_views(done@) =~= before.push(piece@));
    }
    done
}

/// An ASCII hexadecimal digit.
pub open spec fn is_hex_digit_char(c: char) -> bool {
    ('0' <= c && c <= '9') || ('a' <= c && c <= 'f') || ('A' <= c && c <= 'F')
}

/// The value of a hexadecimal digit.
pub open spec fn hex_digit_of(c: char) -> nat {
    if '0' <= c && c <= '9' {
        (c as nat - '0' as nat) as nat
    } else if 'a' <= c && c <= 'f' {
        (c as nat - 'a' as nat + 10) as nat
    } else {
        (c as nat - 'A' as nat + 10) as nat
    }
}

/// Every character is a hexadecimal digit.
pub open spec fn all_hex_chars(s: Seq<char>) -> bool {
    forall|i: int| 0 <= i < s.len() ==> is_hex_digit_char(#[trigger] s[i])
}

/// The value of hexadecimal digits, most significant first.
pub open spec fn hex_chars_value(s: Seq<char>) -> nat
    decreases s.len(),
{
    if s.len() == 0 {
        0
    } else {
        hex_chars_value(s.drop_last()) * 16 + hex_digit_of(s.last())
    }
}

/// The digits that `u32::from_str_radix(s, 16)` reads: one leading `+` is
/// skipped.
pub open spec fn radix_chars(s: Seq<char>) -> Seq<char> {
    if s.len() > 0 && s[0] == '+' {
        s.drop_first()
    } else {
        s
    }
}

/// What `u32::from_str_radix(s, 16).unwrap_or(0)` gives: the value of the
/// digits after an optional `+` when there is at least one, all are
/// hexadecimal and the value fits in 32 bits; 0 otherwise.
pub open spec fn hex_u32_or_zero(s: Seq<char>) -> u32 {
    let d = radix_chars(s);
    if d.len() > 0 && all_hex_chars(d) && hex_chars_value(d) <= u32::MAX {
        hex_chars_value(d) as u32
    } else {
        0
    }
}

/// Parses hexadecimal digits as `u32::from_str_radix(s, 16).unwrap_or(0)`
/// does (see [`hex_u32_or_zero`]).
pub fn parse_hex_u32_or_zero(s: &Vec<char>) -> (res: u32)
    ensures
        res == hex_u32_or_zero(s@),
{
    let n = s.len();
    let start: usize = if n > 0 && s[0] == '+' {
        1
    } else {
        0
    };
    let ghost d = radix_chars(s@);
    assert(d =~= s@.skip(start as int));
    if start >= n {
        return 0;
    }
    let mut value: u64 = 0;
    let mut over = false;
    let mut i: usize = start;
    while i < n
        invariant
            n == s@.len(),
            start <= i <= n,
            d == radix_chars(s@),
            d == s@.skip(start as int),
            all_hex_chars(s@.subrange(start as int, i as int)),
            !over ==> value == hex_chars_value(s@.subrange(start as int, i as int)),
            !over ==> value <= u32::MAX,
            over ==> hex_chars_value(s@.subrange(start as int, i as int)) > u32::MAX,
        decreases n - i,
    {
        let c = s[i];
        let digit: u64 = if '0' <= c && c <= '9' {
            ((c as u32) - ('0' as u32)) as u64
        } else if 'a' <= c && c <= 'f' {
            ((c as u32) - ('a' as u32) + 10) as u64
        } else if 'A' <= c && c <= 'F' {
            ((c as u32) - ('A' as u32) + 10) as u64
        } else {
            assert(!all_hex_chars(d)) by {
                assert(d[i - start] == c);
            }
            return 0;
        };
        let ghost prev = s@.subrange(start as int, i as int);
        let ghost next = s@.subrange(start as int, i + 1);
        assert(next.drop_last() =~= prev);
        assert(next.last() == c);
        assert(hex_chars_value(next) == hex_chars_value(prev) * 16 + digit);
        if !over {
            value = value * 16 + digit;
            if value > 0xffff_ffff {
                over = true;
            }
        } else {
            assert(hex_chars_value(next) >= hex_chars_value(prev)) by (nonlinear_arith)
                requires
                    hex_chars_value(next) == hex_chars_value(prev) * 16 + digit,
            ;
        }
        assert(all_hex_chars(next)) by {
            assert forall|k: int| 0 <= k < next.len() implies is_hex_digit_char(#[trigger] next[k]) by {
                if k < prev.len() {
                    assert(next[k] == prev[k]);
                }
            }
        }
        i = i + 1;
    }
    assert(s@.subrange(start as int, n as int) =~= d);
    assert(d.len() > 0);
    if over {
        0
    } else {
        value as u32
    }
}

/// The uppercase hexadecimal digit of a value below 16.
pub open spec fn upper_hex_char(v: nat) -> char {
    if v < 10 {
        (('0' as nat) + v) as char
    } else {
        (('A' as nat) + v - 10) as char
    }
}

/// The uppercase hexadecimal digits of a number, without leading zeros
/// (`0` for zero).
pub open spec fn upper_hex_digits(n: nat) -> Seq<char>
    decreases n,
{
    if n < 16 {
        seq![upper_hex_char(n)]
    } else {
        upper_hex_digits(n / 16).push(upper_hex_char(n % 16))
    }
}

/// A number in uppercase hexadecimal, at least two digits wide (what
/// `format!("{:02X}", n)` gives).
pub open spec fn hex2(n: nat) -> Seq<char> {
    if n < 16 {
        seq!['0', upper_hex_char(n)]
    } else {
        upper_hex_digits(n)
    }
}

fn upper_hex(v: u32) -> (res: char)
    requires
        v < 16,
    ensures
        res == upper_hex_char(v as nat),
{
    if v < 10 {
        ((v as u8) + 0x30u8) as char
    } else {
        ((v as u8) + 0x37u8) as char
    }
}

fn push_upper_hex_digits(n: u32, out: &mut Vec<char>)
    ensures
        final(out)@ == old(out)@ + upper_hex_digits(n as nat),
    decreases n,
{
    if n >= 16 {
        push_upper_hex_digits(n / 16, out);
    }
    let c = upper_hex(n % 16);
    out.push(c);
    proof {
        if n >= 16 {
            assert(old(out)@ + upper_hex_digits(n as nat) =~= old(out)@ + upper_hex_digits((n / 16) as nat)
                + seq![c]);
        } else {
            assert(old(out)@ + upper_hex_digits(n as nat) =~= old(out)@ + seq![c]);
        }
    }
}

/// A number in uppercase hexadecimal, at least two digits wide (see
/// [`hex2`]).
pub fn hex2_vec(n: u32) -> (res: Vec<char>)
    ensures
        res@ == hex2(n as nat),
        res@.len() > 0,
{
    let mut out: Vec<char> = Vec::new();
    if n < 16 {
        out.push('0');
        out.push(upper_hex(n));
        assert(out@ =~= hex2(n as nat));
    } else {
        push_upper_hex_digits(n, &mut out);
        assert(out@ =~= hex2(n as nat));
    }
    out
}

/// A string of the characters.
pub fn string_of_chars(s: &Vec<char>) -> (res: String)
    ensures
        res@ == s@,
{
    let mut out = String::new();
    let mut i: usize = 0;
    while i < s.len()
        invariant
            i <= s@.len(),
            out@ == s@.take(i as int),
        decreases s@.len() - i,
    {
        string_push(&mut out, s[i]);
        assert(s@.take(i + 1) =~= s@.take(i as int).push(s@[i as int]));
        i = i + 1;
    }
    assert(s@.take(s@.len() as int) =~= s@);
    out
}

/// The pattern occurs somewhere in `s`.
pub open spec fn contains_chars(s: Seq<char>, pat: Seq<char>) -> bool {
    exists|i: int| #[trigger] occurs_at(s, pat, i)
}

/// Whether the pattern occurs somewhere (see [`contains_chars`]).
pub fn contains_vec(s: &Vec<char>, pat: &Vec<char>) -> (res: bool)
    ensures
        res == contains_chars(s@, pat@),
{
    let n = s.len();
    let mut i: usize = 0;
    while i < n
        invariant
            n == s@.len(),
            i <= n,
            forall|j: int| 0 <= j < i ==> !occurs_at(s@, pat@, j),
        decreases n - i,
    {
        if occurs_at_exec(s, pat, i) {
            return true;
        }
        i = i + 1;
    }
    if occurs_at_exec(s, pat, n) {
        return true;
    }
    assert forall|j: int| !#[trigger] occurs_at(s@, pat@, j) by {
        if 0 <= j <= n {
        }
    }
    false
}


/// An ASCII decimal digit.
pub open spec fn is_dec_digit_char(c: char) -> bool {
    '0' <= c && c <= '9'
}

/// The value of decimal digits, most significant first.
pub open spec fn dec_chars_value(s: Seq<char>) -> nat
    decreases s.len(),
{
    if s.len() == 0 {
        0
    } else {
        dec_chars_value(s.drop_last()) * 10 + (s.last() as nat - '0' as nat) as nat
    }
}

/// What `s.parse::<u8>().unwrap_or(0)` gives: the value of the digits
/// after an optional `+` when there is at least one, all are decimal and
/// the value fits in a byte; 0 otherwise.
pub open spec fn dec_u8_or_zero(s: Seq<char>) -> u8 {
    let d = radix_chars(s);
    if d.len() > 0 && (forall|i: int| 0 <= i < d.len() ==> is_dec_digit_char(#[trigger] d[i]))
        && dec_chars_value(d) <= 255 {
        dec_chars_value(d) as u8
    } else {
        0
    }
}

/// The characters of `s` from `i` to `j`, both cut to the length of `s`.
pub open spec fn clipped(s: Seq<char>, i: int, j: int) -> Seq<char> {
    let a = if i < s.len() { i } else { s.len() as int };
    let b = if j < s.len() { j } else { s.len() as int };
    s.subrange(a, if b < a { a } else { b })
}

/// Parses decimal digits as `s.parse::<u8>().unwrap_or(0)` does (see
/// [`dec_u8_or_zero`]).
pub fn parse_dec_u8_or_zero(s: &Vec<char>) -> (res: u8)
    ensures
        res == dec_u8_or_zero(s@),
{
    let n = s.len();
    let start: usize = if n > 0 && s[0] == '+' {
        1
    } else {
        0
    };
    let ghost d = radix_chars(s@);
    assert(d =~= s@.skip(start as int));
    if start >= n {
        return 0;
    }
    let mut value: u32 = 0;
    let mut i: usize = start;
    while i < n
        invariant
            n == s@.len(),
            start <= i <= n,
            d == radix_chars(s@),
            d == s@.skip(start as int),
            forall|k: int| 0 <= k < i - start ==> is_dec_digit_char(#[trigger] d[k]),
            value == dec_chars_value(s@.subrange(start as int, i as int)),
            value <= 255,
        decreases n - i,
    {
        let c = s[i];
        if !('0' <= c && c <= '9') {
            assert(d[i - start] == c);
            return 0;
        }
        let ghost prev = s@.subrange(start as int, i as int);
        let ghost next = s@.subrange(start as int, i + 1);
        assert(next.drop_last() =~= prev);
        assert(next.last() == c);
        let digit: u32 = (c as u32) - ('0' as u32);
        assert(dec_chars_value(next) == value * 10 + digit);
        if value * 10 + digit > 255 {
            proof {
                assert(d.take(i + 1 - start) =~= next);
                if forall|k: int| 0 <= k < d.len() ==> is_dec_digit_char(#[trigger] d[k]) {
                    lemma_dec_prefix_le(d, i + 1 - start);
                }
            }
            return 0;
        }
        value = value * 10 + digit;
        assert(d[i - start] == c);
        i = i + 1;
    }
    assert(s@.subrange(start as int, n as int) =~= d);
    value as u8
}

/// A prefix of decimal digits is worth no more than the whole.
proof fn lemma_dec_prefix_le(d: Seq<char>, k: int)
    requires
        0 <= k <= d.len(),
        forall|i: int| 0 <= i < d.len() ==> is_dec_digit_char(#[trigger] d[i]),
    ensures
        dec_chars_value(d.take(k)) <= dec_chars_value(d),
    decreases d.len() - k,
{
    if k < d.len() {
        lemma_dec_prefix_le(d.drop_last(), k);
        assert(d.drop_last().take(k) =~= d.take(k));
        assert(is_dec_digit_char(d.last()));
    } else {
        assert(d.take(k) =~= d);
    }
}

/// The characters of `s` from `i` to `j`, both cut to its length.
pub fn clipped_vec(s: &Vec<char>, i: usize, j: usize) -> (res: Vec<char>)
    ensures
        res@ == clipped(s@, i as int, j as int),
{
    let n = s.len();
    let a = if i < n { i } else { n };
    let b0 = if j < n { j } else { n };
    let b = if b0 < a { a } else { b0 };
    let mut out: Vec<char> = Vec::new();
    let mut k: usize = a;
    while k < b
        invariant
            a <= k <= b,
            b <= s@.len(),
            out@ == s@.subrange(a as int, k as int),
        decreases b - k,
    {
        out.push(s[k]);
        assert(s@.subrange(a as int, k + 1) =~= s@.subrange(a as int, k as int).push(s@[k as int]));
        k = k + 1;
    }
    out
}

} // verus!
