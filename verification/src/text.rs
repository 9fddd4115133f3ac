//! Text helpers: conversions between strings and their UTF-8 bytes, and
//! byte-level scanning of the hexadecimal text that an ELM327 adapter sends.
use vstd::prelude::*;
use vstd::utf8::*;

verus! {

broadcast use vstd::utf8::group_utf8_lib;

/// The UTF-8 bytes of a character sequence.
pub open spec fn utf8_of(s: Seq<char>) -> Seq<u8> {
    encode_utf8(s)
}

/// Each byte taken as the character with the same code (Latin-1).
pub open spec fn latin1_chars(b: Seq<u8>) -> Seq<char> {
    b.map_values(|x: u8| x as char)
}

/// Every byte is below 128.
pub open spec fn is_ascii_bytes(b: Seq<u8>) -> bool {
    forall|i: int| 0 <= i < b.len() ==> b[i] < 128
}

/// Wraps `String::from_utf8`: the bytes become the string they encode when
/// they are valid UTF-8; otherwise an error (here `None`) comes back.
#[verifier::external_body]
pub(crate) fn string_from_utf8(bytes: Vec<u8>) -> (res: Option<String>)
    ensures
        res is Some <==> valid_utf8(bytes@),
        res matches Some(s) ==> s@ == decode_utf8(bytes@),
{
    String::from_utf8(bytes).ok()
}

/// Wraps `String::push`: the character is appended at the end.
#[verifier::external_body]
pub(crate) fn string_push(s: &mut String, c: char)
    ensures
        final(s)@ == old(s)@.push(c),
{
    s.push(c)
}

/// The bytes of a string, in a new vector.
pub fn string_bytes(s: &String) -> (res: Vec<u8>)
    ensures
        res@ == utf8_of(s@),
{
    let st: &str = s.as_str();
    st.as_bytes_vec()
}

/// ASCII bytes are valid UTF-8 and decode to the characters with the same codes.
pub proof fn lemma_ascii_bytes(b: Seq<u8>)
    requires
        is_ascii_bytes(b),
    ensures
        valid_utf8(b),
        decode_utf8(b) == latin1_chars(b),
        utf8_of(latin1_chars(b)) == b,
{
    let c = latin1_chars(b);
    assert(is_ascii_chars(c)) by {
        assert forall|i: int| 0 <= i < c.len() implies '\0' <= #[trigger] c[i] <= '\u{7f}' by {
            assert(b[i] < 128);
        }
    }
    is_ascii_chars_encode_utf8(c);
    assert forall|i: int| 0 <= i < b.len() implies encode_utf8(c)[i] == b[i] by {
        assert(c[i] as u8 == encode_utf8(c)[i]);
        assert(c[i] == b[i] as char);
        let x = b[i];
        assert((x as char) as u8 == x) by {
            assert(x < 128);
        }
    }
    assert(encode_utf8(c) =~= b);
    encode_utf8_valid_utf8(c);
    encode_utf8_decode_utf8(c);
}

/// Builds a string from ASCII bytes.
pub fn ascii_string(b: Vec<u8>) -> (res: String)
    requires
        is_ascii_bytes(b@),
    ensures
        res@ == latin1_chars(b@),
        utf8_of(res@) == b@,
{
    proof {
        lemma_ascii_bytes(b@);
    }
    let ghost bv = b@;
    match string_from_utf8(b) {
        Some(s) => s,
        None => {
            assert(false);
            String::new()
        },
    }
}

// ---------------------------------------------------------------------------
// Hexadecimal digits
// ---------------------------------------------------------------------------

/// An ASCII hexadecimal digit: `0-9`, `A-F` or `a-f`.
pub open spec fn is_hex_digit(b: u8) -> bool {
    (0x30 <= b <= 0x39) || (0x41 <= b <= 0x46) || (0x61 <= b <= 0x66)
}

/// The value of a hexadecimal digit.
pub open spec fn hex_value(b: u8) -> nat {
    if b <= 0x39 {
        (b - 0x30) as nat
    } else if b <= 0x46 {
        (b - 0x41 + 10) as nat
    } else {
        (b - 0x61 + 10) as nat
    }
}

/// Every byte is a hexadecimal digit.
pub open spec fn all_hex(s: Seq<u8>) -> bool {
    forall|i: int| 0 <= i < s.len() ==> is_hex_digit(#[trigger] s[i])
}

/// The value of a sequence of hexadecimal digits, most significant first.
pub open spec fn hex_digits_value(s: Seq<u8>) -> nat
    decreases s.len(),
{
    if s.len() == 0 {
        0
    } else {
        hex_digits_value(s.drop_last()) * 16 + hex_value(s.last())
    }
}

/// The digits that `u8::from_str_radix(s, 16)` reads: one leading `+` is skipped.
pub open spec fn radix_digits(s: Seq<u8>) -> Seq<u8> {
    if s.len() > 0 && s[0] == 0x2b {
        s.drop_first()
    } else {
        s
    }
}

/// `u8::from_str_radix(s, 16)` succeeds on `s`: an optional `+`, then at
/// least one hexadecimal digit, for a value below 256.
pub open spec fn parses_hex_u8(s: Seq<u8>) -> bool {
    let d = radix_digits(s);
    &&& d.len() > 0
    &&& all_hex(d)
    &&& hex_digits_value(d) < 256
}

/// The value that `u8::from_str_radix(s, 16)` gives when it succeeds.
pub open spec fn hex_u8_value(s: Seq<u8>) -> u8 {
    hex_digits_value(radix_digits(s)) as u8
}

/// The value of one hexadecimal digit.
pub fn hex_digit_value(b: u8) -> (res: u8)
    requires
        is_hex_digit(b),
    ensures
        res as nat == hex_value(b),
        res < 16,
{
    if b <= 0x39 {
        b - 0x30
    } else if b <= 0x46 {
        b - 0x41 + 10
    } else {
        b - 0x61 + 10
    }
}

/// A prefix of hexadecimal digits is worth no more than the whole.
pub proof fn lemma_hex_prefix_le(s: Seq<u8>, i: int)
    requires
        0 <= i <= s.len(),
    ensures
        hex_digits_value(s.take(i)) <= hex_digits_value(s),
    decreases s.len() - i,
{
    if i < s.len() {
        lemma_hex_prefix_le(s, i + 1);
        assert(s.take(i + 1).drop_last() =~= s.take(i));
        assert(hex_digits_value(s.take(i + 1)) == hex_digits_value(s.take(i)) * 16 + hex_value(
            s.take(i + 1).last(),
        ));
    } else {
        assert(s.take(i) =~= s);
    }
}

/// Parses a hexadecimal byte as `u8::from_str_radix(s, 16)` does.
pub fn parse_hex_u8(s: &[u8]) -> (res: Option<u8>)
    ensures
        res is Some <==> parses_hex_u8(s@),
        res matches Some(v) ==> v == hex_u8_value(s@),
{
    let n = s.len();
    let mut start: usize = 0;
    if n > 0 && s[0] == 0x2b {
        start = 1;
    }
    let ghost d = radix_digits(s@);
    assert(d =~= s@.subrange(start as int, n as int));
    if start >= n {
        return None;
    }
    let mut acc: u32 = 0;
    let mut i: usize = start;
    while i < n
        invariant
            start <= i <= n,
            n == s@.len(),
            d == s@.subrange(start as int, n as int),
            d == radix_digits(s@),
            all_hex(d.take(i - start)),
            acc as nat == hex_digits_value(d.take(i - start)),
            acc < 256,
        decreases n - i,
    {
        let b = s[i];
        if !((0x30 <= b && b <= 0x39) || (0x41 <= b && b <= 0x46) || (0x61 <= b && b <= 0x66)) {
            assert(d[i - start] == b);
            assert(!is_hex_digit(d[i - start]));
            assert(!all_hex(d));
            return None;
        }
        let v = hex_digit_value(b);
        let ghost k = i - start;
        assert(d.take(k + 1).drop_last() =~= d.take(k));
        assert(d.take(k + 1).last() == b);
        let next = acc * 16 + v as u32;
        if next >= 256 {
            proof {
                lemma_hex_prefix_le(d, k + 1);
                assert(hex_digits_value(d.take(k + 1)) == hex_digits_value(d.take(k)) * 16 + hex_value(b));
                assert(hex_digits_value(d) >= 256);
            }
            return None;
        }
        acc = next;
        i = i + 1;
        assert(all_hex(d.take(i - start))) by {
            assert forall|j: int| 0 <= j < d.take(i - start).len() implies is_hex_digit(
                #[trigger] d.take(i - start)[j],
            ) by {
                if j < k {
                    assert(d.take(k)[j] == d.take(k + 1)[j]);
                }
            }
        }
    }
    assert(d.take(n - start) =~= d);
    Some(acc as u8)
}

// ---------------------------------------------------------------------------
// Byte-level scanning
// ---------------------------------------------------------------------------

/// The bytes with every occurrence of `x` removed.
pub open spec fn remove_byte(s: Seq<u8>, x: u8) -> Seq<u8>
    decreases s.len(),
{
    if s.len() == 0 {
        s
    } else if s.last() == x {
        remove_byte(s.drop_last(), x)
    } else {
        remove_byte(s.drop_last(), x).push(s.last())
    }
}

/// Removes every occurrence of the byte `x`.
pub fn remove_byte_vec(s: &[u8], x: u8) -> (res: Vec<u8>)
    ensures
        res@ == remove_byte(s@, x),
{
    let mut out: Vec<u8> = Vec::new();
    let mut i: usize = 0;
    while i < s.len()
        invariant
            i <= s@.len(),
            out@ == remove_byte(s@.take(i as int), x),
        decreases s@.len() - i,
    {
        assert(s@.take(i + 1).drop_last() =~= s@.take(i as int));
        if s[i] != x {
            out.push(s[i]);
        }
        i = i + 1;
    }
    assert(s@.take(s@.len() as int) =~= s@);
    out
}

/// The pieces between separators, as `<[u8]>::split` gives them: always at
/// least one piece, and an empty piece on each side of adjacent separators.
pub open spec fn split_bytes(s: Seq<u8>, sep: u8) -> Seq<Seq<u8>>
    decreases s.len(),
{
    if s.len() == 0 {
        seq![Seq::empty()]
    } else {
        let rest = split_bytes(s.drop_last(), sep);
        if s.last() == sep {
            rest.push(Seq::empty())
        } else {
            rest.update(rest.len() - 1, rest.last().push(s.last()))
        }
    }
}

/// `split_bytes` never yields an empty list.
pub proof fn lemma_split_nonempty(s: Seq<u8>, sep: u8)
    ensures
        split_bytes(s, sep).len() >= 1,
    decreases s.len(),
{
    if s.len() > 0 {
        lemma_split_nonempty(s.drop_last(), sep);
    }
}

/// Splits the bytes at every separator.
pub fn split_bytes_vec(s: &[u8], sep: u8) -> (res: Vec<Vec<u8>>)
    ensures
        res@.len() == split_bytes(s@, sep).len(),
        forall|i: int| 0 <= i < res@.len() ==> #[trigger] res@[i]@ == split_bytes(s@, sep)[i],
{
    let mut done: Vec<Vec<u8>> = Vec::new();
    let mut cur: Vec<u8> = Vec::new();
    let mut i: usize = 0;
    while i < s.len()
        invariant
            i <= s@.len(),
            split_bytes(s@.take(i as int), sep).len() == done@.len() + 1,
            forall|j: int| 0 <= j < done@.len() ==> #[trigger] done@[j]@ == split_bytes(s@.take(i as int), sep)[j],
            cur@ == split_bytes(s@.take(i as int), sep).last(),
        decreases s@.len() - i,
    {
        proof {
            lemma_split_nonempty(s@.take(i as int), sep);
        }
        assert(s@.take(i + 1).drop_last() =~= s@.take(i as int));
        if s[i] == sep {
            let piece = cur;
            done.push(piece);
            cur = Vec::new();
        } else {
            cur.push(s[i]);
        }
        i = i + 1;
    }
    assert(s@.take(s@.len() as int) =~= s@);
    done.push(cur);
    done
}

/// The bytes are a run of two-byte chunks (the last may be one byte), each
/// kept when it is valid UTF-8 and dropped otherwise, joined by single spaces:
/// what chunking a string's bytes by two and joining them with `" "` gives.
pub open spec fn spaced_pairs(b: Seq<u8>) -> Seq<u8>
    decreases b.len(),
{
    if b.len() <= 2 {
        if valid_utf8(b) {
            b
        } else {
            Seq::empty()
        }
    } else {
        (if valid_utf8(b.take(2)) {
            b.take(2)
        } else {
            Seq::<u8>::empty()
        }) + seq![0x20u8] + spaced_pairs(b.skip(2))
    }
}

/// `spaced_pairs` is valid UTF-8.
pub proof fn lemma_spaced_pairs_valid(b: Seq<u8>)
    ensures
        valid_utf8(spaced_pairs(b)),
    decreases b.len(),
{
    if b.len() <= 2 {
        assert(valid_utf8(Seq::<u8>::empty()));
    } else {
        lemma_spaced_pairs_valid(b.skip(2));
        let head = if valid_utf8(b.take(2)) {
            b.take(2)
        } else {
            Seq::<u8>::empty()
        };
        assert(valid_utf8(Seq::<u8>::empty()));
        lemma_ascii_bytes(seq![0x20u8]);
        valid_utf8_concat(head, seq![0x20u8]);
        valid_utf8_concat(head + seq![0x20u8], spaced_pairs(b.skip(2)));
    }
}

/// Removing a byte from two joined runs removes it from each.
pub proof fn lemma_remove_byte_concat(a: Seq<u8>, b: Seq<u8>, x: u8)
    ensures
        remove_byte(a + b, x) == remove_byte(a, x) + remove_byte(b, x),
    decreases b.len(),
{
    if b.len() == 0 {
        assert(a + b =~= a);
        assert(remove_byte(a, x) + remove_byte(b, x) =~= remove_byte(a, x));
    } else {
        assert((a + b).drop_last() =~= a + b.drop_last());
        lemma_remove_byte_concat(a, b.drop_last(), x);
        if b.last() != x {
            assert(remove_byte(a, x) + remove_byte(b, x) =~= (remove_byte(a, x) + remove_byte(b.drop_last(), x)).push(
                b.last(),
            ));
        }
    }
}

/// Bytes without `x` stay as they are.
pub proof fn lemma_remove_absent_byte(b: Seq<u8>, x: u8)
    requires
        forall|i: int| 0 <= i < b.len() ==> b[i] != x,
    ensures
        remove_byte(b, x) == b,
    decreases b.len(),
{
    if b.len() > 0 {
        lemma_remove_absent_byte(b.drop_last(), x);
        assert(b.drop_last().push(b.last()) =~= b);
    }
}

/// Spacing ASCII text in pairs and removing the spaces again gives the
/// text back, when it held no spaces.
pub proof fn lemma_spaced_pairs_round_trip(b: Seq<u8>)
    requires
        is_ascii_bytes(b),
        forall|i: int| 0 <= i < b.len() ==> b[i] != 0x20,
    ensures
        remove_byte(spaced_pairs(b), 0x20) == b,
    decreases b.len(),
{
    if b.len() <= 2 {
        lemma_ascii_bytes(b);
        lemma_remove_absent_byte(b, 0x20);
    } else {
        let head = b.take(2);
        let tail = b.skip(2);
        lemma_ascii_bytes(head);
        lemma_spaced_pairs_round_trip(tail);
        lemma_remove_absent_byte(head, 0x20);
        lemma_remove_byte_concat(head, seq![0x20u8], 0x20);
        lemma_remove_byte_concat(head + seq![0x20u8], spaced_pairs(tail), 0x20);
        let sp = seq![0x20u8];
        assert(sp.last() == 0x20u8);
        assert(sp.drop_last() =~= Seq::<u8>::empty());
        assert(remove_byte(sp.drop_last(), 0x20) =~= Seq::<u8>::empty());
        assert(remove_byte(sp, 0x20) =~= Seq::<u8>::empty());
        assert(head + tail =~= b);
    }
}

/// Appends the chunk when it is valid UTF-8.
fn push_valid_chunk(out: &mut Vec<u8>, chunk: Vec<u8>)
    ensures
        final(out)@ == old(out)@ + (if valid_utf8(chunk@) {
            chunk@
        } else {
            Seq::empty()
        }),
{
    let ghost c = chunk@;
    let mut copy: Vec<u8> = Vec::new();
    let mut i: usize = 0;
    while i < chunk.len()
        invariant
            i <= chunk@.len(),
            copy@ == chunk@.take(i as int),
        decreases chunk@.len() - i,
    {
        assert(chunk@.take(i + 1) =~= chunk@.take(i as int).push(chunk@[i as int]));
        copy.push(chunk[i]);
        i = i + 1;
    }
    assert(chunk@.take(chunk@.len() as int) =~= chunk@);
    if string_from_utf8(copy).is_some() {
        let mut j: usize = 0;
        let ghost start = out@;
        while j < chunk.len()
            invariant
                j <= chunk@.len(),
                chunk@ == c,
                out@ == start + c.take(j as int),
            decreases chunk@.len() - j,
        {
            assert(c.take(j + 1) =~= c.take(j as int).push(c[j as int]));
            out.push(chunk[j]);
            j = j + 1;
        }
        assert(c.take(c.len() as int) =~= c);
    } else {
        assert(out@ + Seq::<u8>::empty() =~= out@);
    }
}

/// The bytes in two-byte chunks joined by spaces (see [`spaced_pairs`]).
pub fn spaced_pairs_vec(b: &[u8]) -> (res: Vec<u8>)
    ensures
        res@ == spaced_pairs(b@),
{
    let n = b.len();
    let mut out: Vec<u8> = Vec::new();
    if n <= 2 {
        let mut c: Vec<u8> = Vec::new();
        let mut k: usize = 0;
        while k < n
            invariant
                k <= n,
                n == b@.len(),
                c@ == b@.take(k as int),
            decreases n - k,
        {
            assert(b@.take(k + 1) =~= b@.take(k as int).push(b@[k as int]));
            c.push(b[k]);
            k = k + 1;
        }
        assert(b@.take(n as int) =~= b@);
        push_valid_chunk(&mut out, c);
        assert(Seq::<u8>::empty() + spaced_pairs(b@) =~= spaced_pairs(b@));
        return out;
    }
    let mut i: usize = 0;
    while i < n
        invariant
            n == b@.len(),
            n > 2,
            i <= n,
            i % 2 == 0 || i == n,
            i == 0 ==> out@ == Seq::<u8>::empty(),
            0 < i < n ==> spaced_pairs(b@) == out@ + seq![0x20u8] + spaced_pairs(b@.skip(i as int)),
            i == n ==> out@ == spaced_pairs(b@),
        decreases n - i,
    {
        let rest = n - i;
        let take = if rest < 2 { rest } else { 2 };
        let mut c: Vec<u8> = Vec::new();
        c.push(b[i]);
        if take == 2 {
            c.push(b[i + 1]);
        }
        let ghost tail = b@.skip(i as int);
        assert(c@ =~= tail.take(take as int));
        if i > 0 {
            out.push(0x20u8);
        }
        let ghost before = out@;
        push_valid_chunk(&mut out, c);
        proof {
            if rest <= 2 {
                assert(tail.take(take as int) =~= tail);
            } else {
                assert(tail.skip(2) =~= b@.skip(i + 2));
            }
            if i == 0 {
                assert(tail =~= b@);
            }
        }
        i = i + take;
        proof {
            if i < n {
                assert(out@ + seq![0x20u8] + spaced_pairs(b@.skip(i as int)) =~= before + (if valid_utf8(
                    tail.take(2),
                ) {
                    tail.take(2)
                } else {
                    Seq::<u8>::empty()
                }) + seq![0x20u8] + spaced_pairs(tail.skip(2)));
            }
        }
    }
    out
}

} // verus!

verus! {

/// The characters that `String::from_utf8_lossy` gives for some bytes.
pub uninterp spec fn utf8_lossy(bytes: Seq<u8>) -> Seq<char>;

/// Wraps `String::from_utf8_lossy`: each invalid UTF-8 sequence becomes a
/// replacement character; valid UTF-8 decodes as it is.
#[verifier::external_body]
pub(crate) fn string_from_utf8_lossy(bytes: &[u8]) -> (res: String)
    ensures
        res@ == utf8_lossy(bytes@),
        valid_utf8(bytes@) ==> res@ == decode_utf8(bytes@),
{
    String::from_utf8_lossy(bytes).into_owned()
}

/// The character at a position, or `'\0'` past the end
/// (`chars().nth(i).unwrap_or('\0')`).
pub open spec fn char_or_nul(s: Seq<char>, i: int) -> char {
    if 0 <= i < s.len() {
        s[i]
    } else {
        '\0'
    }
}

/// A hexadecimal digit character.
pub open spec fn is_hex_char(c: char) -> bool {
    ('0' <= c <= '9') || ('A' <= c <= 'F') || ('a' <= c <= 'f')
}

/// The value of a hexadecimal digit character.
pub open spec fn hex_char_value(c: char) -> nat {
    if c <= '9' {
        (c as nat - '0' as nat) as nat
    } else if c <= 'F' {
        (c as nat - 'A' as nat + 10) as nat
    } else {
        (c as nat - 'a' as nat + 10) as nat
    }
}

/// What `u8::from_str_radix(&format!("{}{}", x, y), 16).unwrap_or_default()`
/// gives: a leading `+` is skipped, the rest must be hexadecimal digits,
/// and anything else gives 0.
pub open spec fn pair_value(x: char, y: char) -> u8 {
    if x == '+' {
        if is_hex_char(y) {
            hex_char_value(y) as u8
        } else {
            0
        }
    } else if is_hex_char(x) && is_hex_char(y) {
        (hex_char_value(x) * 16 + hex_char_value(y)) as u8
    } else {
        0
    }
}

fn hex_char_to_u8(c: char) -> (res: u8)
    requires
        is_hex_char(c),
    ensures
        res as nat == hex_char_value(c),
        res < 16,
{
    if c <= '9' {
        (c as u32 - '0' as u32) as u8
    } else if c <= 'F' {
        (c as u32 - 'A' as u32 + 10) as u8
    } else {
        (c as u32 - 'a' as u32 + 10) as u8
    }
}

fn char_is_hex(c: char) -> (res: bool)
    ensures
        res == is_hex_char(c),
{
    ('0' <= c && c <= '9') || ('A' <= c && c <= 'F') || ('a' <= c && c <= 'f')
}

/// Parses the two-character string `xy` as a hexadecimal byte, 0 when it
/// is not one (see [`pair_value`]).
pub fn parse_char_pair(x: char, y: char) -> (res: u8)
    ensures
        res == pair_value(x, y),
{
    if x == '+' {
        if char_is_hex(y) {
            hex_char_to_u8(y)
        } else {
            0
        }
    } else if char_is_hex(x) && char_is_hex(y) {
        hex_char_to_u8(x) * 16 + hex_char_to_u8(y)
    } else {
        0
    }
}

/// The uppercase hexadecimal digit for a value below 16.
pub open spec fn hex_upper(v: nat) -> u8 {
    if v < 10 {
        (0x30 + v) as u8
    } else {
        (0x41 + v - 10) as u8
    }
}

/// The uppercase hexadecimal digit for a value below 16.
pub fn hex_upper_byte(v: u8) -> (res: u8)
    requires
        v < 16,
    ensures
        res == hex_upper(v as nat),
        res < 128,
{
    if v < 10 {
        0x30 + v
    } else {
        0x41 + v - 10
    }
}

// ---------------------------------------------------------------------------
// Two-byte patterns
// ---------------------------------------------------------------------------

/// The pattern `ab` occurs somewhere in the bytes.
pub open spec fn has_pair(s: Seq<u8>, a: u8, b: u8) -> bool {
    exists|i: int| 0 <= i < s.len() - 1 && s[i] == a && #[trigger] s[i + 1] == b
}

/// Whether the pattern `ab` occurs in the bytes.
pub fn contains_pair(s: &[u8], a: u8, b: u8) -> (res: bool)
    ensures
        res == has_pair(s@, a, b),
{
    let n = s.len();
    let mut i: usize = 0;
    while n >= 2 && i < n - 1
        invariant
            n == s@.len(),
            i <= n,
            forall|j: int| 0 <= j < i && j < n - 1 ==> !(s@[j] == a && #[trigger] s@[j + 1] == b),
        decreases n - i,
    {
        if s[i] == a && s[i + 1] == b {
            assert(s@[i as int + 1] == b);
            return true;
        }
        i = i + 1;
    }
    false
}

/// The pieces between non-overlapping occurrences of `ab`, found from the
/// left, as `str::split` with a two-byte ASCII pattern gives them.
pub open spec fn split_pair(s: Seq<u8>, a: u8, b: u8) -> Seq<Seq<u8>>
    decreases s.len(),
{
    if s.len() == 0 {
        seq![Seq::empty()]
    } else if s.len() >= 2 && s[0] == a && s[1] == b {
        seq![Seq::<u8>::empty()] + split_pair(s.skip(2), a, b)
    } else {
        let r = split_pair(s.skip(1), a, b);
        r.update(0, seq![s[0]] + r[0])
    }
}

/// `split_pair` never yields an empty list.
pub proof fn lemma_split_pair_nonempty(s: Seq<u8>, a: u8, b: u8)
    ensures
        split_pair(s, a, b).len() >= 1,
    decreases s.len(),
{
    if s.len() == 0 {
    } else if s.len() >= 2 && s[0] == a && s[1] == b {
        lemma_split_pair_nonempty(s.skip(2), a, b);
    } else {
        lemma_split_pair_nonempty(s.skip(1), a, b);
    }
}

/// The pieces of a split, with `prefix` put in front of the first piece.
pub open spec fn prepend_first(prefix: Seq<u8>, r: Seq<Seq<u8>>) -> Seq<Seq<u8>> {
    r.update(0, prefix + r[0])
}

/// Splits the bytes at each `ab` (see [`split_pair`]).
pub fn split_pair_vec(s: &[u8], a: u8, b: u8) -> (res: Vec<Vec<u8>>)
    ensures
        res@.len() == split_pair(s@, a, b).len(),
        forall|i: int| 0 <= i < res@.len() ==> #[trigger] res@[i]@ == split_pair(s@, a, b)[i],
{
    let n = s.len();
    let mut done: Vec<Vec<u8>> = Vec::new();
    let mut cur: Vec<u8> = Vec::new();
    let mut i: usize = 0;
    proof {
        lemma_split_pair_nonempty(s@, a, b);
        assert(s@.skip(0) =~= s@);
        assert(prepend_first(Seq::empty(), split_pair(s@, a, b)) =~= split_pair(s@, a, b)) by {
            assert(Seq::<u8>::empty() + split_pair(s@, a, b)[0] =~= split_pair(s@, a, b)[0]);
        }
    }
    while i < n
        invariant
            n == s@.len(),
            i <= n,
            ({
                let target = split_pair(s@, a, b);
                let tail = prepend_first(cur@, split_pair(s@.skip(i as int), a, b));
                &&& target.len() == done@.len() + tail.len()
                &&& forall|j: int| 0 <= j < done@.len() ==> #[trigger] done@[j]@ == target[j]
                &&& forall|j: int| 0 <= j < tail.len() ==> #[trigger] tail[j] == target[done@.len() + j]
            }),
        decreases n - i,
    {
        let ghost t = s@.skip(i as int);
        let ghost old_done = done@;
        let ghost old_cur = cur@;
        proof {
            lemma_split_pair_nonempty(t, a, b);
        }
        let ghost target = split_pair(s@, a, b);
        let ghost old_tail = prepend_first(old_cur, split_pair(t, a, b));
        if i + 1 < n && s[i] == a && s[i + 1] == b {
            let piece = cur;
            done.push(piece);
            cur = Vec::new();
            proof {
                assert(t.skip(2) =~= s@.skip(i + 2));
                lemma_split_pair_nonempty(t.skip(2), a, b);
                let r2 = split_pair(t.skip(2), a, b);
                assert(split_pair(t, a, b) == seq![Seq::<u8>::empty()] + r2);
                assert(old_tail =~= seq![old_cur] + r2) by {
                    assert(old_cur + Seq::<u8>::empty() =~= old_cur);
                }
                assert(prepend_first(Seq::empty(), r2) =~= r2) by {
                    assert(Seq::<u8>::empty() + r2[0] =~= r2[0]);
                }
                assert(old_tail[0] == target[old_done.len() as int]);
                assert forall|j: int| 0 <= j < done@.len() implies #[trigger] done@[j]@ == target[j] by {
                    if j < old_done.len() {
                        assert(done@[j] == old_done[j]);
                    }
                }
                assert forall|j: int| 0 <= j < r2.len() implies #[trigger] r2[j] == target[done@.len() + j] by {
                    assert(r2[j] == old_tail[j + 1]);
                }
            }
            i = i + 2;
        } else {
            cur.push(s[i]);
            proof {
                assert(t.skip(1) =~= s@.skip(i + 1));
                lemma_split_pair_nonempty(t.skip(1), a, b);
                let r1 = split_pair(t.skip(1), a, b);
                assert(split_pair(t, a, b) == r1.update(0, seq![t[0]] + r1[0]));
                assert(old_cur + (seq![t[0]] + r1[0]) =~= cur@ + r1[0]);
                assert(old_tail =~= prepend_first(cur@, r1));
            }
            i = i + 1;
        }
    }
    let ghost old_done = done@;
    proof {
        assert(s@.skip(n as int) =~= Seq::<u8>::empty());
        assert(cur@ + Seq::<u8>::empty() =~= cur@);
        let tail = prepend_first(cur@, split_pair(s@.skip(n as int), a, b));
        assert(tail =~= seq![cur@]);
        assert(tail[0] == split_pair(s@, a, b)[done@.len() as int]);
    }
    done.push(cur);
    assert forall|j: int| 0 <= j < done@.len() implies #[trigger] done@[j]@ == split_pair(s@, a, b)[j] by {
        if j < old_done.len() {
            assert(done@[j] == old_done[j]);
        }
    }
    done
}

/// The bytes with every trailing `xy` removed (`trim_end_matches("xy")`).
pub open spec fn trim_pair_end(s: Seq<u8>, x: u8, y: u8) -> Seq<u8>
    decreases s.len(),
{
    if s.len() >= 2 && s[s.len() - 2] == x && s[s.len() - 1] == y {
        trim_pair_end(s.take(s.len() - 2), x, y)
    } else {
        s
    }
}

/// The length that remains once every trailing `xy` is removed.
pub fn trimmed_len(s: &[u8], x: u8, y: u8) -> (res: usize)
    ensures
        res <= s@.len(),
        s@.take(res as int) == trim_pair_end(s@, x, y),
{
    let mut n = s.len();
    assert(s@.take(n as int) =~= s@);
    while n >= 2 && s[n - 2] == x && s[n - 1] == y
        invariant
            n <= s@.len(),
            trim_pair_end(s@.take(n as int), x, y) == trim_pair_end(s@, x, y),
        decreases n,
    {
        assert(s@.take(n as int).take(n - 2) =~= s@.take(n - 2));
        n = n - 2;
    }
    n
}

/// The bytes, ASCII letters taken in lower case.
pub open spec fn ascii_lower(b: u8) -> u8 {
    if 0x41 <= b <= 0x5a {
        (b + 32) as u8
    } else {
        b
    }
}

/// The bytes of `nodata`.
pub open spec fn nodata() -> Seq<u8> {
    seq![0x6eu8, 0x6fu8, 0x64u8, 0x61u8, 0x74u8, 0x61u8]
}

/// `NODATA`, in any mix of cases, starts at position `i`.
pub open spec fn nodata_at(s: Seq<u8>, i: int) -> bool {
    forall|m: int| 0 <= m < 6 ==> ascii_lower(#[trigger] s[i + m]) == nodata()[m]
}

/// `NODATA`, in any mix of cases, occurs in the bytes. On the bytes of a
/// string this is what `to_lowercase().contains("nodata")` tests: no
/// character outside ASCII lowercases to one of `n`, `o`, `d`, `a`, `t`.
pub open spec fn has_nodata(s: Seq<u8>) -> bool {
    exists|i: int| 0 <= i && i + 6 <= s.len() && #[trigger] nodata_at(s, i)
}

fn lower_byte(b: u8) -> (res: u8)
    ensures
        res == ascii_lower(b),
{
    if 0x41 <= b && b <= 0x5a {
        b + 32
    } else {
        b
    }
}

/// Whether `NODATA`, in any mix of cases, occurs in the bytes.
pub fn contains_nodata(s: &[u8]) -> (res: bool)
    ensures
        res == has_nodata(s@),
{
    let n = s.len();
    let pat: [u8; 6] = [0x6e, 0x6f, 0x64, 0x61, 0x74, 0x61];
    assert(pat@ =~= nodata());
    let mut i: usize = 0;
    while n >= 6 && i <= n - 6
        invariant
            n == s@.len(),
            i <= n,
            pat@ == nodata(),
            forall|j: int| 0 <= j < i && j + 6 <= n ==> !#[trigger] nodata_at(s@, j),
        decreases n - i,
    {
        let mut k: usize = 0;
        let mut all = true;
        while k < 6
            invariant
                k <= 6,
                i + 6 <= n,
                n == s@.len(),
                pat@ == nodata(),
                all == (forall|m: int| 0 <= m < k ==> ascii_lower(#[trigger] s@[i + m]) == nodata()[m]),
            decreases 6 - k,
        {
            if lower_byte(s[i + k]) != pat[k] {
                all = false;
            }
            k = k + 1;
        }
        if all {
            assert(nodata_at(s@, i as int));
            return true;
        }
        i = i + 1;
    }
    false
}

/// Whether two strings hold the same characters.
pub fn str_eq(a: &str, b: &str) -> (res: bool)
    ensures
        res == (a@ == b@),
{
    let n = a.unicode_len();
    if n != b.unicode_len() {
        return false;
    }
    let mut i: usize = 0;
    while i < n
        invariant
            n == a@.len(),
            n == b@.len(),
            i <= n,
            forall|k: int| 0 <= k < i ==> a@[k] == b@[k],
        decreases n - i,
    {
        if a.get_char(i) != b.get_char(i) {
            return false;
        }
        i = i + 1;
    }
    assert(a@ =~= b@);
    true
}

} // verus!
