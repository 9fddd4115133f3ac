//! The VIN itself: validation, check digit, world manufacturer identifier
//! and the key that the vPIC patterns are matched against.
use vstd::prelude::*;
use vstd::utf8::*;

use crate::text::{latin1_chars, str_eq, string_from_utf8, utf8_of};
use crate::vin::element_ids::ElementId;

verus! {

broadcast use vstd::utf8::group_utf8_lib;

/// What can go wrong while decoding a VIN.
#[derive(Debug, Clone, Copy)]
pub enum Error {
    VPICConnectFailed,
    VPICNoConnection,
    VPICNoLookupTable(ElementId),
    VPICQueryError(&'static str),
    ParseError,
    InvalidVinLength,
    WMIError,
    ModelYearError,
    NoResultsFound(&'static str),
    InvalidVinSchemaId,
    InvalidModelYear,
    InvalidVSpecSchemaId,
    InvalidVSpecPatternId,
    InvalidCharacter { ch: char, pos: usize, msg: &'static str },
    InvalidCheckDigit { expected: char, found: char },
}

/// The errors of VIN decoding, under their other name.
pub type VinError = Error;

/// Wraps `char::is_numeric`: whether the character is in one of Unicode's
/// number categories (Nd, Nl, No). The ASCII digits are numbers and no
/// other ASCII character is.
pub uninterp spec fn is_numeric_char(c: char) -> bool;

/// Wraps `char::is_numeric` (see [`is_numeric_char`]).
#[verifier::external_body]
fn char_is_numeric(c: char) -> (res: bool)
    ensures
        res == is_numeric_char(c),
        ('0' <= c <= '9') ==> res,
        (c <= '\u{7f}' && !('0' <= c <= '9')) ==> !res,
{
    c.is_numeric()
}

/// A cut at `i` does not fall inside the encoding of a character.
pub open spec fn cut_ok(b: Seq<u8>, i: int) -> bool {
    i == b.len() || (0 <= i < b.len() && !is_continuation_byte(b[i]))
}

/// The slices that computing the world manufacturer identifier takes
/// (`[..3]`, and `[11..14]` when the third byte is `9`) are at character
/// boundaries.
pub open spec fn wmi_cuts_ok(b: Seq<u8>) -> bool {
    &&& cut_ok(b, 3)
    &&& b[2] == 0x39 ==> cut_ok(b, 11) && cut_ok(b, 14)
}

/// The slices that the pattern key takes (`[3..8]` and `[9..17]`) are at
/// character boundaries.
pub open spec fn key_cuts_ok(b: Seq<u8>) -> bool {
    &&& cut_ok(b, 3)
    &&& cut_ok(b, 8)
    &&& cut_ok(b, 9)
}

/// The world manufacturer identifier of a VIN's bytes: the first three
/// bytes, followed by bytes 11 to 13 when the third is `9` (the extended
/// form of ISO 3780).
pub open spec fn wmi_bytes(b: Seq<u8>) -> Seq<u8> {
    if b[2] == 0x39 {
        b.subrange(0, 3) + b.subrange(11, 14)
    } else {
        b.subrange(0, 3)
    }
}

/// The key that vPIC patterns are matched against: bytes 3 to 7, `|`, then
/// bytes 9 to 16.
pub open spec fn key_bytes(b: Seq<u8>) -> Seq<u8> {
    b.subrange(3, 8) + seq![0x7cu8] + b.subrange(9, 17)
}

/// The characters of the key of a VIN (see [`key_bytes`]).
pub open spec fn vin_key(chars: Seq<char>) -> Seq<char> {
    decode_utf8(key_bytes(utf8_of(chars)))
}

/// The value that the check-digit computation gives a character: a digit
/// its own value, a letter its transliteration; `I`, `O`, `Q` and anything
/// else have none.
pub open spec fn transliteration(c: char) -> Option<u8> {
    if '0' <= c <= '9' {
        Some((c as int - '0' as int) as u8)
    } else if c == 'A' || c == 'J' {
        Some(1)
    } else if c == 'B' || c == 'K' || c == 'S' {
        Some(2)
    } else if c == 'C' || c == 'L' || c == 'T' {
        Some(3)
    } else if c == 'D' || c == 'M' || c == 'U' {
        Some(4)
    } else if c == 'E' || c == 'N' || c == 'V' {
        Some(5)
    } else if c == 'F' || c == 'W' {
        Some(6)
    } else if c == 'G' || c == 'P' || c == 'X' {
        Some(7)
    } else if c == 'H' || c == 'Y' {
        Some(8)
    } else if c == 'R' || c == 'Z' {
        Some(9)
    } else {
        None
    }
}

/// The transliteration follows the letters' places in the alphabet in
/// three runs (ISO 3779): `A`-`H` give 1-8, `J`-`R` give 1-9 and `S`-`Z`
/// give 2-9, with `I`, `O` and `Q` left out; each digit gives itself; no
/// other character has one.
pub proof fn lemma_transliteration_by_alphabet(c: char)
    ensures
        ('0' <= c <= '9') ==> transliteration(c) == Some((c as int - '0' as int) as u8),
        ('A' <= c <= 'H') ==> transliteration(c) == Some((c as int - 'A' as int + 1) as u8),
        ('J' <= c <= 'R' && c != 'O' && c != 'Q') ==> transliteration(c) == Some((c as int - 'J' as int + 1) as u8),
        ('S' <= c <= 'Z') ==> transliteration(c) == Some((c as int - 'S' as int + 2) as u8),
        (c == 'I' || c == 'O' || c == 'Q') ==> transliteration(c) is None,
        !('0' <= c <= '9') && !('A' <= c <= 'Z') ==> transliteration(c) is None,
{
}

/// The weight of the character at a (1-based) position of a VIN.
pub open spec fn vin_weight(position: int) -> u8 {
    if position == 1 || position == 11 {
        8
    } else if position == 2 || position == 12 {
        7
    } else if position == 3 || position == 13 {
        6
    } else if position == 4 || position == 14 {
        5
    } else if position == 5 || position == 15 {
        4
    } else if position == 6 || position == 16 {
        3
    } else if position == 7 || position == 17 {
        2
    } else if position == 8 {
        10
    } else if position == 10 {
        9
    } else {
        0
    }
}

/// The first position, from `i` on, whose character has no transliteration.
pub open spec fn first_untransliterable(chars: Seq<char>, i: int) -> Option<int>
    decreases chars.len() - i,
{
    if i >= chars.len() {
        None
    } else if transliteration(chars[i]) is None {
        Some(i)
    } else {
        first_untransliterable(chars, i + 1)
    }
}

/// The weighted sum of the transliterations of the first `n` characters.
pub open spec fn weighted_sum(chars: Seq<char>, n: int) -> int
    decreases n,
{
    if n <= 0 {
        0
    } else {
        weighted_sum(chars, n - 1) + (transliteration(chars[n - 1]).unwrap() as int) * (vin_weight(n) as int)
    }
}

/// The check digit for a weighted sum: the sum modulo 11, `X` for 10.
pub open spec fn check_char(sum: int) -> char {
    let d = sum % 11;
    if d == 10 {
        'X'
    } else {
        ('0' as int + d) as char
    }
}

/// Checking the digit panics: the first character without a
/// transliteration is a number outside ASCII (`to_digit(10)` fails on it).
pub open spec fn checksum_panics(chars: Seq<char>) -> bool {
    match first_untransliterable(chars, 0) {
        Some(j) => is_numeric_char(chars[j]),
        None => false,
    }
}

/// The message of the error for a character without transliteration.
pub open spec fn transliteration_msg() -> &'static str {
    "Unexpected character when transliterating."
}

/// What checking the check digit of a VIN gives: an error at the first
/// character without transliteration; otherwise the computed check digit
/// when the ninth character holds it, or an error naming both.
pub open spec fn checksum_of(chars: Seq<char>) -> Result<char, Error> {
    match first_untransliterable(chars, 0) {
        Some(j) => Err(Error::InvalidCharacter { ch: chars[j], pos: j as usize, msg: transliteration_msg() }),
        None => {
            let expected = check_char(weighted_sum(chars, chars.len() as int));
            if chars[8] == expected {
                Ok(expected)
            } else {
                Err(Error::InvalidCheckDigit { expected, found: chars[8] })
            }
        },
    }
}

/// A vehicle identification number.
pub struct VIN {
    vin: String,
    wmi: String,
}

impl VIN {
    #[verifier::type_invariant]
    spec fn inv(self) -> bool {
        &&& utf8_of(self.vin@).len() == 17
        &&& wmi_cuts_ok(utf8_of(self.vin@))
        &&& utf8_of(self.wmi@) == wmi_bytes(utf8_of(self.vin@))
    }

    /// The characters of the VIN.
    pub closed spec fn chars(&self) -> Seq<char> {
        self.vin@
    }
}

/// Bytes between two cuts of valid UTF-8 that do not split a character are
/// valid UTF-8.
proof fn lemma_slice_valid(b: Seq<u8>, i: int, j: int)
    requires
        valid_utf8(b),
        0 <= i <= j <= b.len(),
        cut_ok(b, i),
        cut_ok(b, j),
    ensures
        valid_utf8(b.subrange(i, j)),
{
    let pre = b.subrange(0, j);
    if j < b.len() {
        is_char_boundary_iff_not_is_continuation_byte(b, j);
        valid_utf8_split(b, j);
    } else {
        assert(pre =~= b);
    }
    assert(valid_utf8(pre));
    if i == j {
        assert(b.subrange(i, j) =~= Seq::<u8>::empty());
    } else {
        assert(pre[i] == b[i]);
        is_char_boundary_iff_not_is_continuation_byte(pre, i);
        valid_utf8_split(pre, i);
        assert(pre.subrange(i, pre.len() as int) =~= b.subrange(i, j));
    }
}

/// Copies `b[i..j]` into a new vector.
fn copy_range(b: &[u8], i: usize, j: usize) -> (res: Vec<u8>)
    requires
        i <= j <= b@.len(),
    ensures
        res@ == b@.subrange(i as int, j as int),
{
    let mut out: Vec<u8> = Vec::new();
    let mut k = i;
    while k < j
        invariant
            i <= k <= j,
            j <= b@.len(),
            out@ == b@.subrange(i as int, k as int),
        decreases j - k,
    {
        assert(b@.subrange(i as int, k + 1) =~= b@.subrange(i as int, k as int).push(b@[k as int]));
        out.push(b[k]);
        k = k + 1;
    }
    out
}

/// Appends `b[i..j]`.
fn append_range(out: &mut Vec<u8>, b: &[u8], i: usize, j: usize)
    requires
        i <= j <= b@.len(),
    ensures
        final(out)@ == old(out)@ + b@.subrange(i as int, j as int),
{
    let ghost start = out@;
    let mut k = i;
    while k < j
        invariant
            i <= k <= j,
            j <= b@.len(),
            out@ == start + b@.subrange(i as int, k as int),
        decreases j - k,
    {
        assert(b@.subrange(i as int, k + 1) =~= b@.subrange(i as int, k as int).push(b@[k as int]));
        out.push(b[k]);
        k = k + 1;
    }
}

impl VIN {
    /// A VIN from its 17 characters (counted as bytes); any other length is
    /// an error. The world manufacturer identifier is computed at once.
    pub fn new(vin: &str) -> (res: Result<Self, Error>)
        requires
            utf8_of(vin@).len() == 17 ==> wmi_cuts_ok(utf8_of(vin@)),
        ensures
            utf8_of(vin@).len() != 17 ==> res == Err::<VIN, Error>(Error::InvalidVinLength),
            utf8_of(vin@).len() == 17 ==> (res matches Ok(v) && v.chars() == vin@),
    {
        if vin.len() != 17 {
            return Err(Error::InvalidVinLength);
        }
        let b: &[u8] = vin.as_bytes();
        let ghost bs = b@;
        let mut w = copy_range(b, 0, 3);
        if b[2] == 0x39 {
            append_range(&mut w, b, 11, 14);
        }
        proof {
            encode_utf8_valid_utf8(vin@);
            lemma_slice_valid(bs, 0, 3);
            if bs[2] == 0x39 {
                lemma_slice_valid(bs, 11, 14);
                valid_utf8_concat(bs.subrange(0, 3), bs.subrange(11, 14));
            }
            assert(w@ == wmi_bytes(bs));
        }
        let ghost wv = w@;
        let wmi = match string_from_utf8(w) {
            Some(s) => s,
            None => {
                assert(false);
                String::new()
            },
        };
        proof {
            decode_utf8_encode_utf8(wv);
        }
        Ok(VIN { vin: vin.to_owned(), wmi })
    }

    /// The VIN text.
    pub fn get_vin(&self) -> (res: &str)
        ensures
            res@ == self.chars(),
    {
        self.vin.as_str()
    }

    /// The world manufacturer identifier (see [`wmi_bytes`]).
    pub fn get_wmi(&self) -> (res: &str)
        ensures
            utf8_of(res@) == wmi_bytes(utf8_of(self.chars())),
    {
        proof {
            use_type_invariant(self);
        }
        self.wmi.as_str()
    }

    /// The key that vPIC patterns are matched against (see [`key_bytes`]),
    /// e.g. `CJASB|JB660929` for `KL4CJASB6JB660929`.
    pub fn as_key(&self) -> (res: String)
        requires
            key_cuts_ok(utf8_of(self.chars())),
        ensures
            utf8_of(res@) == key_bytes(utf8_of(self.chars())),
            res@ == vin_key(self.chars()),
    {
        proof {
            use_type_invariant(self);
        }
        let b: &[u8] = self.vin.as_str().as_bytes();
        let ghost bs = b@;
        let mut key = copy_range(b, 3, 8);
        key.push(0x7c);
        append_range(&mut key, b, 9, 17);
        proof {
            encode_utf8_valid_utf8(self.vin@);
            lemma_slice_valid(bs, 3, 8);
            lemma_slice_valid(bs, 9, 17);
            crate::text::lemma_ascii_bytes(seq![0x7cu8]);
            valid_utf8_concat(bs.subrange(3, 8), seq![0x7cu8]);
            valid_utf8_concat(bs.subrange(3, 8) + seq![0x7cu8], bs.subrange(9, 17));
            assert(key@ =~= key_bytes(bs));
        }
        let ghost kv = key@;
        let res = match string_from_utf8(key) {
            Some(s) => s,
            None => {
                assert(false);
                String::new()
            },
        };
        proof {
            decode_utf8_encode_utf8(kv);
        }
        res
    }
}


/// Characters below 128 take one byte each in UTF-8.
proof fn lemma_ascii_chars_len(chars: Seq<char>)
    requires
        forall|i: int| 0 <= i < chars.len() ==> (chars[i] as u32) < 128,
    ensures
        utf8_of(chars).len() == chars.len(),
    decreases chars.len(),
{
    if chars.len() > 0 {
        assert(has_width_1_encoding(chars[0] as u32));
        lemma_ascii_chars_len(chars.drop_first());
    }
}

/// When no character from `i` on lacks a transliteration, each of them has one.
proof fn lemma_all_transliterable(chars: Seq<char>, i: int, k: int)
    requires
        0 <= i <= k < chars.len(),
        first_untransliterable(chars, i) is None,
    ensures
        transliteration(chars[k]) is Some,
    decreases k - i,
{
    if i < k {
        lemma_all_transliterable(chars, i + 1, k);
    }
}

/// The transliteration of a character, or the error for one without.
fn get_transliteration(ch: char, ch_index: usize) -> (res: Result<u8, Error>)
    ensures
        match transliteration(ch) {
            Some(v) => res == Ok::<u8, Error>(v),
            None => res == Err::<u8, Error>(
                Error::InvalidCharacter { ch, pos: ch_index, msg: transliteration_msg() },
            ),
        },
{
    if '0' <= ch && ch <= '9' {
        return Ok(((ch as u32) - ('0' as u32)) as u8);
    }
    match ch {
        'A' | 'J' => Ok(1),
        'B' | 'K' | 'S' => Ok(2),
        'C' | 'L' | 'T' => Ok(3),
        'D' | 'M' | 'U' => Ok(4),
        'E' | 'N' | 'V' => Ok(5),
        'F' | 'W' => Ok(6),
        'G' | 'P' | 'X' => Ok(7),
        'H' | 'Y' => Ok(8),
        'R' | 'Z' => Ok(9),
        _ => Err(
            Error::InvalidCharacter {
                ch,
                pos: ch_index,
                msg: "Unexpected character when transliterating.",
            },
        ),
    }
}

/// The weight of a (1-based) character position.
fn get_weight(char_position: usize) -> (res: u8)
    ensures
        res == vin_weight(char_position as int),
{
    match char_position {
        1 | 11 => 8,
        2 | 12 => 7,
        3 | 13 => 6,
        4 | 14 => 5,
        5 | 15 => 4,
        6 | 16 => 3,
        7 | 17 => 2,
        8 => 10,
        10 => 9,
        _ => 0,
    }
}

impl VIN {
    /// Checks the check digit (the ninth character): the weighted sum of the
    /// transliterated characters modulo 11, `X` for 10. Returns the digit, or
    /// the error for the first character without a transliteration, or the
    /// mismatch (see [`checksum_of`]).
    pub fn checksum(&self) -> (res: Result<char, Error>)
        requires
            !checksum_panics(self.chars()),
        ensures
            res == checksum_of(self.chars()),
    {
        proof {
            use_type_invariant(self);
        }
        let vin: &str = self.vin.as_str();
        let ghost chars = vin@;
        let n = vin.unicode_len();
        let mut sum: u16 = 0;
        let mut i: usize = 0;
        while i < n
            invariant
                n == chars.len(),
                chars == self.chars(),
                vin@ == chars,
                i <= n,
                first_untransliterable(chars, 0) == first_untransliterable(chars, i as int),
                sum as int == weighted_sum(chars, i as int),
                sum <= 90 * i,
            decreases n - i,
        {
            let ch = vin.get_char(i);
            let trans = match get_transliteration(ch, i) {
                Ok(t) => t,
                Err(e) => {
                    return Err(e);
                },
            };
            let weight = get_weight(i + 1);
            assert(trans <= 9 && weight <= 10);
            assert(trans * weight <= 90) by (nonlinear_arith)
                requires
                    trans <= 9,
                    weight <= 10,
            ;
            sum = sum + (trans as u16) * (weight as u16);
            i = i + 1;
        }
        proof {
            assert forall|k: int| 0 <= k < chars.len() implies (chars[k] as u32) < 128 by {
                lemma_all_transliterable(chars, 0, k);
            }
            lemma_ascii_chars_len(chars);
        }
        let d: u16 = sum % 11;
        let check: char = if d == 10 {
            'X'
        } else {
            ((d as u8) + 0x30u8) as char
        };
        let found = vin.get_char(8);
        if found == check {
            Ok(found)
        } else {
            Err(Error::InvalidCheckDigit { expected: check, found })
        }
    }
}


/// The first position, from `i` on, whose character has no transliteration.
fn find_untransliterable(vin: &str, i: usize) -> (res: Option<usize>)
    requires
        i <= vin@.len(),
    ensures
        res matches Some(k) ==> first_untransliterable(vin@, i as int) == Some(k as int)
            && k < vin@.len(),
        res is None ==> first_untransliterable(vin@, i as int) is None,
    decreases vin@.len() - i,
{
    let n = vin.unicode_len();
    if i >= n {
        return None;
    }
    let ch = vin.get_char(i);
    match get_transliteration(ch, i) {
        Err(_) => Some(i),
        Ok(_) => find_untransliterable(vin, i + 1),
    }
}

impl VIN {
    /// The check digit as [`VIN::checksum`] computes it, or `None` where the
    /// first character without a transliteration is a number outside ASCII,
    /// on which that computation cannot proceed (see [`checksum_panics`]).
    pub fn checked_checksum(&self) -> (res: Option<Result<char, Error>>)
        ensures
            checksum_panics(self.chars()) ==> res is None,
            !checksum_panics(self.chars()) ==> res == Some(checksum_of(self.chars())),
    {
        let vin: &str = self.vin.as_str();
        assert(vin@ == self.chars());
        let first = find_untransliterable(vin, 0);
        match first {
            Some(j) => {
                assert(first_untransliterable(vin@, 0) == Some(j as int));
                let ch = vin.get_char(j);
                if char_is_numeric(ch) {
                    return None;
                }
            },
            None => {},
        }
        Some(self.checksum())
    }
}


impl PartialEq for VIN {
    /// Two VINs are equal when their texts are.
    fn eq(&self, other: &Self) -> (res: bool) {
        str_eq(self.vin.as_str(), other.vin.as_str())
    }
}

impl vstd::std_specs::cmp::PartialEqSpecImpl for VIN {
    open spec fn obeys_eq_spec() -> bool {
        true
    }

    open spec fn eq_spec(&self, other: &Self) -> bool {
        self.chars() == other.chars()
    }
}

} // verus!
