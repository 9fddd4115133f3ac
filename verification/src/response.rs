//! Responses from the vehicle's ECUs and the payload bytes in them.
use vstd::prelude::*;
use vstd::utf8::*;

use crate::obd::{formatted, OBD};
use crate::text::{
    latin1_chars, parse_hex_u8, parses_hex_u8, hex_u8_value, remove_byte, remove_byte_vec,
    split_bytes, split_bytes_vec, string_bytes, string_push, utf8_of,
};

verus! {

/// One of the data bytes A to E of a response.
#[derive(Debug, PartialEq, Eq, Structural, Clone, Copy)]
pub enum PayloadComponent {
    A,
    B,
    C,
    D,
    E,
}

/// The position of a data byte: A is 0, E is 4.
pub open spec fn component_index(c: PayloadComponent) -> nat {
    match c {
        PayloadComponent::A => 0,
        PayloadComponent::B => 1,
        PayloadComponent::C => 2,
        PayloadComponent::D => 3,
        PayloadComponent::E => 4,
    }
}

impl PayloadComponent {
    /// The position of this data byte in the payload.
    pub fn as_usize(&self) -> (res: usize)
        ensures
            res as nat == component_index(*self),
    {
        match self {
            PayloadComponent::A => 0,
            PayloadComponent::B => 1,
            PayloadComponent::C => 2,
            PayloadComponent::D => 3,
            PayloadComponent::E => 4,
        }
    }
}

/// What a response holds, as mathematical values.
pub struct ResponseView {
    pub raw: Option<Seq<char>>,
    pub payload: Option<Seq<char>>,
    pub service: Seq<u8>,
    pub responding_ecus: Seq<Seq<char>>,
    pub payload_size: nat,
}

/// A response to a request, from one or more ECUs.
#[derive(Debug)]
pub struct Response {
    /// The full response, formatted as hexadecimal bytes separated by
    /// spaces, e.g. `"01 0C 41 0C 11 D0 41 0C 11 D0"`: the request, then
    /// the answer of each ECU.
    pub(crate) raw_response: Option<String>,
    /// The first ECU's answer, e.g. `"41 0C 11 D0"`.
    pub(crate) payload: Option<String>,
    /// The service number of the request.
    pub(crate) service: [u8; 2],
    /// The names of the ECUs that answered.
    pub(crate) responding_ecus: Vec<String>,
    /// How many bytes one answer holds.
    pub(crate) payload_size: usize,
}

/// The characters of an optional string.
pub open spec fn opt_chars(s: Option<String>) -> Option<Seq<char>> {
    match s {
        Some(t) => Some(t@),
        None => None,
    }
}

impl View for Response {
    type V = ResponseView;

    closed spec fn view(&self) -> ResponseView {
        ResponseView {
            raw: opt_chars(self.raw_response),
            payload: opt_chars(self.payload),
            service: self.service@,
            responding_ecus: self.responding_ecus@.map_values(|s: String| s@),
            payload_size: self.payload_size as nat,
        }
    }
}

/// The bytes of the first answer in a response whose spaces were removed:
/// the response is read two bytes at a time (an odd last byte is ignored);
/// a pair `4x` or `6x`, where `x` is the second byte of the service number,
/// starts an answer; pairs are kept from the first such start on, until
/// another start is met after more than `size` pairs of the whole response.
pub open spec fn first_answer(st: Seq<u8>, sv: u8, size: nat, k: nat, found: bool) -> Seq<u8>
    decreases st.len() - 2 * k,
{
    if 2 * k + 2 > st.len() {
        Seq::empty()
    } else {
        let a = st[2 * k as int];
        let b = st[2 * k as int + 1];
        let start = (a == 0x34 || a == 0x36) && b == sv;
        if start && found && k > size {
            Seq::empty()
        } else {
            let f = found || start;
            (if f {
                seq![a, b]
            } else {
                Seq::<u8>::empty()
            }) + first_answer(st, sv, size, k + 1, f)
        }
    }
}

/// The payload that is extracted from a response: its first answer, each
/// byte taken as the character with that code, then spaced in pairs.
pub open spec fn extracted_payload(r: ResponseView) -> Seq<char> {
    match r.raw {
        None => Seq::empty(),
        Some(raw) => formatted(
            latin1_chars(first_answer(remove_byte(utf8_of(raw), 0x20), r.service[1], r.payload_size, 0, false)),
        ),
    }
}

/// The payload that `get_payload` gives: the stored one, or the one
/// extracted from the full response when none is stored.
pub open spec fn payload_of(r: ResponseView) -> Option<Seq<char>> {
    if r.payload is None && r.raw is Some {
        Some(extracted_payload(r))
    } else {
        r.payload
    }
}

/// Where the data bytes start in a payload: after `62 xx xx ` (Mode 22) or
/// after `41 xx ` (service 01); `None` when the payload is too short or
/// has another prefix.
pub open spec fn data_start(p: Seq<u8>) -> Option<int> {
    if p.len() >= 2 && p[0] == 0x36 && p[1] == 0x32 {
        if p.len() < 9 {
            None
        } else {
            Some(9)
        }
    } else if p.len() >= 2 && p[0] == 0x34 && p[1] == 0x31 {
        if p.len() < 6 {
            None
        } else {
            Some(6)
        }
    } else {
        None
    }
}

/// The data start falls inside the encoding of a character (slicing the
/// payload there would panic).
pub open spec fn start_splits_char(p: Seq<u8>) -> bool {
    match data_start(p) {
        Some(c) => c < p.len() && is_continuation_byte(p[c]),
        None => false,
    }
}

/// The data bytes of a payload, split at spaces.
pub open spec fn data_components(p: Seq<u8>) -> Seq<Seq<u8>> {
    match data_start(p) {
        Some(c) => split_bytes(p.skip(c), 0x20),
        None => Seq::empty(),
    }
}

/// The data components of a response's payload.
pub open spec fn response_components(r: ResponseView) -> Seq<Seq<u8>> {
    match payload_of(r) {
        Some(t) => data_components(utf8_of(t)),
        None => Seq::empty(),
    }
}

/// The payload of a response can be split into data components.
pub open spec fn components_ok(r: ResponseView) -> bool {
    match payload_of(r) {
        Some(t) => !start_splits_char(utf8_of(t)),
        None => true,
    }
}

/// The data byte at position `i` can be read: either it is missing, or it is
/// a hexadecimal byte as `u8::from_str_radix(_, 16)` accepts it.
pub open spec fn component_ok(r: ResponseView, i: nat) -> bool {
    &&& components_ok(r)
    &&& (i >= response_components(r).len() || parses_hex_u8(response_components(r)[i as int]))
}

/// The value of the data byte at position `i`; 0 when it is missing.
pub open spec fn component_value(r: ResponseView, i: nat) -> u8 {
    if i >= response_components(r).len() {
        0
    } else {
        hex_u8_value(response_components(r)[i as int])
    }
}

/// A response with nothing in it.
pub open spec fn empty_response() -> ResponseView {
    ResponseView {
        raw: None,
        payload: None,
        service: seq![0u8, 0u8],
        responding_ecus: Seq::empty(),
        payload_size: 0,
    }
}

impl Default for Response {
    fn default() -> (res: Self)
        ensures
            res@ == empty_response(),
    {
        let res = Response {
            raw_response: None,
            payload: None,
            service: [0u8; 2],
            responding_ecus: Vec::new(),
            payload_size: 0,
        };
        assert(res@.service =~= seq![0u8, 0u8]);
        assert(res@.responding_ecus =~= Seq::<Seq<char>>::empty());
        res
    }
}

impl Response {
    /// A response parsed from an answer: its formatted text, the service of
    /// the answer, the ECUs that answered and the payload size; the payload
    /// is taken from the text.
    pub(crate) fn from_parts(raw: String, service: [u8; 2], responding_ecus: Vec<String>, payload_size: usize) -> (res: Self)
        ensures
            ({
                let base = ResponseView {
                    raw: Some(raw@),
                    payload: None,
                    service: service@,
                    responding_ecus: responding_ecus@.map_values(|s: String| s@),
                    payload_size: payload_size as nat,
                };
                res@ == (ResponseView { payload: Some(extracted_payload(base)), ..base })
            }),
    {
        let mut meta = Response { raw_response: Some(raw), payload: None, service, responding_ecus, payload_size };
        let payload = meta.payload_from_response();
        meta.payload = Some(payload);
        meta
    }

    /// A response that holds only its full text.
    pub fn new(raw: String) -> (res: Self)
        ensures
            res@ == (ResponseView { raw: Some(raw@), ..empty_response() }),
    {
        let mut res = Response::default();
        res.raw_response = Some(raw);
        res
    }

    /// A response that holds no data.
    pub fn no_data() -> (res: Self)
        ensures
            res@ == empty_response(),
    {
        Response::default()
    }

    /// The full response text.
    pub fn full_response(&self) -> (res: Option<String>)
        ensures
            opt_chars(res) == self@.raw,
    {
        match &self.raw_response {
            Some(s) => Some(s.clone()),
            None => None,
        }
    }

    /// How many bytes one answer holds.
    pub fn get_payload_size(&self) -> (res: &usize)
        ensures
            *res as nat == self@.payload_size,
    {
        &self.payload_size
    }

    /// The payload: the stored one, or else the one extracted from the
    /// full response.
    pub fn get_payload(&self) -> (res: Option<String>)
        ensures
            opt_chars(res) == payload_of(self@),
    {
        if self.payload.is_none() && self.raw_response.is_some() {
            return Some(self.payload_from_response());
        }
        match &self.payload {
            Some(s) => Some(s.clone()),
            None => None,
        }
    }

    /// Extracts the first answer from the full response (see
    /// [`first_answer`]), formatted as bytes separated by spaces.
    pub fn payload_from_response(&self) -> (res: String)
        ensures
            res@ == extracted_payload(self@),
    {
        let response = match &self.raw_response {
            Some(resp) => resp,
            None => return String::new(),
        };
        let raw_bytes = string_bytes(response);
        let stripped = remove_byte_vec(raw_bytes.as_slice(), 0x20);
        let ghost st = stripped@;
        let sv = self.service[1];
        let size = self.payload_size;
        let ghost target = first_answer(st, sv, size as nat, 0, false);
        let mut payload = String::new();
        let ghost mut acc: Seq<u8> = Seq::empty();
        let mut found = false;
        let mut k: usize = 0;
        let ghost mut stopped = false;
        let n = stripped.len();
        while k < n / 2
            invariant
                n == st.len(),
                stripped@ == st,
                k <= n / 2,
                acc + first_answer(st, sv, size as nat, k as nat, found) == target,
                payload@ == latin1_chars(acc),
                stopped ==> first_answer(st, sv, size as nat, k as nat, found) == Seq::<u8>::empty(),
            ensures
                first_answer(st, sv, size as nat, k as nat, found) == Seq::<u8>::empty(),
                acc + first_answer(st, sv, size as nat, k as nat, found) == target,
                payload@ == latin1_chars(acc),
            decreases n / 2 - k,
        {
            let a = stripped[2 * k];
            let b = stripped[2 * k + 1];
            let start = (a == 0x34 || a == 0x36) && b == sv;
            if start && found && k > size {
                proof {
                    stopped = true;
                }
                break;
            }
            let f = found || start;
            if f {
                string_push(&mut payload, a as char);
                string_push(&mut payload, b as char);
                proof {
                    assert(acc + first_answer(st, sv, size as nat, k as nat, found) =~= acc.push(a).push(b)
                        + first_answer(st, sv, size as nat, (k + 1) as nat, f));
                    acc = acc.push(a).push(b);
                    assert(latin1_chars(acc) =~= payload@);
                }
            } else {
                assert(Seq::<u8>::empty() + first_answer(st, sv, size as nat, (k + 1) as nat, f)
                    =~= first_answer(st, sv, size as nat, (k + 1) as nat, f));
            }
            found = f;
            k = k + 1;
        }
        proof {
            assert(acc + first_answer(st, sv, size as nat, k as nat, found) =~= acc);
            assert(acc == target);
            assert(self@.service[1] == sv);
            assert(self@.raw == Some(response@));
            assert(self@.payload_size == size as nat);
        }
        OBD::format_response(payload.as_str())
    }

    /// The data bytes of the payload, split at spaces: what follows
    /// `62 xx xx ` in a Mode 22 payload or `41 xx ` in a service 01
    /// payload; nothing for any other payload.
    pub fn get_payload_components(&self) -> (res: Vec<Vec<u8>>)
        requires
            components_ok(self@),
        ensures
            res@.len() == response_components(self@).len(),
            forall|i: int| 0 <= i < res@.len() ==> #[trigger] res@[i]@ == response_components(self@)[i],
    {
        let text = match self.get_payload() {
            Some(t) => t,
            None => return Vec::new(),
        };
        let p = string_bytes(&text);
        let n = p.len();
        let start: usize = if n >= 2 && p[0] == 0x36 && p[1] == 0x32 {
            if n < 9 {
                return Vec::new();
            }
            9
        } else if n >= 2 && p[0] == 0x34 && p[1] == 0x31 {
            if n < 6 {
                return Vec::new();
            }
            6
        } else {
            return Vec::new();
        };
        let clean = vstd::slice::slice_subrange(p.as_slice(), start, n);
        assert(clean@ =~= p@.skip(start as int));
        split_bytes_vec(clean, 0x20)
    }

    /// The value of a data byte; 0 when the payload has no such byte.
    pub fn get_component(&self, value: PayloadComponent) -> (res: u8)
        requires
            component_ok(self@, component_index(value)),
        ensures
            res == component_value(self@, component_index(value)),
    {
        let components = self.get_payload_components();
        let i = value.as_usize();
        if i >= components.len() {
            return 0;
        }
        match parse_hex_u8(components[i].as_slice()) {
            Some(v) => v,
            None => 0,
        }
    }

    /// The value of a data byte where reading it succeeds (see
    /// [`component_ok`]); `None` where the payload's data start inside a
    /// character, or the byte is not a hexadecimal number.
    pub fn checked_component(&self, value: PayloadComponent) -> (res: Option<u8>)
        ensures
            res == (if component_ok(self@, component_index(value)) {
                Some(component_value(self@, component_index(value)))
            } else {
                None
            }),
    {
        let ok = match self.get_payload() {
            None => true,
            Some(t) => {
                let p = string_bytes(&t);
                let n = p.len();
                let start: Option<usize> = if n >= 2 && p[0] == 0x36 && p[1] == 0x32 {
                    if n < 9 {
                        None
                    } else {
                        Some(9)
                    }
                } else if n >= 2 && p[0] == 0x34 && p[1] == 0x31 {
                    if n < 6 {
                        None
                    } else {
                        Some(6)
                    }
                } else {
                    None
                };
                match start {
                    Some(c) => !(c < n && 0x80 <= p[c] && p[c] <= 0xbf),
                    None => true,
                }
            },
        };
        if !ok {
            return None;
        }
        let components = self.get_payload_components();
        let i = value.as_usize();
        if i >= components.len() {
            return Some(0);
        }
        parse_hex_u8(components[i].as_slice())
    }

    /// Data byte A.
    pub fn a_value(&self) -> (res: u8)
        requires
            component_ok(self@, 0),
        ensures
            res == component_value(self@, 0),
    {
        self.get_component(PayloadComponent::A)
    }

    /// Data byte B.
    pub fn b_value(&self) -> (res: u8)
        requires
            component_ok(self@, 1),
        ensures
            res == component_value(self@, 1),
    {
        self.get_component(PayloadComponent::B)
    }

    /// Data byte C.
    pub fn c_value(&self) -> (res: u8)
        requires
            component_ok(self@, 2),
        ensures
            res == component_value(self@, 2),
    {
        self.get_component(PayloadComponent::C)
    }

    /// Data byte D.
    pub fn d_value(&self) -> (res: u8)
        requires
            component_ok(self@, 3),
        ensures
            res == component_value(self@, 3),
    {
        self.get_component(PayloadComponent::D)
    }

    /// Data byte E.
    pub fn e_value(&self) -> (res: u8)
        requires
            component_ok(self@, 4),
        ensures
            res == component_value(self@, 4),
    {
        self.get_component(PayloadComponent::E)
    }
}

} // verus!
