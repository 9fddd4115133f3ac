//! The state that an OBD session keeps apart from its serial connection,
//! and the decoding that it applies to what the adapter answers.
use vstd::prelude::*;
use vstd::utf8::*;

use crate::chars::{
    char_vec_views, chars_of, copy_chars, contains_chars, contains_vec, hex2, hex2_vec, hex_u32_or_zero, lines_of,
    lines_vec, parse_hex_u32_or_zero, remove_all, remove_all_vec, string_of_chars, words_of, words_vec,
};
use crate::cmd::{Command, CommandType, CommandView};
use crate::response::{empty_response, extracted_payload, Response, ResponseView};
use crate::scalar::UnitPreferences;
use crate::text::{lemma_spaced_pairs_valid, spaced_pairs, spaced_pairs_vec, string_from_utf8, utf8_of};

verus! {

/// Which bank of the engine a sensor belongs to.
#[derive(Debug, PartialEq, Eq, Structural, Clone, Copy)]
pub enum BankNumber {
    Bank1,
    Bank2,
}

/// The position of an oxygen (or other) sensor.
#[derive(Debug, PartialEq, Eq, Structural, Clone, Copy)]
pub enum SensorNumber {
    Sensor1,
    Sensor2,
    Sensor3,
    Sensor4,
    Sensor5,
    Sensor6,
    Sensor7,
    Sensor8,
}

/// An oxygen sensor of a bank.
#[derive(Debug, PartialEq, Eq, Structural, Clone, Copy)]
pub enum OxygenSensor {
    Sensor1,
    Sensor2,
    Sensor3,
    Sensor4,
    Sensor5,
    Sensor6,
    Sensor7,
    Sensor8,
}

/// Which OBD service a value is requested with.
#[derive(Debug, PartialEq, Eq, Structural, Clone, Copy)]
pub enum Service {
    Mode01,
    Mode22,
}

/// What can go wrong while talking to the adapter.
#[derive(Debug, PartialEq, Eq, Structural, Clone, Copy)]
pub enum OBDError {
    ConnectionFailed,
    NoConnection,
    InitFailed,
    InvalidResponse,
    InvalidCommand,
    ECUUnavailable,
    ELM327WriteError,
}

/// The text of a response with its bytes taken two by two and joined by
/// single spaces (a two-byte chunk that is not valid UTF-8 is dropped).
pub open spec fn formatted(response: Seq<char>) -> Seq<char> {
    decode_utf8(spaced_pairs(utf8_of(response)))
}

/// An OBD session's state apart from its serial connection.
pub struct OBD {
    /// The ECU whose answers are used; `None` for the first that answers.
    relevant_ecu: Option<String>,
    /// The units that values are shown in.
    unit_preferences: UnitPreferences,
    /// Requests and responses are recorded.
    record_requests: bool,
    /// Requests are answered from a recording.
    replay_requests: bool,
    /// Where requests are recorded to and replayed from.
    requests_path: String,
}

impl OBD {
    /// The ECU whose answers are used, if one was chosen.
    pub closed spec fn ecu(&self) -> Option<Seq<char>> {
        match self.relevant_ecu {
            Some(s) => Some(s@),
            None => None,
        }
    }

    /// The units that values are shown in.
    pub closed spec fn preferences(&self) -> UnitPreferences {
        self.unit_preferences
    }

    /// Requests and responses are being recorded.
    pub closed spec fn recording(&self) -> bool {
        self.record_requests
    }

    /// Requests are being answered from a recording.
    pub closed spec fn replaying(&self) -> bool {
        self.replay_requests
    }

    /// Where requests are recorded to and replayed from.
    pub closed spec fn recording_path(&self) -> Seq<char> {
        self.requests_path@
    }

    /// A session with no ECU chosen, the default units, and neither
    /// recording nor replaying.
    pub fn new() -> (res: Self)
        ensures
            res.ecu() is None,
            res.preferences() == UnitPreferences::default_spec(),
            !res.recording(),
            !res.replaying(),
            res.recording_path() == Seq::<char>::empty(),
    {
        OBD {
            relevant_ecu: None,
            unit_preferences: UnitPreferences::default(),
            record_requests: false,
            replay_requests: false,
            requests_path: String::new(),
        }
    }

    /// Uses the answers of the ECU named `default`.
    pub fn use_default_ecu(&mut self)
        ensures
            final(self).ecu() == Some("default"@),
            final(self).preferences() == old(self).preferences(),
            final(self).recording() == old(self).recording(),
            final(self).replaying() == old(self).replaying(),
            final(self).recording_path() == old(self).recording_path(),
    {
        self.relevant_ecu = Some(String::from_str("default"));
    }

    /// Uses the answers of the named ECU.
    pub fn use_ecu(&mut self, ecu_name: String)
        ensures
            final(self).ecu() == Some(ecu_name@),
            final(self).preferences() == old(self).preferences(),
            final(self).recording() == old(self).recording(),
            final(self).replaying() == old(self).replaying(),
            final(self).recording_path() == old(self).recording_path(),
    {
        self.relevant_ecu = Some(ecu_name);
    }

    /// The units that values are shown in.
    pub fn unit_preferences(&self) -> (res: UnitPreferences)
        ensures
            res == self.preferences(),
    {
        self.unit_preferences
    }

    /// Shows values in other units from now on.
    pub fn set_unit_preferences(&mut self, preferences: UnitPreferences)
        ensures
            final(self).preferences() == preferences,
            final(self).ecu() == old(self).ecu(),
            final(self).recording() == old(self).recording(),
            final(self).replaying() == old(self).replaying(),
            final(self).recording_path() == old(self).recording_path(),
    {
        self.unit_preferences = preferences;
    }

    /// Starts or stops recording. Recording starts only when the file at
    /// `path` could be opened for appending (`file_opened`), and the path
    /// is kept whenever recording is asked for.
    pub fn record_requests(&mut self, state: bool, path: String, file_opened: bool)
        ensures
            final(self).recording() == (state && file_opened),
            state ==> final(self).recording_path() == path@,
            !state ==> final(self).recording_path() == old(self).recording_path(),
            final(self).replaying() == old(self).replaying(),
            final(self).ecu() == old(self).ecu(),
            final(self).preferences() == old(self).preferences(),
    {
        if state {
            self.requests_path = path;
            self.record_requests = file_opened;
        } else {
            self.record_requests = false;
        }
    }

    /// Starts or stops replaying; starting stops recording (the replayed
    /// flags of the recording are to be reset then).
    pub fn replay_requests(&mut self, state: bool)
        ensures
            final(self).replaying() == state,
            state ==> !final(self).recording(),
            !state ==> final(self).recording() == old(self).recording(),
            final(self).recording_path() == old(self).recording_path(),
            final(self).ecu() == old(self).ecu(),
            final(self).preferences() == old(self).preferences(),
    {
        if state {
            self.record_requests = false;
        }
        self.replay_requests = state;
    }

    /// Whether requests and responses are being recorded.
    pub fn is_recording(&self) -> (res: bool)
        ensures
            res == self.recording(),
    {
        self.record_requests
    }

    /// Whether requests are being answered from a recording.
    pub fn is_replaying(&self) -> (res: bool)
        ensures
            res == self.replaying(),
    {
        self.replay_requests
    }

    /// The path requests are recorded to and replayed from.
    pub fn requests_path(&self) -> (res: &str)
        ensures
            res@ == self.recording_path(),
    {
        self.requests_path.as_str()
    }

    /// Splits a hexadecimal response into bytes separated by spaces,
    /// e.g. `"410C1AF8"` becomes `"41 0C 1A F8"`.
    pub fn format_response(response: &str) -> (res: String)
        ensures
            res@ == formatted(response@),
    {
        let b: &[u8] = response.as_bytes();
        let out = spaced_pairs_vec(b);
        proof {
            lemma_spaced_pairs_valid(b@);
        }
        match string_from_utf8(out) {
            Some(s) => s,
            None => String::new(),
        }
    }
}


/// The adapter's text with `SEARCHING...` removed and each carriage return
/// turned into a newline.
pub open spec fn cleaned(r: Seq<char>) -> Seq<char> {
    remove_all(r, "SEARCHING..."@).map_values(|c: char| if c == '\r' { '\n' } else { c })
}

/// The ECU that a line of an answer comes from: the first of at least three
/// words, when it is three bytes long (a CAN id).
pub open spec fn line_ecu(line: Seq<char>) -> Option<Seq<char>> {
    let w = words_of(line);
    if w.len() >= 3 && utf8_of(w[0]).len() == 3 {
        Some(w[0])
    } else {
        None
    }
}

/// The ECUs that the lines come from, in order.
pub open spec fn ecus_in(lines: Seq<Seq<char>>) -> Seq<Seq<char>>
    decreases lines.len(),
{
    if lines.len() == 0 {
        Seq::empty()
    } else {
        let before = ecus_in(lines.drop_last());
        match line_ecu(lines.last()) {
            Some(e) => before.push(e),
            None => before,
        }
    }
}

/// The payload size that the last line from an ECU gives in its second
/// word (hexadecimal; 0 when it is not a number, and when no line is from
/// an ECU).
pub open spec fn size_in(lines: Seq<Seq<char>>) -> u32
    decreases lines.len(),
{
    if lines.len() == 0 {
        0
    } else {
        match line_ecu(lines.last()) {
            Some(_) => hex_u32_or_zero(words_of(lines.last())[1]),
            None => size_in(lines.drop_last()),
        }
    }
}

/// The text with every occurrence of each of the first `k` names removed,
/// one name after the other.
pub open spec fn remove_names(s: Seq<char>, names: Seq<Seq<char>>, k: int) -> Seq<char>
    decreases k,
{
    if k <= 0 {
        s
    } else {
        remove_all(remove_names(s, names, k - 1), names[k - 1])
    }
}

/// The data of an answer: the cleaned text without spaces and newlines,
/// without the payload size in two-digit hexadecimal, and without the ECU
/// names.
pub open spec fn stripped(r: Seq<char>, size: u32, ecus: Seq<Seq<char>>) -> Seq<char> {
    remove_names(
        remove_all(remove_all(remove_all(r, seq![' ']), seq!['\n']), hex2(size as nat)),
        ecus,
        ecus.len() as int,
    )
}

/// The answer with every occurrence of the name of each ECU that sent it
/// removed, one name after the other.
pub open spec fn without_ecu_names(r: Seq<char>) -> Seq<char> {
    let ecus = ecus_in(lines_of(cleaned(r)));
    remove_names(r, ecus, ecus.len() as int)
}

/// The bytes of the data once formatted and without spaces: the first two
/// are the service of the answer.
pub open spec fn compact_bytes(data: Seq<char>) -> Seq<u8> {
    utf8_of(remove_all(formatted(data), seq![' ']))
}

/// What parsing an answer to a PID request gives. With no line from an
/// ECU, or `NODATA` in the data, an empty response; with less than two
/// bytes of data, an error. Otherwise the formatted data, the service of
/// the answer, the ECUs, the payload size, and the payload taken from the
/// formatted data.
pub open spec fn pid_response_of(r: Seq<char>) -> Result<ResponseView, OBDError> {
    let c = cleaned(r);
    let lines = lines_of(c);
    let ecus = ecus_in(lines);
    let size = size_in(lines);
    if ecus.len() == 0 {
        Ok(empty_response())
    } else {
        let data = stripped(c, size, ecus);
        if utf8_of(data).len() < 2 {
            Err(OBDError::InvalidResponse)
        } else if contains_chars(data, "NODATA"@) {
            Ok(empty_response())
        } else {
            let b = compact_bytes(data);
            let base = ResponseView {
                raw: Some(formatted(data)),
                payload: None,
                service: seq![b[0], b[1]],
                responding_ecus: ecus,
                payload_size: size as nat,
            };
            Ok(ResponseView { payload: Some(extracted_payload(base)), ..base })
        }
    }
}

/// Parsing the answer reads the service from its data: where the data
/// reach that point, their compacted form holds at least two bytes.
pub open spec fn pid_response_readable(r: Seq<char>) -> bool {
    let c = cleaned(r);
    let lines = lines_of(c);
    let ecus = ecus_in(lines);
    let data = stripped(c, size_in(lines), ecus);
    (ecus.len() > 0 && utf8_of(data).len() >= 2 && !contains_chars(data, "NODATA"@)) ==> compact_bytes(
        data,
    ).len() >= 2
}

/// Every ECU name takes three bytes.
proof fn lemma_ecus_three_bytes(lines: Seq<Seq<char>>)
    ensures
        forall|j: int| 0 <= j < ecus_in(lines).len() ==> utf8_of(#[trigger] ecus_in(lines)[j]).len() == 3,
    decreases lines.len(),
{
    if lines.len() > 0 {
        lemma_ecus_three_bytes(lines.drop_last());
        let before = ecus_in(lines.drop_last());
        match line_ecu(lines.last()) {
            Some(e) => {
                assert(ecus_in(lines) == before.push(e));
                assert forall|j: int| 0 <= j < ecus_in(lines).len() implies utf8_of(
                    #[trigger] ecus_in(lines)[j],
                ).len() == 3 by {
                    if j < before.len() {
                        assert(ecus_in(lines)[j] == before[j]);
                    }
                }
            },
            None => {},
        }
    }
}

/// Turns each carriage return into a newline.
fn cr_to_lf(s: &Vec<char>) -> (res: Vec<char>)
    ensures
        res@ == s@.map_values(|c: char| if c == '\r' { '\n' } else { c }),
{
    let mut out: Vec<char> = Vec::new();
    let mut i: usize = 0;
    while i < s.len()
        invariant
            i <= s@.len(),
            out@ == s@.take(i as int).map_values(|c: char| if c == '\r' { '\n' } else { c }),
        decreases s@.len() - i,
    {
        let c = s[i];
        out.push(if c == '\r' { '\n' } else { c });
        assert(s@.take(i + 1) =~= s@.take(i as int).push(c));
        assert(out@ =~= s@.take(i + 1).map_values(|c: char| if c == '\r' { '\n' } else { c }));
        i = i + 1;
    }
    assert(s@.take(s@.len() as int) =~= s@);
    out
}

/// The number of bytes that the characters take in UTF-8.
fn utf8_len(s: &Vec<char>) -> (res: usize)
    ensures
        res == utf8_of(s@).len(),
{
    let st = string_of_chars(s);
    let b: &[u8] = st.as_str().as_bytes();
    b.len()
}

impl OBD {
    /// The data of an answer and what its lines say: the ECU names (as
    /// characters and as strings), the payload size, and the cleaned text.
    fn answer_parts(response: &str) -> (res: (Vec<char>, Vec<Vec<char>>, Vec<String>, u32, Ghost<Seq<char>>))
        ensures
            ({
                let (data, ecu_chars, ecu_names, size, c) = res;
                &&& c@ == cleaned(response@)
                &&& char_vec_views(ecu_chars@) == ecus_in(lines_of(c@))
                &&& ecu_names@.map_values(|s: String| s@) == ecus_in(lines_of(c@))
                &&& size == size_in(lines_of(c@))
                &&& (ecu_chars@.len() > 0 ==> data@ == stripped(c@, size, ecus_in(lines_of(c@))))
            }),
    {
        let raw = chars_of(response);
        let searching = chars_of("SEARCHING...");
        proof {
            reveal_strlit("SEARCHING...");
        }
        let no_search = remove_all_vec(&raw, &searching);
        let c = cr_to_lf(&no_search);
        let lines = lines_vec(&c);
        let ghost lv = char_vec_views(lines@);
        let mut ecu_chars: Vec<Vec<char>> = Vec::new();
        let mut ecu_names: Vec<String> = Vec::new();
        let mut size: u32 = 0;
        let mut i: usize = 0;
        while i < lines.len()
            invariant
                lv == char_vec_views(lines@),
                lv == lines_of(c@),
                i <= lines@.len(),
                char_vec_views(ecu_chars@) == ecus_in(lv.take(i as int)),
                ecu_names@.map_values(|s: String| s@) == ecus_in(lv.take(i as int)),
                size == size_in(lv.take(i as int)),
            decreases lines@.len() - i,
        {
            assert(lv.take(i + 1).drop_last() =~= lv.take(i as int));
            assert(lv.take(i + 1).last() == lines@[i as int]@);
            let words = words_vec(&lines[i]);
            if words.len() >= 3 && utf8_len(&words[0]) == 3 {
                assert(char_vec_views(words@)[0] == words@[0]@);
                assert(char_vec_views(words@)[1] == words@[1]@);
                let ghost before = char_vec_views(ecu_chars@);
                let ghost names_before = ecu_names@.map_values(|s: String| s@);
                let first = string_of_chars(&words[0]);
                ecu_names.push(first);
                size = parse_hex_u32_or_zero(&words[1]);
                let copy = copy_chars(&words[0]);
                ecu_chars.push(copy);
                assert(char_vec_views(ecu_chars@) =~= before.push(words@[0]@));
                assert(ecu_names@.map_values(|s: String| s@) =~= names_before.push(words@[0]@));
            }
            i = i + 1;
        }
        assert(lv.take(lines@.len() as int) =~= lv);
        proof {
            lemma_ecus_three_bytes(lv);
        }
        if ecu_chars.len() == 0 {
            return (Vec::new(), ecu_chars, ecu_names, size, Ghost(c@));
        }
        let space: Vec<char> = vec![' '];
        let newline: Vec<char> = vec!['\n'];
        assert(space@ =~= seq![' ']);
        assert(newline@ =~= seq!['\n']);
        let s1 = remove_all_vec(&c, &space);
        let s2 = remove_all_vec(&s1, &newline);
        let size_text = hex2_vec(size);
        let mut data = remove_all_vec(&s2, &size_text);
        let ghost ecus = char_vec_views(ecu_chars@);
        let ghost base = data@;
        let mut k: usize = 0;
        while k < ecu_chars.len()
            invariant
                ecus == char_vec_views(ecu_chars@),
                k <= ecu_chars@.len(),
                forall|j: int| 0 <= j < ecus.len() ==> utf8_of(#[trigger] ecus[j]).len() == 3,
                data@ == remove_names(base, ecus, k as int),
            decreases ecu_chars@.len() - k,
        {
            assert(ecus[k as int] == ecu_chars@[k as int]@);
            assert(utf8_of(ecus[k as int]).len() == 3);
            assert(ecu_chars@[k as int]@.len() > 0);
            data = remove_all_vec(&data, &ecu_chars[k]);
            k = k + 1;
        }
        assert(data@ == stripped(c@, size, ecus));
        (data, ecu_chars, ecu_names, size, Ghost(c@))
    }

    /// The answer without the names of the ECUs that sent it (see
    /// [`without_ecu_names`]).
    pub fn strip_ecu_names(response: &str) -> (res: String)
        ensures
            res@ == without_ecu_names(response@),
    {
        let (_data, ecu_chars, _names, _size, Ghost(c)) = Self::answer_parts(response);
        let ghost ecus = char_vec_views(ecu_chars@);
        proof {
            lemma_ecus_three_bytes(lines_of(c));
        }
        let mut text = chars_of(response);
        let ghost base = text@;
        let mut k: usize = 0;
        while k < ecu_chars.len()
            invariant
                ecus == char_vec_views(ecu_chars@),
                k <= ecu_chars@.len(),
                forall|j: int| 0 <= j < ecus.len() ==> utf8_of(#[trigger] ecus[j]).len() == 3,
                text@ == remove_names(base, ecus, k as int),
            decreases ecu_chars@.len() - k,
        {
            assert(ecus[k as int] == ecu_chars@[k as int]@);
            assert(utf8_of(ecus[k as int]).len() == 3);
            assert(ecu_chars@[k as int]@.len() > 0);
            text = remove_all_vec(&text, &ecu_chars[k]);
            k = k + 1;
        }
        string_of_chars(&text)
    }

    /// Whether parsing the answer can read the service of its data (see
    /// [`pid_response_readable`]).
    pub fn pid_response_is_readable(response: &str) -> (res: bool)
        ensures
            res == pid_response_readable(response@),
    {
        let (data, ecu_chars, _names, _size, Ghost(c)) = Self::answer_parts(response);
        if ecu_chars.len() == 0 || utf8_len(&data) < 2 {
            return true;
        }
        let nodata = chars_of("NODATA");
        if contains_vec(&data, &nodata) {
            return true;
        }
        let space: Vec<char> = vec![' '];
        assert(space@ =~= seq![' ']);
        let data_text = string_of_chars(&data);
        let parsed = OBD::format_response(data_text.as_str());
        let parsed_chars = chars_of(parsed.as_str());
        let compact_chars = remove_all_vec(&parsed_chars, &space);
        utf8_len(&compact_chars) >= 2
    }

    /// Parses the adapter's answer to a PID request (see
    /// [`pid_response_of`]).
    pub fn parse_pid_response(&self, response: &str) -> (res: Result<Response, OBDError>)
        requires
            pid_response_readable(response@),
        ensures
            match pid_response_of(response@) {
                Ok(v) => res matches Ok(r) && r@ == v,
                Err(e) => res == Err::<Response, OBDError>(e),
            },
    {
        let (data, ecu_chars, ecu_names, size, Ghost(c)) = Self::answer_parts(response);
        let ghost ecus = ecus_in(lines_of(c));
        if ecu_chars.len() == 0 {
            return Ok(Response::no_data());
        }
        let space: Vec<char> = vec![' '];
        assert(space@ =~= seq![' ']);
        if utf8_len(&data) < 2 {
            return Err(OBDError::InvalidResponse);
        }
        let nodata = chars_of("NODATA");
        if contains_vec(&data, &nodata) {
            return Ok(Response::no_data());
        }
        let data_text = string_of_chars(&data);
        let parsed = OBD::format_response(data_text.as_str());
        let parsed_chars = chars_of(parsed.as_str());
        let compact_chars = remove_all_vec(&parsed_chars, &space);
        let compact = string_of_chars(&compact_chars);
        let bytes: &[u8] = compact.as_str().as_bytes();
        let service: [u8; 2] = [bytes[0], bytes[1]];
        proof {
            let b = compact_bytes(data@);
            assert(bytes@ == b);
            assert(service@ =~= seq![b[0], b[1]]);
        }
        let meta = Response::from_parts(parsed, service, ecu_names, size as usize);
        Ok(meta)
    }
}


/// What is sent for a command: the bytes of its PID, AT or service field
/// followed by a carriage return; other kinds of command are not sent.
pub open spec fn request_bytes_of(c: CommandView) -> Result<Seq<u8>, OBDError> {
    match c.kind {
        CommandType::PIDCommand => Ok(c.pid.push(0x0du8)),
        CommandType::ATCommand => Ok(c.at.push(0x0du8)),
        CommandType::ServiceQuery => Ok(c.svc.push(0x0du8)),
        _ => Err(OBDError::InvalidCommand),
    }
}

/// Copies bytes into a new vector.
fn bytes_vec(b: &[u8]) -> (res: Vec<u8>)
    ensures
        res@ == b@,
{
    let mut out: Vec<u8> = Vec::new();
    let mut i: usize = 0;
    while i < b.len()
        invariant
            i <= b@.len(),
            out@ == b@.take(i as int),
        decreases b@.len() - i,
    {
        out.push(b[i]);
        assert(b@.take(i + 1) =~= b@.take(i as int).push(b@[i as int]));
        i = i + 1;
    }
    assert(b@.take(b@.len() as int) =~= b@);
    out
}

impl OBD {
    /// The bytes to send for a command (see [`request_bytes_of`]).
    pub fn request_bytes(req: &Command) -> (res: Result<Vec<u8>, OBDError>)
        ensures
            match request_bytes_of(req@) {
                Ok(b) => res matches Ok(v) && v@ == b,
                Err(e) => res == Err::<Vec<u8>, OBDError>(e),
            },
    {
        let mut cmd: Vec<u8> = match req.command_type() {
            CommandType::PIDCommand => {
                let pid = req.get_pid();
                bytes_vec(&pid)
            },
            CommandType::ATCommand => bytes_vec(req.get_at()),
            CommandType::ServiceQuery => {
                let svc = req.get_svc();
                bytes_vec(&svc)
            },
            _ => return Err(OBDError::InvalidCommand),
        };
        cmd.push(0x0d);
        Ok(cmd)
    }

    /// The response to an AT command: the text read, without carriage
    /// returns.
    pub fn at_response_from(response: &str) -> (res: Response)
        ensures
            res@ == (ResponseView { raw: Some(remove_all(response@, seq!['\r'])), ..empty_response() }),
    {
        let raw = chars_of(response);
        let cr: Vec<char> = vec!['\r'];
        assert(cr@ =~= seq!['\r']);
        let cleaned = remove_all_vec(&raw, &cr);
        Response::new(string_of_chars(&cleaned))
    }
}

} // verus!
