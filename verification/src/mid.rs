//! On-board monitoring tests (service 06): which MIDs a vehicle supports,
//! the MID of each monitor, and how a test result is judged.
use vstd::prelude::*;

use crate::obd::{BankNumber, SensorNumber, OBD};
use crate::pid::diagnostics::{bit_set, test_bit};
use crate::chars::{chars_of, clipped, clipped_vec, dec_u8_or_zero, parse_dec_u8_or_zero};
use crate::response::{component_ok, component_value, Response};
use crate::text::{hex_upper, hex_upper_byte, string_push};

verus! {

/// The size of the leak that an EVAP monitor test looks for.
#[derive(Debug, PartialEq, Eq, Structural, Clone, Copy)]
pub enum EvapLeakSize {
    /// 0.150 inch (or the cap off).
    Large,
    /// 0.090 inch.
    Medium,
    /// 0.040 inch.
    Small,
    /// 0.020 inch.
    Tiny,
}

/// A cylinder of the engine.
#[derive(Debug, PartialEq, Eq, Structural, Clone, Copy)]
pub enum CylinderNumber {
    Cylinder1,
    Cylinder2,
    Cylinder3,
    Cylinder4,
    Cylinder5,
    Cylinder6,
    Cylinder7,
    Cylinder8,
    Cylinder9,
    Cylinder10,
    Cylinder11,
    Cylinder12,
}

/// The result of a monitor test: the value measured and the limits it
/// must lie within.
#[derive(Debug, Clone, Copy)]
pub struct MonitorTest {
    /// The least value allowed.
    pub min: u64,
    /// The greatest value allowed.
    pub max: u64,
    /// The value measured.
    pub value: u64,
    /// The MID of the test.
    pub mid: [u8; 2],
}

impl MonitorTest {
    /// The test passed: its value lies within its limits, both included.
    pub fn has_passed(&self) -> (res: bool)
        ensures
            res == (self.min <= self.value && self.value <= self.max),
    {
        self.value >= self.min && self.value <= self.max
    }
}

/// The name of the monitor with a MID (`Unknown Monitor` for one the
/// library does not know).
pub open spec fn mid_name(mid: u8) -> &'static str {
    match mid {
        0x01u8 => "O2 Sensor Monitor Bank 1 - Sensor 1",
        0x02u8 => "O2 Sensor Monitor Bank 1 - Sensor 2",
        0x03u8 => "O2 Sensor Monitor Bank 1 - Sensor 3",
        0x04u8 => "O2 Sensor Monitor Bank 1 - Sensor 4",
        0x05u8 => "O2 Sensor Monitor Bank 2 - Sensor 1",
        0x06u8 => "O2 Sensor Monitor Bank 2 - Sensor 2",
        0x07u8 => "O2 Sensor Monitor Bank 2 - Sensor 3",
        0x08u8 => "O2 Sensor Monitor Bank 2 - Sensor 4",
        0x09u8 => "O2 Sensor Monitor Bank 3 - Sensor 1",
        0x0Au8 => "O2 Sensor Monitor Bank 3 - Sensor 2",
        0x0Bu8 => "O2 Sensor Monitor Bank 3 - Sensor 3",
        0x0Cu8 => "O2 Sensor Monitor Bank 3 - Sensor 4",
        0x0Du8 => "O2 Sensor Monitor Bank 4 - Sensor 1",
        0x0Eu8 => "O2 Sensor Monitor Bank 4 - Sensor 2",
        0x0Fu8 => "O2 Sensor Monitor Bank 4 - Sensor 3",
        0x10u8 => "O2 Sensor Monitor Bank 4 - Sensor 4",
        0x21u8 => "Catalyst Monitor Bank 1",
        0x22u8 => "Catalyst Monitor Bank 2",
        0x23u8 => "Catalyst Monitor Bank 3",
        0x24u8 => "Catalyst Monitor Bank 4",
        0x31u8 => "EGR Monitor Bank 1",
        0x32u8 => "EGR Monitor Bank 2",
        0x33u8 => "EGR Monitor Bank 3",
        0x34u8 => "EGR Monitor Bank 4",
        0x35u8 => "VVT Monitor Bank 1",
        0x36u8 => "VVT Monitor Bank 2",
        0x37u8 => "VVT Monitor Bank 3",
        0x38u8 => "VVT Monitor Bank 4",
        0x39u8 => "EVAP Monitor (Cap Off / 0.150\")",
        0x3Au8 => "EVAP Monitor (0.090\")",
        0x3Bu8 => "EVAP Monitor (0.040\")",
        0x3Cu8 => "EVAP Monitor (0.020\")",
        0x3Du8 => "Purge Flow Monitor",
        0x41u8 => "O2 Sensor Heater Monitor Bank 1 - Sensor 1",
        0x42u8 => "O2 Sensor Heater Monitor Bank 1 - Sensor 2",
        0x43u8 => "O2 Sensor Heater Monitor Bank 1 - Sensor 3",
        0x44u8 => "O2 Sensor Heater Monitor Bank 1 - Sensor 4",
        0x45u8 => "O2 Sensor Heater Monitor Bank 2 - Sensor 1",
        0x46u8 => "O2 Sensor Heater Monitor Bank 2 - Sensor 2",
        0x47u8 => "O2 Sensor Heater Monitor Bank 2 - Sensor 3",
        0x48u8 => "O2 Sensor Heater Monitor Bank 2 - Sensor 4",
        0x49u8 => "O2 Sensor Heater Monitor Bank 3 - Sensor 1",
        0x4Au8 => "O2 Sensor Heater Monitor Bank 3 - Sensor 2",
        0x4Bu8 => "O2 Sensor Heater Monitor Bank 3 - Sensor 3",
        0x4Cu8 => "O2 Sensor Heater Monitor Bank 3 - Sensor 4",
        0x4Du8 => "O2 Sensor Heater Monitor Bank 4 - Sensor 1",
        0x4Eu8 => "O2 Sensor Heater Monitor Bank 4 - Sensor 2",
        0x4Fu8 => "O2 Sensor Heater Monitor Bank 4 - Sensor 3",
        0x50u8 => "O2 Sensor Heater Monitor Bank 4 - Sensor 4",
        0x61u8 => "Heated Catalyst Monitor Bank 1",
        0x62u8 => "Heated Catalyst Monitor Bank 2",
        0x63u8 => "Heated Catalyst Monitor Bank 3",
        0x64u8 => "Heated Catalyst Monitor Bank 4",
        0x71u8 => "Secondary Air Monitor 1",
        0x72u8 => "Secondary Air Monitor 2",
        0x73u8 => "Secondary Air Monitor 3",
        0x74u8 => "Secondary Air Monitor 4",
        0x81u8 => "Fuel System Monitor Bank 1",
        0x82u8 => "Fuel System Monitor Bank 2",
        0x83u8 => "Fuel System Monitor Bank 3",
        0x84u8 => "Fuel System Monitor Bank 4",
        0x85u8 => "Boost Pressure Control Monitor Bank 1",
        0x86u8 => "Boost Pressure Control Monitor Bank 2",
        0x90u8 => "NOx Absorber Monitor Bank 1",
        0x91u8 => "NOx Absorber Monitor Bank 2",
        0x98u8 => "NOx Catalyst Monitor Bank 1",
        0x99u8 => "NOx Catalyst Monitor Bank 2",
        0xA1u8 => "Misfire Monitor General Data",
        0xA2u8 => "Misfire Cylinder 1 Data",
        0xA3u8 => "Misfire Cylinder 2 Data",
        0xA4u8 => "Misfire Cylinder 3 Data",
        0xA5u8 => "Misfire Cylinder 4 Data",
        0xA6u8 => "Misfire Cylinder 5 Data",
        0xA7u8 => "Misfire Cylinder 6 Data",
        0xA8u8 => "Misfire Cylinder 7 Data",
        0xA9u8 => "Misfire Cylinder 8 Data",
        0xAAu8 => "Misfire Cylinder 9 Data",
        0xABu8 => "Misfire Cylinder 10 Data",
        0xACu8 => "Misfire Cylinder 11 Data",
        0xADu8 => "Misfire Cylinder 12 Data",
        0xB0u8 => "PM Filter Monitor Bank 1",
        0xB1u8 => "PM Filter Monitor Bank 2",
        _ => "Unknown Monitor",
    }
}

/// The name of the monitor with a MID (see [`mid_name`]).
pub fn mid_test_name(mid: u8) -> (res: &'static str)
    ensures
        res == mid_name(mid),
{
    match mid {
            0x01u8 => "O2 Sensor Monitor Bank 1 - Sensor 1",
            0x02u8 => "O2 Sensor Monitor Bank 1 - Sensor 2",
            0x03u8 => "O2 Sensor Monitor Bank 1 - Sensor 3",
            0x04u8 => "O2 Sensor Monitor Bank 1 - Sensor 4",
            0x05u8 => "O2 Sensor Monitor Bank 2 - Sensor 1",
            0x06u8 => "O2 Sensor Monitor Bank 2 - Sensor 2",
            0x07u8 => "O2 Sensor Monitor Bank 2 - Sensor 3",
            0x08u8 => "O2 Sensor Monitor Bank 2 - Sensor 4",
            0x09u8 => "O2 Sensor Monitor Bank 3 - Sensor 1",
            0x0Au8 => "O2 Sensor Monitor Bank 3 - Sensor 2",
            0x0Bu8 => "O2 Sensor Monitor Bank 3 - Sensor 3",
            0x0Cu8 => "O2 Sensor Monitor Bank 3 - Sensor 4",
            0x0Du8 => "O2 Sensor Monitor Bank 4 - Sensor 1",
            0x0Eu8 => "O2 Sensor Monitor Bank 4 - Sensor 2",
            0x0Fu8 => "O2 Sensor Monitor Bank 4 - Sensor 3",
            0x10u8 => "O2 Sensor Monitor Bank 4 - Sensor 4",
            0x21u8 => "Catalyst Monitor Bank 1",
            0x22u8 => "Catalyst Monitor Bank 2",
            0x23u8 => "Catalyst Monitor Bank 3",
            0x24u8 => "Catalyst Monitor Bank 4",
            0x31u8 => "EGR Monitor Bank 1",
            0x32u8 => "EGR Monitor Bank 2",
            0x33u8 => "EGR Monitor Bank 3",
            0x34u8 => "EGR Monitor Bank 4",
            0x35u8 => "VVT Monitor Bank 1",
            0x36u8 => "VVT Monitor Bank 2",
            0x37u8 => "VVT Monitor Bank 3",
            0x38u8 => "VVT Monitor Bank 4",
            0x39u8 => "EVAP Monitor (Cap Off / 0.150\")",
            0x3Au8 => "EVAP Monitor (0.090\")",
            0x3Bu8 => "EVAP Monitor (0.040\")",
            0x3Cu8 => "EVAP Monitor (0.020\")",
            0x3Du8 => "Purge Flow Monitor",
            0x41u8 => "O2 Sensor Heater Monitor Bank 1 - Sensor 1",
            0x42u8 => "O2 Sensor Heater Monitor Bank 1 - Sensor 2",
            0x43u8 => "O2 Sensor Heater Monitor Bank 1 - Sensor 3",
            0x44u8 => "O2 Sensor Heater Monitor Bank 1 - Sensor 4",
            0x45u8 => "O2 Sensor Heater Monitor Bank 2 - Sensor 1",
            0x46u8 => "O2 Sensor Heater Monitor Bank 2 - Sensor 2",
            0x47u8 => "O2 Sensor Heater Monitor Bank 2 - Sensor 3",
            0x48u8 => "O2 Sensor Heater Monitor Bank 2 - Sensor 4",
            0x49u8 => "O2 Sensor Heater Monitor Bank 3 - Sensor 1",
            0x4Au8 => "O2 Sensor Heater Monitor Bank 3 - Sensor 2",
            0x4Bu8 => "O2 Sensor Heater Monitor Bank 3 - Sensor 3",
            0x4Cu8 => "O2 Sensor Heater Monitor Bank 3 - Sensor 4",
            0x4Du8 => "O2 Sensor Heater Monitor Bank 4 - Sensor 1",
            0x4Eu8 => "O2 Sensor Heater Monitor Bank 4 - Sensor 2",
            0x4Fu8 => "O2 Sensor Heater Monitor Bank 4 - Sensor 3",
            0x50u8 => "O2 Sensor Heater Monitor Bank 4 - Sensor 4",
            0x61u8 => "Heated Catalyst Monitor Bank 1",
            0x62u8 => "Heated Catalyst Monitor Bank 2",
            0x63u8 => "Heated Catalyst Monitor Bank 3",
            0x64u8 => "Heated Catalyst Monitor Bank 4",
            0x71u8 => "Secondary Air Monitor 1",
            0x72u8 => "Secondary Air Monitor 2",
            0x73u8 => "Secondary Air Monitor 3",
            0x74u8 => "Secondary Air Monitor 4",
            0x81u8 => "Fuel System Monitor Bank 1",
            0x82u8 => "Fuel System Monitor Bank 2",
            0x83u8 => "Fuel System Monitor Bank 3",
            0x84u8 => "Fuel System Monitor Bank 4",
            0x85u8 => "Boost Pressure Control Monitor Bank 1",
            0x86u8 => "Boost Pressure Control Monitor Bank 2",
            0x90u8 => "NOx Absorber Monitor Bank 1",
            0x91u8 => "NOx Absorber Monitor Bank 2",
            0x98u8 => "NOx Catalyst Monitor Bank 1",
            0x99u8 => "NOx Catalyst Monitor Bank 2",
            0xA1u8 => "Misfire Monitor General Data",
            0xA2u8 => "Misfire Cylinder 1 Data",
            0xA3u8 => "Misfire Cylinder 2 Data",
            0xA4u8 => "Misfire Cylinder 3 Data",
            0xA5u8 => "Misfire Cylinder 4 Data",
            0xA6u8 => "Misfire Cylinder 5 Data",
            0xA7u8 => "Misfire Cylinder 6 Data",
            0xA8u8 => "Misfire Cylinder 7 Data",
            0xA9u8 => "Misfire Cylinder 8 Data",
            0xAAu8 => "Misfire Cylinder 9 Data",
            0xABu8 => "Misfire Cylinder 10 Data",
            0xACu8 => "Misfire Cylinder 11 Data",
            0xADu8 => "Misfire Cylinder 12 Data",
            0xB0u8 => "PM Filter Monitor Bank 1",
            0xB1u8 => "PM Filter Monitor Bank 2",
        _ => "Unknown Monitor",
    }
}

/// The label of a monitor test from its MID text: characters 3-4 and 5-6,
/// each cut to the text's length and read as a decimal number (0 where they
/// are not one).
pub open spec fn monitor_label(mid: Seq<char>) -> Seq<u8> {
    seq![dec_u8_or_zero(clipped(mid, 2, 4)), dec_u8_or_zero(clipped(mid, 4, 6))]
}

/// The key of a MID: `06` and the MID as two uppercase hexadecimal digits.
pub open spec fn mid_key(mid: u8) -> Seq<char> {
    seq!['0', '6', hex_upper(mid as nat / 16) as char, hex_upper(mid as nat % 16) as char]
}

/// The MIDs that a support byte reports for the MIDs from `base`: `base + k`
/// for each set bit `k` among the lowest `n`, in order.
pub open spec fn mids_in(byte: u8, base: u8, n: nat) -> Seq<u8>
    decreases n,
{
    if n == 0 {
        Seq::empty()
    } else {
        let before = mids_in(byte, base, (n - 1) as nat);
        if bit_set(byte, (n - 1) as nat) {
            before.push((base + n - 1) as u8)
        } else {
            before
        }
    }
}

/// The MIDs that a support byte reports lie in `[base, base + n)`, in
/// increasing order.
proof fn lemma_mids_in_increasing(byte: u8, base: u8, n: nat)
    requires
        base + n <= 256,
    ensures
        forall|i: int| 0 <= i < mids_in(byte, base, n).len() ==> base <= #[trigger] mids_in(byte, base, n)[i] < base + n,
        forall|i: int, j: int|
            0 <= i < j < mids_in(byte, base, n).len() ==> #[trigger] mids_in(byte, base, n)[i] < #[trigger] mids_in(
                byte,
                base,
                n,
            )[j],
    decreases n,
{
    if n > 0 {
        let m = (n - 1) as nat;
        lemma_mids_in_increasing(byte, base, m);
        let before = mids_in(byte, base, m);
        let all = mids_in(byte, base, n);
        let top = (base + n - 1) as u8;
        assert(top == base + n - 1);
        if bit_set(byte, m) {
            assert(all == before.push(top));
            assert forall|i: int| 0 <= i < all.len() implies base <= #[trigger] all[i] < base + n by {
                if i < before.len() {
                    assert(all[i] == before[i]);
                }
            }
            assert forall|i: int, j: int| 0 <= i < j < all.len() implies #[trigger] all[i] < #[trigger] all[j] by {
                assert(all[i] == before[i]);
                if j < before.len() {
                    assert(all[j] == before[j]);
                }
            }
        } else {
            assert(all == before);
        }
    }
}

/// Different MIDs have different keys.
proof fn lemma_mid_key_injective(a: u8, b: u8)
    ensures
        mid_key(a) == mid_key(b) ==> a == b,
{
    if mid_key(a) == mid_key(b) {
        assert(mid_key(a)[2] == mid_key(b)[2]);
        assert(mid_key(a)[3] == mid_key(b)[3]);
        let ha = hex_upper(a as nat / 16);
        let hb = hex_upper(b as nat / 16);
        let la = hex_upper(a as nat % 16);
        let lb = hex_upper(b as nat % 16);
        assert((ha as char) as u32 == ha as u32);
        assert((hb as char) as u32 == hb as u32);
        assert((la as char) as u32 == la as u32);
        assert((lb as char) as u32 == lb as u32);
        assert(ha == hb);
        assert(la == lb);
        assert(a as nat / 16 == b as nat / 16);
        assert(a as nat % 16 == b as nat % 16);
    }
}

/// The MIDs that the five bytes of a `0600` answer report supported:
/// byte A for MIDs from 0x01, B from 0x21, C from 0x41, D from 0x61 and E
/// from 0x81.
pub open spec fn supported_mids(bytes: Seq<u8>) -> Seq<u8> {
    mids_in(bytes[0], 0x01, 8) + mids_in(bytes[1], 0x21, 8) + mids_in(bytes[2], 0x41, 8)
        + mids_in(bytes[3], 0x61, 8) + mids_in(bytes[4], 0x81, 8)
}

/// Strictly increasing.
pub open spec fn increasing(s: Seq<u8>) -> bool {
    forall|i: int, j: int| 0 <= i < j < s.len() ==> #[trigger] s[i] < #[trigger] s[j]
}

proof fn lemma_concat_increasing(a: Seq<u8>, b: Seq<u8>, bound: int, top: int)
    requires
        increasing(a),
        increasing(b),
        forall|i: int| 0 <= i < a.len() ==> #[trigger] a[i] < bound,
        forall|i: int| 0 <= i < b.len() ==> bound <= #[trigger] b[i] < top,
        bound <= top,
    ensures
        increasing(a + b),
        forall|i: int| 0 <= i < (a + b).len() ==> #[trigger] (a + b)[i] < top,
{
    let c = a + b;
    assert forall|i: int, j: int| 0 <= i < j < c.len() implies #[trigger] c[i] < #[trigger] c[j] by {
        if j < a.len() {
            assert(c[i] == a[i] && c[j] == a[j]);
        } else if i < a.len() {
            assert(c[i] == a[i] && c[j] == b[j - a.len()]);
        } else {
            assert(c[i] == b[i - a.len()] && c[j] == b[j - a.len()]);
        }
    }
    assert forall|i: int| 0 <= i < c.len() implies #[trigger] c[i] < top by {
        if i < a.len() {
            assert(c[i] == a[i]);
        } else {
            assert(c[i] == b[i - a.len()]);
        }
    }
}

/// The supported MIDs of a `0600` answer come in increasing order, so none
/// occurs twice.
pub proof fn lemma_supported_mids_increasing(bytes: Seq<u8>)
    requires
        bytes.len() == 5,
    ensures
        increasing(supported_mids(bytes)),
{
    let ma = mids_in(bytes[0], 0x01, 8);
    let mb = mids_in(bytes[1], 0x21, 8);
    let mc = mids_in(bytes[2], 0x41, 8);
    let md = mids_in(bytes[3], 0x61, 8);
    let me = mids_in(bytes[4], 0x81, 8);
    lemma_mids_in_increasing(bytes[0], 0x01, 8);
    lemma_mids_in_increasing(bytes[1], 0x21, 8);
    lemma_mids_in_increasing(bytes[2], 0x41, 8);
    lemma_mids_in_increasing(bytes[3], 0x61, 8);
    lemma_mids_in_increasing(bytes[4], 0x81, 8);
    lemma_concat_increasing(ma, mb, 0x21, 0x29);
    lemma_concat_increasing(ma + mb, mc, 0x41, 0x49);
    lemma_concat_increasing(ma + mb + mc, md, 0x61, 0x69);
    lemma_concat_increasing(ma + mb + mc + md, me, 0x81, 0x89);
}

/// A supported MID as the library lists it: its key and its name.
pub open spec fn mid_entry_matches(entry: (String, &'static str), mid: u8) -> bool {
    entry.0@ == mid_key(mid) && entry.1 == mid_name(mid)
}

/// The key of a MID (see [`mid_key`]).
pub fn mid_key_string(mid: u8) -> (res: String)
    ensures
        res@ == mid_key(mid),
{
    let mut s = String::new();
    string_push(&mut s, '0');
    string_push(&mut s, '6');
    let hi = hex_upper_byte(mid / 16);
    let lo = hex_upper_byte(mid % 16);
    string_push(&mut s, hi as char);
    string_push(&mut s, lo as char);
    s
}

/// The MID of the oxygen sensor monitor of a bank and sensor (sensors 1 to 4 of banks 1 and 2).
pub open spec fn oxygen_sensor_monitor_mid_spec(bank: BankNumber, sensor: SensorNumber) -> Option<&'static str> {
    match (bank, sensor) {
        (BankNumber::Bank1, SensorNumber::Sensor1) => Some("0601"),
        (BankNumber::Bank1, SensorNumber::Sensor2) => Some("0602"),
        (BankNumber::Bank1, SensorNumber::Sensor3) => Some("0603"),
        (BankNumber::Bank1, SensorNumber::Sensor4) => Some("0604"),
        (BankNumber::Bank2, SensorNumber::Sensor1) => Some("0605"),
        (BankNumber::Bank2, SensorNumber::Sensor2) => Some("0606"),
        (BankNumber::Bank2, SensorNumber::Sensor3) => Some("0607"),
        (BankNumber::Bank2, SensorNumber::Sensor4) => Some("0608"),
        _ => None,
    }
}

/// The MID of the catalyst monitor of a bank.
pub open spec fn catalyst_monitor_mid_spec(bank: BankNumber) -> &'static str {
    match bank {
        BankNumber::Bank1 => "0621",
        BankNumber::Bank2 => "0622",
    }
}

/// The MID of the exhaust gas recirculation monitor of a bank.
pub open spec fn egr_monitor_mid_spec(bank: BankNumber) -> &'static str {
    match bank {
        BankNumber::Bank1 => "0631",
        BankNumber::Bank2 => "0632",
    }
}

/// The MID of the variable valve timing monitor of a bank.
pub open spec fn vvt_monitor_mid_spec(bank: BankNumber) -> &'static str {
    match bank {
        BankNumber::Bank1 => "0635",
        BankNumber::Bank2 => "0636",
    }
}

/// The MID of the EVAP monitor for a leak size.
pub open spec fn evap_monitor_mid_spec(leak_size: EvapLeakSize) -> &'static str {
    match leak_size {
        EvapLeakSize::Large => "0639",
        EvapLeakSize::Medium => "063A",
        EvapLeakSize::Small => "063B",
        EvapLeakSize::Tiny => "063C",
    }
}

/// The MID of the oxygen sensor heater monitor of a bank and sensor (sensors 1 to 4 of banks 1 and 2).
pub open spec fn oxygen_sensor_heater_mid_spec(bank: BankNumber, sensor: SensorNumber) -> Option<&'static str> {
    match (bank, sensor) {
        (BankNumber::Bank1, SensorNumber::Sensor1) => Some("0641"),
        (BankNumber::Bank1, SensorNumber::Sensor2) => Some("0642"),
        (BankNumber::Bank1, SensorNumber::Sensor3) => Some("0643"),
        (BankNumber::Bank1, SensorNumber::Sensor4) => Some("0644"),
        (BankNumber::Bank2, SensorNumber::Sensor1) => Some("0645"),
        (BankNumber::Bank2, SensorNumber::Sensor2) => Some("0646"),
        (BankNumber::Bank2, SensorNumber::Sensor3) => Some("0647"),
        (BankNumber::Bank2, SensorNumber::Sensor4) => Some("0648"),
        _ => None,
    }
}

/// The MID of the heated catalyst monitor of a bank.
pub open spec fn heated_catalyst_monitor_mid_spec(bank: BankNumber) -> &'static str {
    match bank {
        BankNumber::Bank1 => "0661",
        BankNumber::Bank2 => "0662",
    }
}

/// The MID of secondary air monitor 1 to 4.
pub open spec fn secondary_air_monitor_mid_spec(id: u8) -> Option<&'static str> {
    match id {
        1u8 => Some("0671"),
        2u8 => Some("0672"),
        3u8 => Some("0673"),
        4u8 => Some("0674"),
        _ => None,
    }
}

/// The MID of the fuel system monitor of a bank.
pub open spec fn fuel_system_monitor_mid_spec(bank: BankNumber) -> &'static str {
    match bank {
        BankNumber::Bank1 => "0681",
        BankNumber::Bank2 => "0682",
    }
}

/// The MID of the boost pressure control monitor of a bank.
pub open spec fn boost_pressure_control_monitor_mid_spec(bank: BankNumber) -> &'static str {
    match bank {
        BankNumber::Bank1 => "0685",
        BankNumber::Bank2 => "0686",
    }
}

/// The MID of the NOx absorber monitor of a bank.
pub open spec fn nox_absorber_monitor_mid_spec(bank: BankNumber) -> &'static str {
    match bank {
        BankNumber::Bank1 => "0690",
        BankNumber::Bank2 => "0691",
    }
}

/// The MID of the NOx catalyst monitor of a bank.
pub open spec fn nox_catalyst_monitor_mid_spec(bank: BankNumber) -> &'static str {
    match bank {
        BankNumber::Bank1 => "0698",
        BankNumber::Bank2 => "0699",
    }
}

/// The MID of the misfire monitor of a cylinder.
pub open spec fn misfire_cylinder_monitor_mid_spec(cylinder: CylinderNumber) -> &'static str {
    match cylinder {
        CylinderNumber::Cylinder1 => "06A2",
        CylinderNumber::Cylinder2 => "06A3",
        CylinderNumber::Cylinder3 => "06A4",
        CylinderNumber::Cylinder4 => "06A5",
        CylinderNumber::Cylinder5 => "06A6",
        CylinderNumber::Cylinder6 => "06A7",
        CylinderNumber::Cylinder7 => "06A8",
        CylinderNumber::Cylinder8 => "06A9",
        CylinderNumber::Cylinder9 => "06AA",
        CylinderNumber::Cylinder10 => "06AB",
        CylinderNumber::Cylinder11 => "06AC",
        CylinderNumber::Cylinder12 => "06AD",
    }
}

/// The MID of the particulate matter filter monitor of a bank.
pub open spec fn pm_filter_monitor_mid_spec(bank: BankNumber) -> &'static str {
    match bank {
        BankNumber::Bank1 => "06B0",
        BankNumber::Bank2 => "06B1",
    }
}

impl OBD {
    /// Lists the MIDs that a support byte reports (see [`mids_in`]) after
    /// those already listed; each MID must be a byte.
    pub fn check_mid(byte: u8, base: u8, mids: &mut Vec<(String, &'static str)>)
        requires
            forall|k: nat| k < 8 && #[trigger] bit_set(byte, k) ==> base + k <= 255,
        ensures
            final(mids)@.len() == old(mids)@.len() + mids_in(byte, base, 8).len(),
            forall|i: int| 0 <= i < old(mids)@.len() ==> #[trigger] final(mids)@[i] == old(mids)@[i],
            forall|i: int|
                0 <= i < mids_in(byte, base, 8).len() ==> mid_entry_matches(
                    #[trigger] final(mids)@[old(mids)@.len() + i],
                    mids_in(byte, base, 8)[i],
                ),
    {
        let ghost start = mids@;
        let mut bit: u8 = 0;
        while bit < 8
            invariant
                bit <= 8,
                forall|k: nat| k < 8 && #[trigger] bit_set(byte, k) ==> base + k <= 255,
                mids@.len() == start.len() + mids_in(byte, base, bit as nat).len(),
                forall|i: int| 0 <= i < start.len() ==> #[trigger] mids@[i] == start[i],
                forall|i: int|
                    0 <= i < mids_in(byte, base, bit as nat).len() ==> mid_entry_matches(
                        #[trigger] mids@[start.len() + i],
                        mids_in(byte, base, bit as nat)[i],
                    ),
            decreases 8 - bit,
        {
            if test_bit(byte, bit) {
                let mid = base + bit;
                let key = mid_key_string(mid);
                let name = mid_test_name(mid);
                mids.push((key, name));
            }
            bit = bit + 1;
        }
    }

    /// The supported MIDs that the data bytes of a `0600` answer report (see
    /// [`supported_mids`]), each with its key and name; none when the answer
    /// holds no data.
    pub fn supported_mids_from(response: &Response) -> (res: Vec<(String, &'static str)>)
        requires
            response@.payload_size != 0 ==> forall|i: nat| i < 5 ==> #[trigger] crate::response::component_ok(response@, i),
        ensures
            response@.payload_size == 0 ==> res@.len() == 0,
            response@.payload_size != 0 ==> {
                let mids = supported_mids(seq![
                    crate::response::component_value(response@, 0),
                    crate::response::component_value(response@, 1),
                    crate::response::component_value(response@, 2),
                    crate::response::component_value(response@, 3),
                    crate::response::component_value(response@, 4),
                ]);
                &&& res@.len() == mids.len()
                &&& forall|i: int| 0 <= i < mids.len() ==> mid_entry_matches(#[trigger] res@[i], mids[i])
            },
            forall|i: int, j: int| 0 <= i < j < res@.len() ==> (#[trigger] res@[i]).0@ != (#[trigger] res@[j]).0@,
    {
        let mut mids: Vec<(String, &'static str)> = Vec::new();
        if *response.get_payload_size() == 0 {
            return mids;
        }
        assert(crate::response::component_ok(response@, 0));
        assert(crate::response::component_ok(response@, 1));
        assert(crate::response::component_ok(response@, 2));
        assert(crate::response::component_ok(response@, 3));
        assert(crate::response::component_ok(response@, 4));
        let a = response.a_value();
        let b = response.b_value();
        let c = response.c_value();
        let d = response.d_value();
        let e = response.e_value();
        Self::check_mid(a, 0x01, &mut mids);
        let ghost s1 = mids@;
        Self::check_mid(b, 0x21, &mut mids);
        let ghost s2 = mids@;
        Self::check_mid(c, 0x41, &mut mids);
        let ghost s3 = mids@;
        Self::check_mid(d, 0x61, &mut mids);
        let ghost s4 = mids@;
        Self::check_mid(e, 0x81, &mut mids);
        proof {
            let ma = mids_in(a, 0x01, 8);
            let mb = mids_in(b, 0x21, 8);
            let mc = mids_in(c, 0x41, 8);
            let md = mids_in(d, 0x61, 8);
            let me = mids_in(e, 0x81, 8);
            let all = supported_mids(seq![a, b, c, d, e]);
            assert(all =~= ma + mb + mc + md + me);
            let la = ma.len() as int;
            let lb = la + mb.len();
            let lc = lb + mc.len();
            let ld = lc + md.len();
            assert forall|i: int| 0 <= i < all.len() implies mid_entry_matches(#[trigger] mids@[i], all[i]) by {
                if i < la {
                    assert(mid_entry_matches(s1[0 + i], ma[i]));
                    assert(mids@[i] == s4[i] && s4[i] == s3[i] && s3[i] == s2[i] && s2[i] == s1[i]);
                } else if i < lb {
                    assert(mid_entry_matches(s2[la + (i - la)], mb[i - la]));
                    assert(mids@[i] == s4[i] && s4[i] == s3[i] && s3[i] == s2[i]);
                } else if i < lc {
                    assert(mid_entry_matches(s3[lb + (i - lb)], mc[i - lb]));
                    assert(mids@[i] == s4[i] && s4[i] == s3[i]);
                } else if i < ld {
                    assert(mid_entry_matches(s4[lc + (i - lc)], md[i - lc]));
                    assert(mids@[i] == s4[i]);
                } else {
                    assert(mid_entry_matches(mids@[ld + (i - ld)], me[i - ld]));
                }
            }
            lemma_supported_mids_increasing(seq![a, b, c, d, e]);
            assert forall|i: int, j: int| 0 <= i < j < mids@.len() implies (#[trigger] mids@[i]).0@ != (
            #[trigger] mids@[j]).0@ by {
                assert(mid_entry_matches(mids@[i], all[i]));
                assert(mid_entry_matches(mids@[j], all[j]));
                assert(all[i] < all[j]);
                lemma_mid_key_injective(all[i], all[j]);
            }
        }
        mids
    }

    /// The MID of the oxygen sensor monitor of a bank and sensor (sensors 1 to 4 of banks 1 and 2).
    pub fn oxygen_sensor_monitor_mid(bank: BankNumber, sensor: SensorNumber) -> (res: Option<&'static str>)
        ensures
            res == oxygen_sensor_monitor_mid_spec(bank, sensor),
    {
        match (bank, sensor) {
            (BankNumber::Bank1, SensorNumber::Sensor1) => Some("0601"),
            (BankNumber::Bank1, SensorNumber::Sensor2) => Some("0602"),
            (BankNumber::Bank1, SensorNumber::Sensor3) => Some("0603"),
            (BankNumber::Bank1, SensorNumber::Sensor4) => Some("0604"),
            (BankNumber::Bank2, SensorNumber::Sensor1) => Some("0605"),
            (BankNumber::Bank2, SensorNumber::Sensor2) => Some("0606"),
            (BankNumber::Bank2, SensorNumber::Sensor3) => Some("0607"),
            (BankNumber::Bank2, SensorNumber::Sensor4) => Some("0608"),
            _ => None,
        }
    }

    /// The MID of the catalyst monitor of a bank.
    pub fn catalyst_monitor_mid(bank: BankNumber) -> (res: &'static str)
        ensures
            res == catalyst_monitor_mid_spec(bank),
    {
        match bank {
            BankNumber::Bank1 => "0621",
            BankNumber::Bank2 => "0622",
        }
    }

    /// The MID of the exhaust gas recirculation monitor of a bank.
    pub fn egr_monitor_mid(bank: BankNumber) -> (res: &'static str)
        ensures
            res == egr_monitor_mid_spec(bank),
    {
        match bank {
            BankNumber::Bank1 => "0631",
            BankNumber::Bank2 => "0632",
        }
    }

    /// The MID of the variable valve timing monitor of a bank.
    pub fn vvt_monitor_mid(bank: BankNumber) -> (res: &'static str)
        ensures
            res == vvt_monitor_mid_spec(bank),
    {
        match bank {
            BankNumber::Bank1 => "0635",
            BankNumber::Bank2 => "0636",
        }
    }

    /// The MID of the EVAP monitor for a leak size.
    pub fn evap_monitor_mid(leak_size: EvapLeakSize) -> (res: &'static str)
        ensures
            res == evap_monitor_mid_spec(leak_size),
    {
        match leak_size {
            EvapLeakSize::Large => "0639",
            EvapLeakSize::Medium => "063A",
            EvapLeakSize::Small => "063B",
            EvapLeakSize::Tiny => "063C",
        }
    }

    /// The MID of the oxygen sensor heater monitor of a bank and sensor (sensors 1 to 4 of banks 1 and 2).
    pub fn oxygen_sensor_heater_mid(bank: BankNumber, sensor: SensorNumber) -> (res: Option<&'static str>)
        ensures
            res == oxygen_sensor_heater_mid_spec(bank, sensor),
    {
        match (bank, sensor) {
            (BankNumber::Bank1, SensorNumber::Sensor1) => Some("0641"),
            (BankNumber::Bank1, SensorNumber::Sensor2) => Some("0642"),
            (BankNumber::Bank1, SensorNumber::Sensor3) => Some("0643"),
            (BankNumber::Bank1, SensorNumber::Sensor4) => Some("0644"),
            (BankNumber::Bank2, SensorNumber::Sensor1) => Some("0645"),
            (BankNumber::Bank2, SensorNumber::Sensor2) => Some("0646"),
            (BankNumber::Bank2, SensorNumber::Sensor3) => Some("0647"),
            (BankNumber::Bank2, SensorNumber::Sensor4) => Some("0648"),
            _ => None,
        }
    }

    /// The MID of the heated catalyst monitor of a bank.
    pub fn heated_catalyst_monitor_mid(bank: BankNumber) -> (res: &'static str)
        ensures
            res == heated_catalyst_monitor_mid_spec(bank),
    {
        match bank {
            BankNumber::Bank1 => "0661",
            BankNumber::Bank2 => "0662",
        }
    }

    /// The MID of secondary air monitor 1 to 4.
    pub fn secondary_air_monitor_mid(id: u8) -> (res: Option<&'static str>)
        ensures
            res == secondary_air_monitor_mid_spec(id),
    {
        match id {
            1u8 => Some("0671"),
            2u8 => Some("0672"),
            3u8 => Some("0673"),
            4u8 => Some("0674"),
            _ => None,
        }
    }

    /// The MID of the fuel system monitor of a bank.
    pub fn fuel_system_monitor_mid(bank: BankNumber) -> (res: &'static str)
        ensures
            res == fuel_system_monitor_mid_spec(bank),
    {
        match bank {
            BankNumber::Bank1 => "0681",
            BankNumber::Bank2 => "0682",
        }
    }

    /// The MID of the boost pressure control monitor of a bank.
    pub fn boost_pressure_control_monitor_mid(bank: BankNumber) -> (res: &'static str)
        ensures
            res == boost_pressure_control_monitor_mid_spec(bank),
    {
        match bank {
            BankNumber::Bank1 => "0685",
            BankNumber::Bank2 => "0686",
        }
    }

    /// The MID of the NOx absorber monitor of a bank.
    pub fn nox_absorber_monitor_mid(bank: BankNumber) -> (res: &'static str)
        ensures
            res == nox_absorber_monitor_mid_spec(bank),
    {
        match bank {
            BankNumber::Bank1 => "0690",
            BankNumber::Bank2 => "0691",
        }
    }

    /// The MID of the NOx catalyst monitor of a bank.
    pub fn nox_catalyst_monitor_mid(bank: BankNumber) -> (res: &'static str)
        ensures
            res == nox_catalyst_monitor_mid_spec(bank),
    {
        match bank {
            BankNumber::Bank1 => "0698",
            BankNumber::Bank2 => "0699",
        }
    }

    /// The MID of the misfire monitor of a cylinder.
    pub fn misfire_cylinder_monitor_mid(cylinder: CylinderNumber) -> (res: &'static str)
        ensures
            res == misfire_cylinder_monitor_mid_spec(cylinder),
    {
        match cylinder {
            CylinderNumber::Cylinder1 => "06A2",
            CylinderNumber::Cylinder2 => "06A3",
            CylinderNumber::Cylinder3 => "06A4",
            CylinderNumber::Cylinder4 => "06A5",
            CylinderNumber::Cylinder5 => "06A6",
            CylinderNumber::Cylinder6 => "06A7",
            CylinderNumber::Cylinder7 => "06A8",
            CylinderNumber::Cylinder8 => "06A9",
            CylinderNumber::Cylinder9 => "06AA",
            CylinderNumber::Cylinder10 => "06AB",
            CylinderNumber::Cylinder11 => "06AC",
            CylinderNumber::Cylinder12 => "06AD",
        }
    }

    /// The MID of the particulate matter filter monitor of a bank.
    pub fn pm_filter_monitor_mid(bank: BankNumber) -> (res: &'static str)
        ensures
            res == pm_filter_monitor_mid_spec(bank),
    {
        match bank {
            BankNumber::Bank1 => "06B0",
            BankNumber::Bank2 => "06B1",
        }
    }

    /// The result of a monitor test from its answer and the MID text it was
    /// requested with: all zero when the answer holds no data; otherwise
    /// the test value is byte A, the least allowed value byte B and the
    /// greatest byte C, and the test is labelled with the MID text's
    /// characters 3-4 and 5-6 (cut to its length), each read as a decimal
    /// number (see [`monitor_label`]).
    pub fn monitor_test_from(response: &Response, mid: &str) -> (res: MonitorTest)
        requires
            response@.payload_size != 0 ==> component_ok(response@, 0) && component_ok(response@, 1)
                && component_ok(response@, 2),
        ensures
            response@.payload_size == 0 ==> res.min == 0 && res.max == 0 && res.value == 0 && res.mid
                == [0u8, 0u8],
            response@.payload_size != 0 ==> {
                &&& res.value == component_value(response@, 0)
                &&& res.min == component_value(response@, 1)
                &&& res.max == component_value(response@, 2)
                &&& res.mid@ == monitor_label(mid@)
            },
    {
        if *response.get_payload_size() == 0 {
            return MonitorTest { min: 0, max: 0, value: 0, mid: [0, 0] };
        }
        let value = response.a_value();
        let min = response.b_value();
        let max = response.c_value();
        let text = chars_of(mid);
        let first = parse_dec_u8_or_zero(&clipped_vec(&text, 2, 4));
        let second = parse_dec_u8_or_zero(&clipped_vec(&text, 4, 6));
        let res = MonitorTest { min: min as u64, max: max as u64, value: value as u64, mid: [first, second] };
        assert(res.mid@ =~= monitor_label(mid@));
        res
    }
}

} // verus!
