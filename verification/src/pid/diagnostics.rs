//! Diagnostics: OBD standards, readiness tests and diagnostic trouble codes.
use vstd::prelude::*;
use vstd::utf8::*;

use crate::obd::{without_ecu_names, OBD};
use crate::response::{component_ok, component_value, Response};
use crate::pid::engine::EngineType;
use crate::text::{
    ascii_string, char_or_nul, contains_nodata, contains_pair, has_nodata, has_pair, hex_upper,
    hex_upper_byte, latin1_chars, parse_char_pair, pair_value, remove_byte, remove_byte_vec,
    split_pair, split_pair_vec, string_bytes, string_from_utf8_lossy, trim_pair_end, trimmed_len,
    utf8_lossy, utf8_of,
};

verus! {

/// The OBD standard that a vehicle conforms to.
#[derive(Debug, Clone, Copy)]
pub enum OBDStandard {
    Standard(&'static str),
}

/// The name of the OBD standard with the given number (PID `011C`).
pub open spec fn obd_standard_name(num: u8) -> &'static str {
    if num == 1 {
        "OBD-II as defined by CARB"
    } else if num == 2 {
        "OBD as defined by the EPA"
    } else if num == 3 {
        "OBD and OBD-II"
    } else if num == 4 {
        "OBD-I"
    } else if num == 5 {
        "Not OBD compliant"
    } else if num == 6 {
        "EOBD"
    } else if num == 7 {
        "EOBD and OBD-II"
    } else if num == 8 {
        "EOBD and OBD"
    } else if num == 9 {
        "EOBD, OBD and OBD-II"
    } else if num == 10 {
        "JOBD"
    } else if num == 11 {
        "JOBD and OBD-II"
    } else if num == 12 {
        "JOBD and EOBD"
    } else if num == 13 {
        "JOBD, EOBD and OBD-II"
    } else if num == 17 {
        "Engine Manufacturer Diagnostics"
    } else if num == 18 {
        "Engine Manufacturer Diagnostics Enhanced"
    } else if num == 19 {
        "Heavy Duty On-Board Diagnostics (Child/Partial)"
    } else if num == 20 {
        "Heavy Duty On-Board Diagnostics"
    } else if num == 21 {
        "World Wide Harmonized OBD"
    } else if num == 23 {
        "Heavy Duty Euro OBD Stage I without NOx control"
    } else if num == 24 {
        "Heavy Duty Euro OBD Stage I with NOx control"
    } else if num == 25 {
        "Heavy Duty Euro OBD Stage II without NOx control"
    } else if num == 26 {
        "Heavy Duty Euro OBD Stage II with NOx control"
    } else if num == 28 {
        "Brazil OBD Phase 1"
    } else if num == 29 {
        "Brazil OBD Phase 2"
    } else if num == 30 {
        "Korean OBD"
    } else if num == 31 {
        "India OBD I"
    } else if num == 32 {
        "India OBD II"
    } else if num == 33 {
        "Heavy Duty Euro OBD Stage VI"
    } else {
        "No data"
    }
}

impl OBDStandard {
    /// The standard with the given number; reserved and unavailable
    /// numbers give "No data".
    pub fn from_u8(num: u8) -> (res: Self)
        ensures
            res == OBDStandard::Standard(obd_standard_name(num)),
    {
        let name = match num {
            1u8 => "OBD-II as defined by CARB",
            2u8 => "OBD as defined by the EPA",
            3u8 => "OBD and OBD-II",
            4u8 => "OBD-I",
            5u8 => "Not OBD compliant",
            6u8 => "EOBD",
            7u8 => "EOBD and OBD-II",
            8u8 => "EOBD and OBD",
            9u8 => "EOBD, OBD and OBD-II",
            10u8 => "JOBD",
            11u8 => "JOBD and OBD-II",
            12u8 => "JOBD and EOBD",
            13u8 => "JOBD, EOBD and OBD-II",
            17u8 => "Engine Manufacturer Diagnostics",
            18u8 => "Engine Manufacturer Diagnostics Enhanced",
            19u8 => "Heavy Duty On-Board Diagnostics (Child/Partial)",
            20u8 => "Heavy Duty On-Board Diagnostics",
            21u8 => "World Wide Harmonized OBD",
            23u8 => "Heavy Duty Euro OBD Stage I without NOx control",
            24u8 => "Heavy Duty Euro OBD Stage I with NOx control",
            25u8 => "Heavy Duty Euro OBD Stage II without NOx control",
            26u8 => "Heavy Duty Euro OBD Stage II with NOx control",
            28u8 => "Brazil OBD Phase 1",
            29u8 => "Brazil OBD Phase 2",
            30u8 => "Korean OBD",
            31u8 => "India OBD I",
            32u8 => "India OBD II",
            33u8 => "Heavy Duty Euro OBD Stage VI",
            _ => "No data",
        };
        OBDStandard::Standard(name)
    }
}

/// Whether the auxiliary input (power take-off) is in use.
#[derive(Debug, PartialEq, Eq, Structural, Clone, Copy)]
pub enum AuxiliaryInputStatus {
    InUse,
    NotInUse,
}

impl AuxiliaryInputStatus {
    /// "Active" or "Inactive".
    pub fn as_str(&self) -> (res: &str)
        ensures
            res == (match *self {
                AuxiliaryInputStatus::InUse => "Active",
                AuxiliaryInputStatus::NotInUse => "Inactive",
            }),
    {
        match self {
            AuxiliaryInputStatus::InUse => "Active",
            AuxiliaryInputStatus::NotInUse => "Inactive",
        }
    }

    /// The status that bit 0 of byte A of PID `011E` reports.
    pub fn from_byte(a: u8) -> (res: Self)
        ensures
            res == (if a % 2 == 1 {
                AuxiliaryInputStatus::InUse
            } else {
                AuxiliaryInputStatus::NotInUse
            }),
    {
        let bit = a & 1;
        assert(bit == a % 2) by (bit_vector)
            requires
                bit == a & 1,
        ;
        if bit != 0 {
            AuxiliaryInputStatus::InUse
        } else {
            AuxiliaryInputStatus::NotInUse
        }
    }
}

/// Whether the malfunction indicator lamp (check engine light) is on.
#[derive(Debug, PartialEq, Eq, Structural, Clone, Copy)]
pub enum MILStatus {
    On,
    Off,
}

/// An overview of the vehicle's diagnostic state.
#[derive(Debug)]
pub struct DiagnosisStatus {
    pub mil: MILStatus,
    pub num_trouble_codes: u32,
    pub trouble_codes: Vec<TroubleCode>,
    pub engine_type: EngineType,
}

impl DiagnosisStatus {
    /// Gathers the lamp status, the number of trouble codes, the codes and
    /// the engine type.
    pub fn new(mil: MILStatus, num_trouble_codes: u32, trouble_codes: Vec<TroubleCode>, engine_type: EngineType) -> (res: Self)
        ensures
            res.mil == mil,
            res.num_trouble_codes == num_trouble_codes,
            res.trouble_codes@ == trouble_codes@,
            res.engine_type == engine_type,
    {
        DiagnosisStatus { mil, num_trouble_codes, trouble_codes, engine_type }
    }
}

/// The part of the vehicle a trouble code belongs to.
#[derive(Debug, PartialEq, Eq, Structural, Clone, Copy)]
pub enum TroubleCodeCategory {
    Powertrain,
    Chassis,
    Body,
    Network,
    Unknown,
}

/// The letter a trouble code of a category starts with.
pub open spec fn category_letter(c: TroubleCodeCategory) -> char {
    match c {
        TroubleCodeCategory::Powertrain => 'P',
        TroubleCodeCategory::Chassis => 'C',
        TroubleCodeCategory::Body => 'B',
        TroubleCodeCategory::Network => 'U',
        TroubleCodeCategory::Unknown => '?',
    }
}

/// The name of a category.
pub open spec fn category_name(c: TroubleCodeCategory) -> &'static str {
    match c {
        TroubleCodeCategory::Powertrain => "Powertrain",
        TroubleCodeCategory::Chassis => "Chassis",
        TroubleCodeCategory::Body => "Body",
        TroubleCodeCategory::Network => "Network",
        TroubleCodeCategory::Unknown => "Unknown",
    }
}

impl TroubleCodeCategory {
    /// The letter codes of this category start with.
    pub fn system_letter(&self) -> (res: char)
        ensures
            res == category_letter(*self),
    {
        match self {
            TroubleCodeCategory::Powertrain => 'P',
            TroubleCodeCategory::Chassis => 'C',
            TroubleCodeCategory::Body => 'B',
            TroubleCodeCategory::Network => 'U',
            TroubleCodeCategory::Unknown => '?',
        }
    }

    /// The name of this category.
    pub fn as_str(&self) -> (res: &str)
        ensures
            res == category_name(*self),
    {
        match self {
            TroubleCodeCategory::Powertrain => "Powertrain",
            TroubleCodeCategory::Chassis => "Chassis",
            TroubleCodeCategory::Body => "Body",
            TroubleCodeCategory::Network => "Network",
            TroubleCodeCategory::Unknown => "Unknown",
        }
    }
}

impl Default for TroubleCodeCategory {
    fn default() -> (res: Self)
        ensures
            res == TroubleCodeCategory::Unknown,
    {
        TroubleCodeCategory::Unknown
    }
}

/// A diagnostic trouble code.
#[derive(Debug)]
pub struct TroubleCode {
    pub category: TroubleCodeCategory,
    pub dtc: String,
    pub description: String,
    /// Whether this is a permanent code rather than a pending one.
    pub permanant: bool,
}

impl TroubleCode {
    /// A trouble code whose description is still the default "none"
    /// (the description is looked up in the code database by the caller).
    pub fn new(category: TroubleCodeCategory, dtc: String, permanant: bool) -> (res: Self)
        ensures
            res.category == category,
            res.dtc@ == dtc@,
            res.description@ == "none"@,
            res.permanant == permanant,
    {
        TroubleCode { category, dtc, description: String::from_str("none"), permanant }
    }
}

/// A test that an answer without data gives: named `Unknown`, neither
/// available nor complete.
pub open spec fn unknown_test() -> Test {
    Test { name: "Unknown", available: false, complete: false }
}

/// A readiness test and its state.
#[derive(Debug, Clone, Copy)]
pub struct Test {
    pub name: &'static str,
    pub available: bool,
    pub complete: bool,
}

impl Default for Test {
    fn default() -> (res: Self)
        ensures
            res == (Test { name: "", available: false, complete: false }),
    {
        Test { name: "", available: false, complete: false }
    }
}

impl Test {
    /// A test with the given state.
    pub fn new(name: &'static str, available: bool, complete: bool) -> (res: Self)
        ensures
            res == (Test { name, available, complete }),
    {
        Test { name, available, complete }
    }

    /// The test shown when the vehicle sent no data: "Unknown", neither
    /// available nor complete.
    pub fn no_data() -> (res: Self)
        ensures
            res == (Test { name: "Unknown", available: false, complete: false }),
    {
        Test { name: "Unknown", available: false, complete: false }
    }
}

/// Bit `k` (0 is the least significant) of a byte is set.
pub open spec fn bit_set(b: u8, k: nat) -> bool {
    (b as nat / pow2(k)) % 2 == 1
}

/// 2 to the power `k`.
pub open spec fn pow2(k: nat) -> nat
    decreases k,
{
    if k == 0 {
        1
    } else {
        2 * pow2((k - 1) as nat)
    }
}

/// The common readiness tests (components, fuel system, misfire) that a
/// status byte reports: bits 2, 1, 0 say a test is available; bits 6, 5, 4
/// are clear when it is complete.
pub open spec fn common_tests_of(byte: u8) -> Seq<Test> {
    seq![
        Test { name: "Components", available: bit_set(byte, 2), complete: !bit_set(byte, 6) },
        Test { name: "Fuel System", available: bit_set(byte, 1), complete: !bit_set(byte, 5) },
        Test { name: "Misfire", available: bit_set(byte, 0), complete: !bit_set(byte, 4) },
    ]
}

/// The name of advanced test `i` (0 to 7) for an engine type.
pub open spec fn advanced_test_name(engine: EngineType, i: int) -> &'static str {
    match engine {
        EngineType::SparkIgnition => if i == 0 {
            "EGR and/or VVT System"
        } else if i == 1 {
            "Oxygen Sensor Heater"
        } else if i == 2 {
            "Oxygen Sensor"
        } else if i == 3 {
            "Gasoline Particulate Filter"
        } else if i == 4 {
            "Secondary Air System"
        } else if i == 5 {
            "Evaporative System"
        } else if i == 6 {
            "Heated Catalyst"
        } else {
            "Catalyst"
        },
        EngineType::CompressionIgnition => if i == 0 {
            "EGR and/or VVT System"
        } else if i == 1 {
            "PM filter monitoring"
        } else if i == 2 {
            "Exhaust Gas Sensor"
        } else if i == 3 || i == 5 {
            "Reserved"
        } else if i == 4 {
            "Boost Pressure"
        } else if i == 6 {
            "NOx/SCR Monitor "
        } else {
            "NMHC Catalyst"
        },
        EngineType::Unknown => "Unknown",
    }
}

/// Advanced test `i` (0 to 7): available when bit `7 - i` of byte C is set,
/// complete when it is available and bit `7 - i` of byte D is clear.
pub open spec fn advanced_test_of(engine: EngineType, c: u8, d: u8, i: int) -> Test {
    let available = bit_set(c, (7 - i) as nat);
    Test {
        name: advanced_test_name(engine, i),
        available,
        complete: available && !bit_set(d, (7 - i) as nat),
    }
}

/// Whether bit `k` of a byte is set.
pub(crate) fn test_bit(b: u8, k: u8) -> (res: bool)
    requires
        k < 8,
    ensures
        res == bit_set(b, k as nat),
{
    let mask: u8 = 1u8 << k;
    let r = (b & mask) != 0;
    assert(r == ((b >> k) & 1 == 1)) by (bit_vector)
        requires
            k < 8,
            mask == 1u8 << k,
            r == ((b & mask) != 0),
    ;
    proof {
        lemma_shift_is_div(b, k);
    }
    r
}

proof fn lemma_pow2_values()
    ensures
        pow2(0) == 1,
        pow2(1) == 2,
        pow2(2) == 4,
        pow2(3) == 8,
        pow2(4) == 16,
        pow2(5) == 32,
        pow2(6) == 64,
        pow2(7) == 128,
{
    reveal_with_fuel(pow2, 8);
}

proof fn lemma_shift_is_div(b: u8, k: u8)
    requires
        k < 8,
    ensures
        ((b >> k) & 1 == 1) == bit_set(b, k as nat),
{
    lemma_pow2_values();
    let q = b >> k;
    assert(q & 1 == q % 2) by (bit_vector);
    if k == 0 {
        assert(b >> 0u8 == b / 1) by (bit_vector);
    } else if k == 1 {
        assert(b >> 1u8 == b / 2) by (bit_vector);
    } else if k == 2 {
        assert(b >> 2u8 == b / 4) by (bit_vector);
    } else if k == 3 {
        assert(b >> 3u8 == b / 8) by (bit_vector);
    } else if k == 4 {
        assert(b >> 4u8 == b / 16) by (bit_vector);
    } else if k == 5 {
        assert(b >> 5u8 == b / 32) by (bit_vector);
    } else if k == 6 {
        assert(b >> 6u8 == b / 64) by (bit_vector);
    } else {
        assert(b >> 7u8 == b / 128) by (bit_vector);
    }
}

/// Reading the common tests from a status byte: the components, fuel
/// system and misfire tests are available when bits 2, 1 and 0 are set,
/// and each is complete when the bit four places above its availability bit
/// (6, 5 and 4) is clear.
pub proof fn lemma_common_tests_masks(byte: u8)
    ensures
        common_tests_of(byte).len() == 3,
        common_tests_of(byte)[0].name == "Components",
        common_tests_of(byte)[1].name == "Fuel System",
        common_tests_of(byte)[2].name == "Misfire",
        common_tests_of(byte)[0].available == (byte & 0x04 != 0),
        common_tests_of(byte)[1].available == (byte & 0x02 != 0),
        common_tests_of(byte)[2].available == (byte & 0x01 != 0),
        common_tests_of(byte)[0].complete == (byte & (0x04u8 << 4u8) == 0),
        common_tests_of(byte)[1].complete == (byte & (0x02u8 << 4u8) == 0),
        common_tests_of(byte)[2].complete == (byte & (0x01u8 << 4u8) == 0),
{
    lemma_shift_is_div(byte, 0);
    lemma_shift_is_div(byte, 1);
    lemma_shift_is_div(byte, 2);
    lemma_shift_is_div(byte, 4);
    lemma_shift_is_div(byte, 5);
    lemma_shift_is_div(byte, 6);
    assert(((byte >> 0u8) & 1 == 1) == (byte & 0x01 != 0)) by (bit_vector);
    assert(((byte >> 1u8) & 1 == 1) == (byte & 0x02 != 0)) by (bit_vector);
    assert(((byte >> 2u8) & 1 == 1) == (byte & 0x04 != 0)) by (bit_vector);
    assert(((byte >> 4u8) & 1 == 1) == (byte & (0x01u8 << 4u8) != 0)) by (bit_vector);
    assert(((byte >> 5u8) & 1 == 1) == (byte & (0x02u8 << 4u8) != 0)) by (bit_vector);
    assert(((byte >> 6u8) & 1 == 1) == (byte & (0x04u8 << 4u8) != 0)) by (bit_vector);
}

/// The common tests depend on bits 0, 1, 2, 4, 5 and 6 of the status byte
/// alone: bytes that agree on those bits (bit 3, the engine type, and bit 7
/// aside) report the same tests.
pub proof fn lemma_common_tests_ignore_other_bits(b1: u8, b2: u8)
    requires
        b1 & 0x77 == b2 & 0x77,
    ensures
        common_tests_of(b1) == common_tests_of(b2),
{
    lemma_common_tests_masks(b1);
    lemma_common_tests_masks(b2);
    assert(b1 & 0x77 == b2 & 0x77 ==> (
        (b1 & 0x01 == b2 & 0x01) && (b1 & 0x02 == b2 & 0x02) && (b1 & 0x04 == b2 & 0x04)
        && (b1 & (0x01u8 << 4u8) == b2 & (0x01u8 << 4u8))
        && (b1 & (0x02u8 << 4u8) == b2 & (0x02u8 << 4u8))
        && (b1 & (0x04u8 << 4u8) == b2 & (0x04u8 << 4u8)))) by (bit_vector);
    assert(common_tests_of(b1) =~= common_tests_of(b2));
}

impl OBD {
    /// The common readiness tests that a status byte (byte B of PID `0101`)
    /// reports (see [`common_tests_of`]).
    pub fn common_tests_status(byte: u8) -> (res: [Test; 3])
        ensures
            res@ == common_tests_of(byte),
    {
        let res = [
            Test::new("Components", test_bit(byte, 2), !test_bit(byte, 6)),
            Test::new("Fuel System", test_bit(byte, 1), !test_bit(byte, 5)),
            Test::new("Misfire", test_bit(byte, 0), !test_bit(byte, 4)),
        ];
        assert(res@ =~= common_tests_of(byte));
        res
    }

    /// The advanced readiness tests that bytes C and D report for an
    /// engine type (see [`advanced_test_of`]).
    pub fn advanced_tests_status(engine_type: EngineType, c_byte: u8, d_byte: u8) -> (res: [Test; 8])
        ensures
            forall|i: int| 0 <= i < 8 ==> #[trigger] res@[i] == advanced_test_of(engine_type, c_byte, d_byte, i),
    {
        let mut tests: [Test; 8] = [Test::no_data();8];
        let mut index: usize = 0;
        while index < 8
            invariant
                index <= 8,
                forall|i: int| 0 <= i < index ==> #[trigger] tests@[i] == advanced_test_of(engine_type, c_byte, d_byte, i),
            decreases 8 - index,
        {
            let k = (7 - index) as u8;
            let available = test_bit(c_byte, k);
            let complete = if available {
                !test_bit(d_byte, k)
            } else {
                false
            };
            let name = match engine_type {
                EngineType::SparkIgnition => match index {
                    0 => "EGR and/or VVT System",
                    1 => "Oxygen Sensor Heater",
                    2 => "Oxygen Sensor",
                    3 => "Gasoline Particulate Filter",
                    4 => "Secondary Air System",
                    5 => "Evaporative System",
                    6 => "Heated Catalyst",
                    _ => "Catalyst",
                },
                EngineType::CompressionIgnition => match index {
                    0 => "EGR and/or VVT System",
                    1 => "PM filter monitoring",
                    2 => "Exhaust Gas Sensor",
                    3 | 5 => "Reserved",
                    4 => "Boost Pressure",
                    6 => "NOx/SCR Monitor ",
                    _ => "NMHC Catalyst",
                },
                EngineType::Unknown => "Unknown",
            };
            tests[index] = Test::new(name, available, complete);
            index = index + 1;
        }
        tests
    }

    /// The common readiness tests from an answer to PID `0101`: each
    /// without data (see [`Test::no_data`]) when the answer holds no data,
    /// otherwise read from byte B, where the OBD-II table of service 01
    /// PID 01 puts them (see [`OBD::common_tests_status`]).
    pub fn common_tests_from(response: &Response) -> (res: [Test; 3])
        requires
            response@.payload_size != 0 ==> component_ok(response@, 1),
        ensures
            response@.payload_size == 0 ==> res@ == seq![unknown_test(), unknown_test(), unknown_test()],
            response@.payload_size != 0 ==> res@ == common_tests_of(component_value(response@, 1)),
    {
        if *response.get_payload_size() == 0 {
            let res = [Test::no_data();3];
            assert(res@ =~= seq![unknown_test(), unknown_test(), unknown_test()]);
            return res;
        }
        let b = response.b_value();
        OBD::common_tests_status(b)
    }

    /// The advanced readiness tests from an answer to PID `0101` for an
    /// engine type: each without data when the answer holds no data,
    /// otherwise read from bytes C and D (see
    /// [`OBD::advanced_tests_status`]).
    pub fn advanced_tests_from(engine_type: EngineType, response: &Response) -> (res: [Test; 8])
        requires
            response@.payload_size != 0 ==> component_ok(response@, 2) && component_ok(response@, 3),
        ensures
            response@.payload_size == 0 ==> forall|i: int| 0 <= i < 8 ==> #[trigger] res@[i] == unknown_test(),
            response@.payload_size != 0 ==> forall|i: int|
                0 <= i < 8 ==> #[trigger] res@[i] == advanced_test_of(
                    engine_type,
                    component_value(response@, 2),
                    component_value(response@, 3),
                    i,
                ),
    {
        if *response.get_payload_size() == 0 {
            return [Test::no_data();8];
        }
        let c = response.c_value();
        let d = response.d_value();
        OBD::advanced_tests_status(engine_type, c, d)
    }

    /// Whether the check engine light is on: bit 7 of byte A of PID `0101`.
    pub fn check_engine_light_from(a: u8) -> (res: bool)
        ensures
            res == (a >= 128),
    {
        let r = (a & 0x80) != 0;
        assert(r == (a >= 128)) by (bit_vector)
            requires
                r == ((a & 0x80) != 0),
        ;
        r
    }

    /// The malfunction indicator lamp status that byte A of PID `0101`
    /// reports.
    pub fn mil_status_from(a: u8) -> (res: MILStatus)
        ensures
            res == (if a >= 128 {
                MILStatus::On
            } else {
                MILStatus::Off
            }),
    {
        if Self::check_engine_light_from(a) {
            MILStatus::On
        } else {
            MILStatus::Off
        }
    }

    /// The number of trouble codes: the low 7 bits of byte A of PID `0101`.
    pub fn num_trouble_codes_from(a: u8) -> (res: u32)
        ensures
            res == a % 128,
    {
        let r = a & 0x7F;
        assert(r == a % 128) by (bit_vector)
            requires
                r == a & 0x7F,
        ;
        r as u32
    }
}

// ---------------------------------------------------------------------------
// Decoding trouble codes
// ---------------------------------------------------------------------------

/// What a decoded trouble code holds (its description is "none").
pub struct CodeView {
    pub category: TroubleCodeCategory,
    pub dtc: Seq<char>,
    pub permanant: bool,
}

/// The category that bits 7 and 6 of the first byte of a code select.
pub open spec fn code_category(left: u8) -> TroubleCodeCategory {
    let hi = left / 128;
    let lo = (left / 64) % 2;
    if hi == 0 && lo == 0 {
        TroubleCodeCategory::Powertrain
    } else if hi == 0 {
        TroubleCodeCategory::Chassis
    } else if lo == 0 {
        TroubleCodeCategory::Body
    } else {
        TroubleCodeCategory::Network
    }
}

/// The text of a code from its two bytes: the category letter, bits 5 and 4
/// of the first byte as one digit, its low 4 bits as one hexadecimal
/// digit, then the second byte as two uppercase hexadecimal digits.
pub open spec fn dtc_text(left: u8, right: u8) -> Seq<char> {
    seq![
        category_letter(code_category(left)),
        hex_upper(((left / 16) % 4) as nat) as char,
        hex_upper((left % 16) as nat) as char,
        hex_upper((right / 16) as nat) as char,
        hex_upper((right % 16) as nat) as char,
    ]
}

/// The two byte values read from the `k`-th four-byte chunk: its bytes are
/// decoded as `String::from_utf8_lossy` does, and the first two and the
/// last two characters are each parsed as one hexadecimal byte.
pub open spec fn chunk_values(san: Seq<u8>, k: nat) -> (u8, u8) {
    let cs = utf8_lossy(san.subrange(4 * k as int, 4 * k as int + 4));
    (
        pair_value(char_or_nul(cs, 0), char_or_nul(cs, 1)),
        pair_value(char_or_nul(cs, 2), char_or_nul(cs, 3)),
    )
}

/// The codes read from the four-byte chunks of the code text from chunk `k`
/// on, up to the first chunk that is incomplete or reads as two zero bytes.
pub open spec fn codes_from(san: Seq<u8>, permanant: bool, k: nat) -> Seq<CodeView>
    decreases san.len() - 4 * k,
{
    if 4 * k + 4 > san.len() {
        Seq::empty()
    } else {
        let (left, right) = chunk_values(san, k);
        if left == 0 && right == 0 {
            Seq::empty()
        } else {
            seq![CodeView { category: code_category(left), dtc: dtc_text(left, right), permanant }]
                + codes_from(san, permanant, k + 1)
        }
    }
}

/// The pieces of at least 4 bytes, each without its trailing `00`s,
/// concatenated.
pub open spec fn joined_code_pieces(pieces: Seq<Seq<u8>>) -> Seq<u8>
    decreases pieces.len(),
{
    if pieces.len() == 0 {
        Seq::empty()
    } else {
        joined_code_pieces(pieces.drop_last()) + (if pieces.last().len() >= 4 {
            trim_pair_end(pieces.last(), 0x30, 0x30)
        } else {
            Seq::<u8>::empty()
        })
    }
}

/// The text of the codes in a response without carriage returns and
/// spaces: the pieces between the answer headers `ab` (`43` or `4A`).
pub open spec fn code_text(binding: Seq<u8>, a: u8, b: u8) -> Seq<u8> {
    joined_code_pieces(split_pair(binding, a, b))
}

/// The codes in a text of codes, none when it holds `NODATA`.
pub open spec fn codes_of_text(san: Seq<u8>, permanant: bool) -> Seq<CodeView> {
    if has_nodata(san) {
        Seq::empty()
    } else {
        codes_from(san, permanant, 0)
    }
}

/// The trouble codes in a response to service 03 (stored codes, answer
/// header `43`) or service 0A (permanent codes, header `4A`): carriage
/// returns and spaces are removed; the header `43` is looked for first,
/// then `4A`; a response with neither holds no code.
pub open spec fn trouble_codes_of(response: Seq<char>) -> Seq<CodeView> {
    let binding = remove_byte(remove_byte(utf8_of(response), 0x0D), 0x20);
    if has_pair(binding, 0x34, 0x33) {
        codes_of_text(code_text(binding, 0x34, 0x33), false)
    } else if has_pair(binding, 0x34, 0x41) {
        codes_of_text(code_text(binding, 0x34, 0x41), true)
    } else {
        Seq::empty()
    }
}

/// A code as decoding gives it: five characters, the letter of its
/// category first, a category that is never unknown, and the permanence
/// asked for.
pub open spec fn well_formed_code(c: CodeView, permanant: bool) -> bool {
    &&& c.dtc.len() == 5
    &&& c.dtc[0] == category_letter(c.category)
    &&& c.category != TroubleCodeCategory::Unknown
    &&& c.permanant == permanant
}

proof fn lemma_codes_from_well_formed(san: Seq<u8>, permanant: bool, k: nat)
    ensures
        forall|i: int| 0 <= i < codes_from(san, permanant, k).len() ==> well_formed_code(
            #[trigger] codes_from(san, permanant, k)[i],
            permanant,
        ),
    decreases san.len() - 4 * k,
{
    if 4 * k + 4 <= san.len() {
        lemma_codes_from_well_formed(san, permanant, k + 1);
        let (left, right) = chunk_values(san, k);
        if !(left == 0 && right == 0) {
            let head = CodeView { category: code_category(left), dtc: dtc_text(left, right), permanant };
            let all = codes_from(san, permanant, k);
            assert(all == seq![head] + codes_from(san, permanant, k + 1));
            assert forall|i: int| 0 <= i < all.len() implies well_formed_code(#[trigger] all[i], permanant) by {
                if i > 0 {
                    assert(all[i] == codes_from(san, permanant, k + 1)[i - 1]);
                }
            }
        }
    }
}

/// Every decoded trouble code has five characters, starts with the letter
/// of its category (P, C, B or U), and is permanent exactly when it comes
/// from a service 0A answer (header `4A`) rather than a service 03 one
/// (header `43`).
pub proof fn lemma_decoded_codes_well_formed(response: Seq<char>)
    ensures
        forall|i: int|
            0 <= i < trouble_codes_of(response).len() ==> {
                let binding = remove_byte(remove_byte(utf8_of(response), 0x0D), 0x20);
                well_formed_code(#[trigger] trouble_codes_of(response)[i], !has_pair(binding, 0x34, 0x33))
            },
{
    let binding = remove_byte(remove_byte(utf8_of(response), 0x0D), 0x20);
    if has_pair(binding, 0x34, 0x33) {
        lemma_codes_from_well_formed(code_text(binding, 0x34, 0x33), false, 0);
    } else if has_pair(binding, 0x34, 0x41) {
        lemma_codes_from_well_formed(code_text(binding, 0x34, 0x41), true, 0);
    }
}

/// A trouble code holds what a code view says, with the description "none".
pub open spec fn code_matches(c: TroubleCode, v: CodeView) -> bool {
    &&& c.category == v.category
    &&& c.dtc@ == v.dtc
    &&& c.description@ == "none"@
    &&& c.permanant == v.permanant
}

fn category_from_left(left: u8) -> (res: TroubleCodeCategory)
    ensures
        res == code_category(left),
{
    let bit_7 = (left & 0b1000_0000) >> 7;
    let bit_6 = (left & 0b0100_0000) >> 6;
    assert(bit_7 == left / 128 && bit_6 == (left / 64) % 2) by (bit_vector)
        requires
            bit_7 == (left & 0b1000_0000) >> 7,
            bit_6 == (left & 0b0100_0000) >> 6,
    ;
    match (bit_7, bit_6) {
        (0, 0) => TroubleCodeCategory::Powertrain,
        (0, 1) => TroubleCodeCategory::Chassis,
        (1, 0) => TroubleCodeCategory::Body,
        (1, 1) => TroubleCodeCategory::Network,
        _ => TroubleCodeCategory::Unknown,
    }
}

fn letter_byte(c: TroubleCodeCategory) -> (res: u8)
    requires
        c != TroubleCodeCategory::Unknown,
    ensures
        res as char == category_letter(c),
        res < 128,
{
    match c {
        TroubleCodeCategory::Powertrain => 0x50,
        TroubleCodeCategory::Chassis => 0x43,
        TroubleCodeCategory::Body => 0x42,
        TroubleCodeCategory::Network => 0x55,
        TroubleCodeCategory::Unknown => 0x3f,
    }
}

/// The uppercase hexadecimal digits, in order of value.
pub open spec fn hex_digits_text() -> Seq<char> {
    "0123456789ABCDEF"@
}

proof fn lemma_hex_upper_is_digit(v: nat)
    requires
        v < 16,
    ensures
        hex_upper(v) as char == hex_digits_text()[v as int],
        hex_digits_text().len() == 16,
{
    reveal_strlit("0123456789ABCDEF");
    assert(hex_digits_text() =~= seq!['0', '1', '2', '3', '4', '5', '6', '7', '8', '9', 'A', 'B', 'C', 'D', 'E', 'F']);
}

/// The code of two bytes spells them out (SAE J2012): the letter for bits
/// 7-6 of the first byte (P, C, B, U), then bits 5-4 of the first byte as a
/// digit 0-3, then the low four bits of the first byte and the high and low
/// four bits of the second, each as an uppercase hexadecimal digit.
pub proof fn lemma_dtc_text_spells_bytes(left: u8, right: u8)
    ensures
        dtc_text(left, right).len() == 5,
        dtc_text(left, right)[0] == (if left >= 0xC0 {
            'U'
        } else if left >= 0x80 {
            'B'
        } else if left >= 0x40 {
            'C'
        } else {
            'P'
        }),
        dtc_text(left, right)[1] == hex_digits_text()[((left >> 4u8) & 3u8) as int],
        dtc_text(left, right)[2] == hex_digits_text()[(left & 15u8) as int],
        dtc_text(left, right)[3] == hex_digits_text()[(right >> 4u8) as int],
        dtc_text(left, right)[4] == hex_digits_text()[(right & 15u8) as int],
{
    assert(((left >> 4u8) & 3u8) == (left / 16) % 4 && (left & 15u8) == left % 16 && (right >> 4u8) == right / 16
        && (right & 15u8) == right % 16) by (bit_vector);
    lemma_hex_upper_is_digit(((left / 16) % 4) as nat);
    lemma_hex_upper_is_digit((left % 16) as nat);
    lemma_hex_upper_is_digit((right / 16) as nat);
    lemma_hex_upper_is_digit((right % 16) as nat);
}

/// Different byte pairs give different codes: a code determines the two
/// bytes it was decoded from.
pub proof fn lemma_dtc_text_injective(l1: u8, r1: u8, l2: u8, r2: u8)
    ensures
        dtc_text(l1, r1) == dtc_text(l2, r2) ==> l1 == l2 && r1 == r2,
{
    if dtc_text(l1, r1) == dtc_text(l2, r2) {
        lemma_dtc_text_spells_bytes(l1, r1);
        lemma_dtc_text_spells_bytes(l2, r2);
        reveal_strlit("0123456789ABCDEF");
        let t = hex_digits_text();
        assert(t =~= seq!['0', '1', '2', '3', '4', '5', '6', '7', '8', '9', 'A', 'B', 'C', 'D', 'E', 'F']);
        assert(forall|i: int, j: int| 0 <= i < 16 && 0 <= j < 16 && t[i] == t[j] ==> i == j);
        let a1 = (l1 >> 4u8) & 3u8;
        let a2 = (l2 >> 4u8) & 3u8;
        let b1 = l1 & 15u8;
        let b2 = l2 & 15u8;
        let c1 = r1 >> 4u8;
        let c2 = r2 >> 4u8;
        let d1 = r1 & 15u8;
        let d2 = r2 & 15u8;
        assert(((l1 >> 4u8) & 3u8) < 16 && ((l2 >> 4u8) & 3u8) < 16 && (l1 & 15u8) < 16 && (l2 & 15u8) < 16 && (r1
            >> 4u8) < 16 && (r2 >> 4u8) < 16 && (r1 & 15u8) < 16 && (r2 & 15u8) < 16) by (bit_vector);
        assert(dtc_text(l1, r1)[1] == dtc_text(l2, r2)[1]);
        assert(dtc_text(l1, r1)[2] == dtc_text(l2, r2)[2]);
        assert(dtc_text(l1, r1)[3] == dtc_text(l2, r2)[3]);
        assert(dtc_text(l1, r1)[4] == dtc_text(l2, r2)[4]);
        assert(dtc_text(l1, r1)[0] == dtc_text(l2, r2)[0]);
        assert(a1 == a2 && b1 == b2 && c1 == c2 && d1 == d2);
        let h1 = l1 >> 6u8;
        let h2 = l2 >> 6u8;
        assert(((l1 >> 6u8) == 3 <==> l1 >= 0xC0) && ((l1 >> 6u8) == 2 <==> (0x80 <= l1 && l1 < 0xC0)) && ((l1
            >> 6u8) == 1 <==> (0x40 <= l1 && l1 < 0x80)) && ((l1 >> 6u8) == 0 <==> l1 < 0x40)) by (bit_vector);
        assert(((l2 >> 6u8) == 3 <==> l2 >= 0xC0) && ((l2 >> 6u8) == 2 <==> (0x80 <= l2 && l2 < 0xC0)) && ((l2
            >> 6u8) == 1 <==> (0x40 <= l2 && l2 < 0x80)) && ((l2 >> 6u8) == 0 <==> l2 < 0x40)) by (bit_vector);
        assert(h1 == h2);
        assert(l1 == l2 && r1 == r2) by (bit_vector)
            requires
                ((l1 >> 4u8) & 3u8) == ((l2 >> 4u8) & 3u8),
                (l1 & 15u8) == (l2 & 15u8),
                (r1 >> 4u8) == (r2 >> 4u8),
                (r1 & 15u8) == (r2 & 15u8),
                (l1 >> 6u8) == (l2 >> 6u8),
        ;
    }
}

/// The trouble code that two bytes encode.
fn code_from_bytes(left: u8, right: u8, permanant: bool) -> (res: TroubleCode)
    ensures
        code_matches(res, CodeView { category: code_category(left), dtc: dtc_text(left, right), permanant }),
{
    let category = category_from_left(left);
    let bit_5 = (left & 0b0010_0000) >> 5;
    let bit_4 = (left & 0b0001_0000) >> 4;
    let c2 = (bit_5 << 1) | bit_4;
    let new_left = left & 0b0000_1111;
    let hi = right >> 4;
    let lo = right & 0x0f;
    assert(c2 == (left / 16) % 4 && new_left == left % 16 && hi == right / 16 && lo == right % 16)
        by (bit_vector)
        requires
            bit_5 == (left & 0b0010_0000) >> 5,
            bit_4 == (left & 0b0001_0000) >> 4,
            c2 == (bit_5 << 1) | bit_4,
            new_left == left & 0b0000_1111,
            hi == right >> 4,
            lo == right & 0x0f,
    ;
    let mut text: Vec<u8> = Vec::new();
    text.push(letter_byte(category));
    text.push(hex_upper_byte(c2));
    text.push(hex_upper_byte(new_left));
    text.push(hex_upper_byte(hi));
    text.push(hex_upper_byte(lo));
    let ghost tv = text@;
    let dtc = ascii_string(text);
    assert(dtc@ =~= dtc_text(left, right)) by {
        assert(dtc@ == latin1_chars(tv));
    }
    TroubleCode::new(category, dtc, permanant)
}

/// Concatenates the pieces of at least 4 bytes, each without its trailing
/// `00`s.
fn join_code_pieces(pieces: &Vec<Vec<u8>>) -> (res: Vec<u8>)
    ensures
        res@ == joined_code_pieces(pieces@.map_values(|p: Vec<u8>| p@)),
{
    let ghost ps = pieces@.map_values(|p: Vec<u8>| p@);
    let mut out: Vec<u8> = Vec::new();
    let mut i: usize = 0;
    while i < pieces.len()
        invariant
            i <= pieces@.len(),
            ps == pieces@.map_values(|p: Vec<u8>| p@),
            out@ == joined_code_pieces(ps.take(i as int)),
        decreases pieces@.len() - i,
    {
        assert(ps.take(i + 1).drop_last() =~= ps.take(i as int));
        assert(ps.take(i + 1).last() == pieces@[i as int]@);
        let piece = &pieces[i];
        if piece.len() >= 4 {
            let keep = trimmed_len(piece.as_slice(), 0x30, 0x30);
            let ghost before = out@;
            let mut j: usize = 0;
            while j < keep
                invariant
                    j <= keep,
                    keep <= piece@.len(),
                    out@ == before + piece@.take(j as int),
                decreases keep - j,
            {
                assert(piece@.take(j + 1) =~= piece@.take(j as int).push(piece@[j as int]));
                out.push(piece[j]);
                j = j + 1;
            }
        } else {
            assert(out@ + Seq::<u8>::empty() =~= out@);
        }
        i = i + 1;
    }
    assert(ps.take(pieces@.len() as int) =~= ps);
    out
}

/// The two byte values of the `k`-th four-byte chunk (see [`chunk_values`]).
fn read_chunk(san: &[u8], k: usize) -> (res: (u8, u8))
    requires
        4 * k + 4 <= san.len(),
    ensures
        res == chunk_values(san@, k as nat),
{
    let chunk = vstd::slice::slice_subrange(san, 4 * k, 4 * k + 4);
    let s = string_from_utf8_lossy(chunk);
    let st: &str = s.as_str();
    let len = st.unicode_len();
    let a = if len > 0 { st.get_char(0) } else { '\0' };
    let b = if len > 1 { st.get_char(1) } else { '\0' };
    let c = if len > 2 { st.get_char(2) } else { '\0' };
    let d = if len > 3 { st.get_char(3) } else { '\0' };
    let ghost cs = utf8_lossy(san@.subrange(4 * k as int, 4 * k as int + 4));
    assert(st@ == cs);
    assert(a == char_or_nul(cs, 0));
    assert(b == char_or_nul(cs, 1));
    assert(c == char_or_nul(cs, 2));
    assert(d == char_or_nul(cs, 3));
    (parse_char_pair(a, b), parse_char_pair(c, d))
}

/// One step of [`codes_from`] on a complete chunk.
proof fn lemma_codes_from_step(san: Seq<u8>, permanant: bool, k: nat)
    requires
        4 * k + 4 <= san.len(),
    ensures
        ({
            let (left, right) = chunk_values(san, k);
            &&& (left == 0 && right == 0) ==> codes_from(san, permanant, k) == Seq::<CodeView>::empty()
            &&& !(left == 0 && right == 0) ==> codes_from(san, permanant, k) == seq![
                CodeView { category: code_category(left), dtc: dtc_text(left, right), permanant },
            ] + codes_from(san, permanant, k + 1)
        }),
{
}

/// Reads the codes of the four-byte chunks of a code text.
fn codes_from_text(san: &[u8], permanant: bool) -> (res: Vec<TroubleCode>)
    ensures
        res@.len() == codes_from(san@, permanant, 0).len(),
        forall|i: int| 0 <= i < res@.len() ==> code_matches(#[trigger] res@[i], codes_from(san@, permanant, 0)[i]),
{
    let ghost target = codes_from(san@, permanant, 0);
    let mut codes: Vec<TroubleCode> = Vec::new();
    let n = san.len();
    let mut k: usize = 0;
    let ghost mut stopped = false;
    while k < n / 4
        invariant
            n == san@.len(),
            k <= n / 4,
            codes@.len() + codes_from(san@, permanant, k as nat).len() == target.len(),
            forall|i: int| 0 <= i < codes@.len() ==> code_matches(#[trigger] codes@[i], target[i]),
            forall|i: int| 0 <= i < codes_from(san@, permanant, k as nat).len() ==>
                #[trigger] codes_from(san@, permanant, k as nat)[i] == target[codes@.len() + i],
            stopped ==> codes_from(san@, permanant, k as nat).len() == 0,
        ensures
            codes_from(san@, permanant, k as nat).len() == 0,
            codes@.len() + codes_from(san@, permanant, k as nat).len() == target.len(),
            forall|i: int| 0 <= i < codes@.len() ==> code_matches(#[trigger] codes@[i], target[i]),
        decreases n / 4 - k,
    {
        let (left, right) = read_chunk(san, k);
        proof {
            lemma_codes_from_step(san@, permanant, k as nat);
        }
        if left == 0 && right == 0 {
            proof {
                stopped = true;
            }
            break;
        }
        let ghost cur = codes_from(san@, permanant, k as nat);
        let ghost rest = codes_from(san@, permanant, (k + 1) as nat);
        let ghost old_codes = codes@;
        let code = code_from_bytes(left, right, permanant);
        codes.push(code);
        proof {
            assert(cur[0] == target[old_codes.len() as int]);
            assert forall|i: int| 0 <= i < codes@.len() implies code_matches(#[trigger] codes@[i], target[i]) by {
                if i < old_codes.len() {
                    assert(codes@[i] == old_codes[i]);
                }
            }
            assert forall|i: int| 0 <= i < rest.len() implies #[trigger] rest[i] == target[codes@.len() + i] by {
                assert(rest[i] == cur[i + 1]);
            }
        }
        k = k + 1;
    }
    codes
}

impl OBD {
    /// Decodes the trouble codes in a response to service 03 or 0A, once
    /// the names of the ECUs that sent it are removed (see
    /// [`without_ecu_names`] and [`trouble_codes_of`]). Each code gets the
    /// description "none".
    pub fn decode_trouble_codes(response: &str) -> (res: Vec<TroubleCode>)
        ensures
            res@.len() == trouble_codes_of(without_ecu_names(response@)).len(),
            forall|i: int|
                0 <= i < res@.len() ==> code_matches(
                    #[trigger] res@[i],
                    trouble_codes_of(without_ecu_names(response@))[i],
                ),
    {
        let stripped = OBD::strip_ecu_names(response);
        let raw: &[u8] = stripped.as_str().as_bytes();
        let no_cr = remove_byte_vec(raw, 0x0D);
        let binding = remove_byte_vec(no_cr.as_slice(), 0x20);
        let (a, b, permanant) = if contains_pair(binding.as_slice(), 0x34, 0x33) {
            (0x34u8, 0x33u8, false)
        } else if contains_pair(binding.as_slice(), 0x34, 0x41) {
            (0x34u8, 0x41u8, true)
        } else {
            return Vec::new();
        };
        let pieces = split_pair_vec(binding.as_slice(), a, b);
        assert(pieces@.map_values(|p: Vec<u8>| p@) =~= split_pair(binding@, a, b));
        let sanitized = join_code_pieces(&pieces);
        if contains_nodata(sanitized.as_slice()) {
            return Vec::new();
        }
        codes_from_text(sanitized.as_slice(), permanant)
    }
}

} // verus!
