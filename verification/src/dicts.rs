//! What the library knows of each PID: its mode, unit, name and formula.
use vstd::prelude::*;

use crate::text::str_eq;

verus! {

/// A PID as the user interface lists it.
#[derive(Debug, Clone, Copy)]
pub struct PidInfo {
    /// The vehicle reports it.
    pub supported: bool,
    /// Its number, in hexadecimal.
    pub pid: &'static str,
    /// Its mode (service), in hexadecimal.
    pub mode: &'static str,
    /// The unit of its value.
    pub unit: &'static str,
    /// Its name.
    pub pid_name: &'static str,
    /// How its value is computed from the data bytes.
    pub formula: &'static str,
}


/// The views of some strings.
pub open spec fn texts(v: Seq<String>) -> Seq<Seq<char>> {
    v.map_values(|s: String| s@)
}

/// The PID marked supported exactly when its number is among the
/// supported ones.
pub open spec fn marked(p: PidInfo, supported: Seq<Seq<char>>) -> PidInfo {
    PidInfo { supported: supported.contains(p.pid@), ..p }
}

/// The PIDs, each marked (see [`marked`]).
pub open spec fn marked_all(infos: Seq<PidInfo>, supported: Seq<Seq<char>>) -> Seq<PidInfo> {
    infos.map_values(|p: PidInfo| marked(p, supported))
}

/// The PID list as it is shown: each PID marked, the supported ones
/// first, each group in the order of the table.
pub open spec fn pid_listing(infos: Seq<PidInfo>, supported: Seq<Seq<char>>) -> Seq<PidInfo> {
    let m = marked_all(infos, supported);
    m.filter(|p: PidInfo| p.supported) + m.filter(|p: PidInfo| !p.supported)
}

/// Whether the text is one of the strings.
fn contains_text(v: &Vec<String>, t: &str) -> (res: bool)
    ensures
        res == texts(v@).contains(t@),
{
    let mut i: usize = 0;
    while i < v.len()
        invariant
            i <= v@.len(),
            forall|j: int| 0 <= j < i ==> v@[j]@ != t@,
        decreases v@.len() - i,
    {
        if str_eq(v[i].as_str(), t) {
            assert(texts(v@)[i as int] == t@);
            return true;
        }
        i = i + 1;
    }
    assert forall|j: int| 0 <= j < texts(v@).len() implies texts(v@)[j] != t@ by {
        assert(texts(v@)[j] == v@[j]@);
    }
    false
}

/// The PID list as it is shown (see [`pid_listing`]).
pub fn list_pids(infos: &Vec<PidInfo>, supported: &Vec<String>) -> (res: Vec<PidInfo>)
    ensures
        res@ == pid_listing(infos@, texts(supported@)),
{
    let ghost m = marked_all(infos@, texts(supported@));
    let n = infos.len();
    let mut yes: Vec<PidInfo> = Vec::new();
    let mut no: Vec<PidInfo> = Vec::new();
    let mut i: usize = 0;
    while i < n
        invariant
            n == infos@.len(),
            m == marked_all(infos@, texts(supported@)),
            i <= n,
            yes@ == m.take(i as int).filter(|p: PidInfo| p.supported),
            no@ == m.take(i as int).filter(|p: PidInfo| !p.supported),
        decreases n - i,
    {
        let p = infos[i];
        let q = PidInfo { supported: contains_text(supported, p.pid), ..p };
        proof {
            reveal(Seq::filter);
            assert(m.take(i + 1).drop_last() =~= m.take(i as int));
            assert(m.take(i + 1).last() == q);
        }
        if q.supported {
            yes.push(q);
        } else {
            no.push(q);
        }
        i = i + 1;
    }
    assert(m.take(n as int) =~= m);
    let mut out = yes;
    let mut k: usize = 0;
    let ghost first = out@;
    while k < no.len()
        invariant
            k <= no@.len(),
            out@ == first + no@.take(k as int),
        decreases no@.len() - k,
    {
        out.push(no[k]);
        assert(no@.take(k + 1) =~= no@.take(k as int).push(no@[k as int]));
        k = k + 1;
    }
    assert(no@.take(no@.len() as int) =~= no@);
    out
}

/// Every PID is listed once, marked: the listing is as long as the table,
/// and the supported PIDs come before the others.
pub proof fn lemma_listing_shape(infos: Seq<PidInfo>, supported: Seq<Seq<char>>)
    ensures
        pid_listing(infos, supported).len() == infos.len(),
        forall|i: int, j: int|
            0 <= i < j < infos.len() && (#[trigger] pid_listing(infos, supported)[j]).supported
                ==> (#[trigger] pid_listing(infos, supported)[i]).supported,
{
    let m = marked_all(infos, supported);
    let pos = |p: PidInfo| p.supported;
    let neg = |p: PidInfo| !p.supported;
    lemma_filter_split_len(m, pos, neg);
    m.filter_lemma(pos);
    m.filter_lemma(neg);
    let l = pid_listing(infos, supported);
    let a = m.filter(pos);
    assert forall|i: int, j: int| 0 <= i < j < infos.len() && (#[trigger] l[j]).supported implies (#[trigger] l[i]).supported by {
        if j >= a.len() {
            assert(l[j] == m.filter(neg)[j - a.len()]);
            assert(!l[j].supported);
        } else {
            assert(l[i] == a[i]);
        }
    }
}

/// A sequence splits into the items that satisfy a predicate and those
/// that satisfy its negation.
proof fn lemma_filter_split_len(m: Seq<PidInfo>, pos: spec_fn(PidInfo) -> bool, neg: spec_fn(PidInfo) -> bool)
    requires
        forall|p: PidInfo| #[trigger] neg(p) == !pos(p),
    ensures
        m.filter(pos).len() + m.filter(neg).len() == m.len(),
    decreases m.len(),
{
    reveal(Seq::filter);
    if m.len() > 0 {
        lemma_filter_split_len(m.drop_last(), pos, neg);
    }
}


/// The PIDs that the library knows, in the order they are listed: their
/// numbers, modes, units, names and formulas, none yet marked supported
/// but control module voltage (PID 42).
pub open spec fn pid_table() -> Seq<PidInfo> {
    seq![
        PidInfo { supported: false, pid: "01", mode: "01", unit: "", pid_name: "Monitor status since DTCs cleared", formula: "" },
        PidInfo { supported: false, pid: "02", mode: "01", unit: "", pid_name: "DTC that caused freeze frame to be stored", formula: "" },
        PidInfo { supported: false, pid: "03", mode: "01", unit: "", pid_name: "Fuel system status", formula: "" },
        PidInfo { supported: false, pid: "04", mode: "01", unit: "%", pid_name: "Engine load", formula: "100/255 * A" },
        PidInfo { supported: false, pid: "05", mode: "01", unit: "°C", pid_name: "Coolant temp.", formula: "A - 40" },
        PidInfo { supported: false, pid: "06", mode: "01", unit: "%", pid_name: "Short term fuel trim (Bank 1)", formula: "(100/128 * A) - 100" },
        PidInfo { supported: false, pid: "07", mode: "01", unit: "%", pid_name: "Long term fuel trim (Bank 1)", formula: "(100/128 * A) - 100" },
        PidInfo { supported: false, pid: "08", mode: "01", unit: "%", pid_name: "Short term fuel trim (Bank 2)", formula: "(100/128 * A) - 100" },
        PidInfo { supported: false, pid: "09", mode: "01", unit: "%", pid_name: "Long term fuel trim (Bank 2)", formula: "(100/128 * A) - 100" },
        PidInfo { supported: false, pid: "0A", mode: "01", unit: "kPa", pid_name: "Fuel pressure", formula: "3 * A" },
        PidInfo { supported: false, pid: "0B", mode: "01", unit: "kPa", pid_name: "Intake manifold abs. pressure", formula: "A" },
        PidInfo { supported: false, pid: "0C", mode: "01", unit: "RPM", pid_name: "Engine speed", formula: "((256 * A)+B) / 4" },
        PidInfo { supported: false, pid: "0D", mode: "01", unit: "km/h", pid_name: "Vehicle speed", formula: "A" },
        PidInfo { supported: false, pid: "0E", mode: "01", unit: "°", pid_name: "Timing advance", formula: "A/2 - 64" },
        PidInfo { supported: false, pid: "0F", mode: "01", unit: "°C", pid_name: "Intake air temp.", formula: "A - 40" },
        PidInfo { supported: false, pid: "10", mode: "01", unit: "g/s", pid_name: "MAF airflow rate", formula: "((256 * A)+B) / 100" },
        PidInfo { supported: false, pid: "11", mode: "01", unit: "%", pid_name: "Throttle pos.", formula: "100/255 * A" },
        PidInfo { supported: false, pid: "12", mode: "01", unit: "", pid_name: "Commanded secondary air status", formula: "" },
        PidInfo { supported: false, pid: "13", mode: "01", unit: "", pid_name: "Oxygen sensors present (in 2 banks)", formula: "" },
        PidInfo { supported: false, pid: "14", mode: "01", unit: "(V, %)", pid_name: "Oxygen Sensor 1 (A: Voltage B: STFT)", formula: "V: A / 200 %: 100/128B - 100" },
        PidInfo { supported: false, pid: "15", mode: "01", unit: "(V, %)", pid_name: "Oxygen Sensor 2 (A: Voltage B: STFT)", formula: "V: A / 200 %: 100/128B - 100" },
        PidInfo { supported: false, pid: "16", mode: "01", unit: "(V, %)", pid_name: "Oxygen Sensor 3 (A: Voltage B: STFT)", formula: "V: A / 200 %: 100/128B - 100" },
        PidInfo { supported: false, pid: "17", mode: "01", unit: "(V, %)", pid_name: "Oxygen Sensor 4 (A: Voltage B: STFT)", formula: "V: A / 200 %: 100/128B - 100" },
        PidInfo { supported: false, pid: "18", mode: "01", unit: "(V, %)", pid_name: "Oxygen Sensor 5 (A: Voltage B: STFT)", formula: "V: A / 200 %: 100/128B - 100" },
        PidInfo { supported: false, pid: "19", mode: "01", unit: "(V, %)", pid_name: "Oxygen Sensor 6 (A: Voltage B: STFT)", formula: "V: A / 200 %: 100/128B - 100" },
        PidInfo { supported: false, pid: "1A", mode: "01", unit: "(V, %)", pid_name: "Oxygen Sensor 7 (A: Voltage B: STFT)", formula: "V: A / 200 %: 100/128B - 100" },
        PidInfo { supported: false, pid: "1B", mode: "01", unit: "(V, %)", pid_name: "Oxygen Sensor 8 (A: Voltage B: STFT)", formula: "V: A / 200 %: 100/128B - 100" },
        PidInfo { supported: false, pid: "1C", mode: "01", unit: "", pid_name: "OBD standards this vehicle conforms to", formula: "" },
        PidInfo { supported: false, pid: "1D", mode: "01", unit: "", pid_name: "Oxygen sensors present (in 4 banks)", formula: "" },
        PidInfo { supported: false, pid: "1E", mode: "01", unit: "", pid_name: "Aux input status", formula: "" },
        PidInfo { supported: false, pid: "1F", mode: "01", unit: "s", pid_name: "Engine runtime (Session)", formula: "(256 * A) + B" },
        PidInfo { supported: false, pid: "21", mode: "01", unit: "km", pid_name: "Dist. with check engine light", formula: "(256 * A) + B" },
        PidInfo { supported: false, pid: "22", mode: "01", unit: "kPa", pid_name: "Fuel Rail Pressure", formula: "0.079(256A + B)" },
        PidInfo { supported: false, pid: "23", mode: "01", unit: "kPa", pid_name: "Fuel Rail Gauge Pressure", formula: "10(256A + B)" },
        PidInfo { supported: false, pid: "24", mode: "01", unit: "ratio", pid_name: "O2 Sensor (1) AFR", formula: "2/65536(256A+B)" },
        PidInfo { supported: false, pid: "24", mode: "01", unit: "ratio", pid_name: "O2 Sensor (1) Voltage (2)", formula: "8/65536(256C+D)" },
        PidInfo { supported: false, pid: "25", mode: "01", unit: "ratio", pid_name: "O2 Sensor (2) AFR", formula: "ratio: 2/65536(256A+B)" },
        PidInfo { supported: false, pid: "25", mode: "01", unit: "V", pid_name: "O2 Sensor (2) Voltage (2)", formula: " 8/65536(256C+D" },
        PidInfo { supported: false, pid: "26", mode: "01", unit: "ratio", pid_name: "O2 Sensor (3) AFR", formula: "2/65536(256A+B)" },
        PidInfo { supported: false, pid: "26", mode: "01", unit: "V", pid_name: "O2 Sensor (3) Voltage (2)", formula: "8/65536(256C+D)" },
        PidInfo { supported: false, pid: "27", mode: "01", unit: "ratio", pid_name: "O2 Sensor (4) AFR", formula: "2/65536(256A+B)" },
        PidInfo { supported: false, pid: "27", mode: "01", unit: "V", pid_name: "O2 Sensor (4) Voltage (2)", formula: "8/65536(256C+D)" },
        PidInfo { supported: false, pid: "28", mode: "01", unit: "ratio", pid_name: "O2 Sensor (5) AFR (2)", formula: "2/65536(256A+B)" },
        PidInfo { supported: false, pid: "28", mode: "01", unit: "V", pid_name: "O2 Sensor (5) Voltage (2)", formula: "8/65536(256C+D)" },
        PidInfo { supported: false, pid: "29", mode: "01", unit: "ratio", pid_name: "O2 Sensor (6) AFR", formula: "2/65536(256A+B)" },
        PidInfo { supported: false, pid: "29", mode: "01", unit: "V", pid_name: "O2 Sensor (6) Voltage (2)", formula: "8/65536(256C+D)" },
        PidInfo { supported: false, pid: "2A", mode: "01", unit: "ratio", pid_name: "O2 Sensor (7) AFR", formula: "2/65536(256A+B)" },
        PidInfo { supported: false, pid: "2A", mode: "01", unit: "V", pid_name: "O2 Sensor (7) Voltage (2)", formula: "8/65536(256C+D)" },
        PidInfo { supported: false, pid: "2B", mode: "01", unit: "ratio", pid_name: "O2 Sensor (8) AFR", formula: "2/65536(256A+B)" },
        PidInfo { supported: false, pid: "2B", mode: "01", unit: "V", pid_name: "O2 Sensor (8) Voltage (2)", formula: "8/65536(256C+D)" },
        PidInfo { supported: false, pid: "2C", mode: "01", unit: "%", pid_name: "Commanded EGR", formula: "100/255 * A" },
        PidInfo { supported: false, pid: "2D", mode: "01", unit: "%", pid_name: "EGR Error", formula: "(100/128 * A) - 100" },
        PidInfo { supported: false, pid: "2E", mode: "01", unit: "%", pid_name: "Commanded EVAP purge", formula: "100/255 * A" },
        PidInfo { supported: false, pid: "2F", mode: "01", unit: "%", pid_name: "Fuel Tank Level Input", formula: "100/255 * A" },
        PidInfo { supported: false, pid: "30", mode: "01", unit: "", pid_name: "Warm-ups since codes cleared", formula: "A" },
        PidInfo { supported: false, pid: "31", mode: "01", unit: "km", pid_name: "Dist. since codes cleared", formula: "(256 * A)+B" },
        PidInfo { supported: false, pid: "32", mode: "01", unit: "Pa", pid_name: "EVAP System Vapor Pressure", formula: "((256 * A)+B) / 4" },
        PidInfo { supported: false, pid: "33", mode: "01", unit: "kPa", pid_name: "Absolute Barometric Pressure", formula: "A" },
        PidInfo { supported: false, pid: "34", mode: "01", unit: "(ratio, mA)", pid_name: "Oxygen Sensor 1 (AB: AFR CD: Current)", formula: "(ratio: 2/65536(256A+B) mA: ((256C + D) / 256) - 128" },
        PidInfo { supported: false, pid: "35", mode: "01", unit: "(ratio, mA)", pid_name: "Oxygen Sensor 2 (AB: AFR CD: Current)", formula: "(ratio: 2/65536(256A+B) mA: ((256C + D) / 256) - 128" },
        PidInfo { supported: false, pid: "36", mode: "01", unit: "(ratio, mA)", pid_name: "Oxygen Sensor 3 (AB: AFR CD: Current)", formula: "(ratio: 2/65536(256A+B) mA: ((256C + D) / 256) - 128" },
        PidInfo { supported: false, pid: "37", mode: "01", unit: "(ratio, mA)", pid_name: "Oxygen Sensor 4 (AB: AFR CD: Current)", formula: "(ratio: 2/65536(256A+B) mA: ((256C + D) / 256) - 128" },
        PidInfo { supported: false, pid: "38", mode: "01", unit: "(ratio, mA)", pid_name: "Oxygen Sensor 5 (AB: AFR CD: Current)", formula: "(ratio: 2/65536(256A+B) mA: ((256C + D) / 256) - 128" },
        PidInfo { supported: false, pid: "39", mode: "01", unit: "(ratio, mA)", pid_name: "Oxygen Sensor 6 (AB: AFR CD: Current)", formula: "(ratio: 2/65536(256A+B) mA: ((256C + D) / 256) - 128" },
        PidInfo { supported: false, pid: "3A", mode: "01", unit: "(ratio, mA)", pid_name: "Oxygen Sensor 7 (AB: AFR CD: Current)", formula: "(ratio: 2/65536(256A+B) mA: ((256C + D) / 256) - 128" },
        PidInfo { supported: false, pid: "3B", mode: "01", unit: "(ratio, mA)", pid_name: "Oxygen Sensor 8 (AB: AFR CD: Current)", formula: "(ratio: 2/65536(256A+B) mA: ((256C + D) / 256) - 128" },
        PidInfo { supported: false, pid: "3C", mode: "01", unit: "°C", pid_name: "Catalyst Temp. (Bank 1: Sensor 1)", formula: "(((256 * A)+B) / 10) - 40" },
        PidInfo { supported: false, pid: "3D", mode: "01", unit: "°C", pid_name: "Catalyst Temp. (Bank 2: Sensor 1)", formula: "(((256 * A)+B) / 10) - 40" },
        PidInfo { supported: false, pid: "3E", mode: "01", unit: "°C", pid_name: "Catalyst Temp. (Bank 1: Sensor 2)", formula: "(((256 * A)+B) / 10) - 40" },
        PidInfo { supported: false, pid: "3F", mode: "01", unit: "°C", pid_name: "Catalyst Temp. (Bank 2: Sensor 2)", formula: "(((256 * A)+B) / 10) - 40" },
        PidInfo { supported: false, pid: "41", mode: "01", unit: "", pid_name: "Monitor status this drive cycle", formula: "" },
        PidInfo { supported: true, pid: "42", mode: "01", unit: "V", pid_name: "Control module voltage", formula: "((256 * A)+B) / 1000" },
        PidInfo { supported: false, pid: "43", mode: "01", unit: "%", pid_name: "Absolute load value", formula: "(100/255) * (256A + B)" },
        PidInfo { supported: false, pid: "44", mode: "01", unit: "ratio", pid_name: "Commanded Air-Fuel Equivalence Ratio", formula: "(2/65536) * (256A + B)" },
        PidInfo { supported: false, pid: "45", mode: "01", unit: "%", pid_name: "Relative throttle pos.", formula: "100/255 * A" },
        PidInfo { supported: false, pid: "46", mode: "01", unit: "°C", pid_name: "Ambient air temp.", formula: "A - 40" },
        PidInfo { supported: false, pid: "47", mode: "01", unit: "%", pid_name: "Abs. throttle pos. (B)", formula: "100/255 * A" },
        PidInfo { supported: false, pid: "4D", mode: "01", unit: "mins", pid_name: "Time with check engine light", formula: "256A + B" },
        PidInfo { supported: false, pid: "4F", mode: "01", unit: "ratio, V, mA, kPa", pid_name: "Max. value for AFR, O2 sensor voltage and current, and intake manifold abs. pressure", formula: "A, B, C, D * 10" },
        PidInfo { supported: false, pid: "50", mode: "01", unit: "g/s", pid_name: "MAF maximum airflow rate", formula: "A * 10" },
        PidInfo { supported: false, pid: "51", mode: "01", unit: "", pid_name: "Fuel Type", formula: "" },
        PidInfo { supported: false, pid: "52", mode: "01", unit: "%", pid_name: "Ethanol fuel percentage", formula: "100/255 * A" },
        PidInfo { supported: false, pid: "53", mode: "01", unit: "kPa", pid_name: "Absolute Evap system Vapor Pressure", formula: "((256 * A)+B) / 200" },
        PidInfo { supported: false, pid: "54", mode: "01", unit: "Pa", pid_name: "Evap system vapor pressure", formula: "(256 * A) + B" },
        PidInfo { supported: false, pid: "55", mode: "01", unit: "%", pid_name: "Short term secondary oxygen sensor trim, A: bank 1, B: bank 3", formula: "100/128(A OR B) - 100" },
        PidInfo { supported: false, pid: "56", mode: "01", unit: "%", pid_name: "Long term secondary oxygen sensor trim, A: bank 1, B: bank 3", formula: "100/128(A OR B) - 100" },
        PidInfo { supported: false, pid: "57", mode: "01", unit: "%", pid_name: "Short term secondary oxygen sensor trim, A: bank 2, B: bank 4", formula: "100/128(A OR B) - 100" },
        PidInfo { supported: false, pid: "58", mode: "01", unit: "%", pid_name: "Long term secondary oxygen sensor trim, A: bank 2, B: bank 4", formula: "100/128(A OR B) - 100" },
        PidInfo { supported: false, pid: "59", mode: "01", unit: "kPa", pid_name: "Fuel rail absolute pressure", formula: "10(256A + B)" },
        PidInfo { supported: false, pid: "5A", mode: "01", unit: "%", pid_name: "Relative accelerator pedal position", formula: "100/255 * A" },
        PidInfo { supported: false, pid: "5B", mode: "01", unit: "%", pid_name: "Hybrid battery pack remaining life", formula: "100/255 * A" },
        PidInfo { supported: false, pid: "5C", mode: "01", unit: "°C", pid_name: "Engine oil temp. (mode 01)", formula: "A - 40" },
        PidInfo { supported: false, pid: "5D", mode: "01", unit: "°", pid_name: "Fuel injection timing", formula: "(((256 * A)+B) / 128) - 210" },
        PidInfo { supported: false, pid: "5E", mode: "01", unit: "L/h", pid_name: "Engine fuel rate", formula: "((256 * A)+B) / 20" },
        PidInfo { supported: false, pid: "5F", mode: "01", unit: "", pid_name: "Emission requirements to which vehicle is designed", formula: "" },
        PidInfo { supported: false, pid: "61", mode: "01", unit: "%", pid_name: "Drivers demand engine torque", formula: "A - 125" },
        PidInfo { supported: false, pid: "62", mode: "01", unit: "%", pid_name: "Actual engine torque", formula: "A - 125" },
        PidInfo { supported: false, pid: "63", mode: "01", unit: "Nm", pid_name: "Reference engine torque", formula: "256A + B" },
        PidInfo { supported: false, pid: "64", mode: "01", unit: "%", pid_name: "Engine percent torque data", formula: "Subtract 125 from A - E" },
        PidInfo { supported: false, pid: "65", mode: "01", unit: "", pid_name: "Auxiliary input / output supported", formula: "" },
        PidInfo { supported: false, pid: "66", mode: "01", unit: "g/s", pid_name: "Mass air flow sensor", formula: "{A0}== Sensor A Supported" },
        PidInfo { supported: false, pid: "67", mode: "01", unit: "°C", pid_name: "Engine coolant temperature", formula: "{A0}== Sensor 1 Supported" },
        PidInfo { supported: false, pid: "68", mode: "01", unit: "°C", pid_name: "Intake air temperature sensor", formula: "{A0}== Sensor 1 Supported" },
        PidInfo { supported: false, pid: "6A", mode: "01", unit: "", pid_name: "Commanded Diesel intake air flow control and relative intake air flow position", formula: "" },
        PidInfo { supported: false, pid: "6B", mode: "01", unit: "", pid_name: "Exhaust gas recirculation temperature", formula: "" },
        PidInfo { supported: false, pid: "6C", mode: "01", unit: "", pid_name: "Commanded throttle actuator control and relative throttle position", formula: "" },
        PidInfo { supported: false, pid: "6D", mode: "01", unit: "", pid_name: "Fuel pressure control system", formula: "" },
        PidInfo { supported: false, pid: "6E", mode: "01", unit: "", pid_name: "Injection pressure control system", formula: "" },
        PidInfo { supported: false, pid: "6F", mode: "01", unit: "", pid_name: "Turbocharger compressor inlet pressure", formula: "" },
        PidInfo { supported: false, pid: "70", mode: "01", unit: "", pid_name: "Boost pressure control", formula: "" },
        PidInfo { supported: false, pid: "71", mode: "01", unit: "", pid_name: "Variable Geometry turbo (VGT) control", formula: "" },
        PidInfo { supported: false, pid: "72", mode: "01", unit: "", pid_name: "Wastegate control", formula: "" },
        PidInfo { supported: false, pid: "73", mode: "01", unit: "", pid_name: "Exhaust pressure", formula: "" },
        PidInfo { supported: false, pid: "74", mode: "01", unit: "RPM", pid_name: "Turbocharger RPM", formula: "" },
        PidInfo { supported: false, pid: "75", mode: "01", unit: "°C", pid_name: "Turbocharger temperature", formula: "" },
        PidInfo { supported: false, pid: "76", mode: "01", unit: "°C", pid_name: "Turbocharger temperature", formula: "" },
        PidInfo { supported: false, pid: "77", mode: "01", unit: "°C", pid_name: "Charge air cooler temperature (CACT)", formula: "" },
        PidInfo { supported: false, pid: "78", mode: "01", unit: "°C", pid_name: "Exhaust Gas temperature (EGT) Bank 1", formula: "" },
        PidInfo { supported: false, pid: "79", mode: "01", unit: "°C", pid_name: "Exhaust Gas temperature (EGT) Bank 2", formula: "" },
        PidInfo { supported: false, pid: "7A", mode: "01", unit: "", pid_name: "Diesel particulate filter (DPF)", formula: "" },
        PidInfo { supported: false, pid: "7B", mode: "01", unit: "", pid_name: "Diesel particulate filter (DPF)", formula: "" },
        PidInfo { supported: false, pid: "7C", mode: "01", unit: "°C", pid_name: "Diesel Particulate filter (DPF) temperature", formula: "(((256 * A)+B) / 10) - 40" },
        PidInfo { supported: false, pid: "7D", mode: "01", unit: "", pid_name: "NOx NTE", formula: "" },
        PidInfo { supported: false, pid: "7E", mode: "01", unit: "", pid_name: "PM NTE", formula: "" },
        PidInfo { supported: false, pid: "7F", mode: "01", unit: "s", pid_name: "Engine runtime", formula: "B(2^24) + C(2^16) + D(2^8) + E" },
        PidInfo { supported: false, pid: "81", mode: "01", unit: "", pid_name: "Engine runtime for Auxiliary Emissions Control Device(AECD)", formula: "" },
        PidInfo { supported: false, pid: "82", mode: "01", unit: "", pid_name: "Engine runtime for Auxiliary Emissions Control Device(AECD)", formula: "" },
        PidInfo { supported: false, pid: "83", mode: "01", unit: "", pid_name: "NOx sensor", formula: "" },
        PidInfo { supported: false, pid: "84", mode: "01", unit: "", pid_name: "Manifold surface temperature", formula: "" },
        PidInfo { supported: false, pid: "85", mode: "01", unit: "%", pid_name: "NOx reagent system", formula: "100/255 * F" },
        PidInfo { supported: false, pid: "86", mode: "01", unit: "", pid_name: "Particulate matter (PM) sensor", formula: "" },
        PidInfo { supported: false, pid: "88", mode: "01", unit: "", pid_name: "SCR Induce System", formula: "" },
        PidInfo { supported: false, pid: "89", mode: "01", unit: "", pid_name: "Run Time for AECD #11-#15", formula: "" },
        PidInfo { supported: false, pid: "8A", mode: "01", unit: "", pid_name: "Run Time for AECD #16-#20", formula: "" },
        PidInfo { supported: false, pid: "8B", mode: "01", unit: "", pid_name: "Diesel Aftertreatment", formula: "" },
        PidInfo { supported: false, pid: "8C", mode: "01", unit: "", pid_name: "O2 Sensor (Wide Range)", formula: "" },
        PidInfo { supported: false, pid: "8D", mode: "01", unit: "%", pid_name: "Throttle Position G", formula: "" },
        PidInfo { supported: false, pid: "8E", mode: "01", unit: "%", pid_name: "Engine Friction - Percent Torque", formula: "A - 125" },
        PidInfo { supported: false, pid: "8F", mode: "01", unit: "", pid_name: "PM Sensor Bank 1 & 2", formula: "" },
        PidInfo { supported: false, pid: "90", mode: "01", unit: "h", pid_name: "WWH-OBD Vehicle OBD System Information", formula: "" },
        PidInfo { supported: false, pid: "91", mode: "01", unit: "h", pid_name: "WWH-OBD Vehicle OBD System Information", formula: "" },
        PidInfo { supported: false, pid: "92", mode: "01", unit: "", pid_name: "Fuel System Control", formula: "" },
        PidInfo { supported: false, pid: "93", mode: "01", unit: "h", pid_name: "WWH-OBD Vehicle OBD Counters support", formula: "" },
        PidInfo { supported: false, pid: "94", mode: "01", unit: "", pid_name: "NOx Warning And Inducement System", formula: "" },
        PidInfo { supported: false, pid: "98", mode: "01", unit: "°C", pid_name: "Exhaust Gas Temperature Sensor", formula: "" },
        PidInfo { supported: false, pid: "99", mode: "01", unit: "°C", pid_name: "Exhaust Gas Temperature Sensor", formula: "" },
        PidInfo { supported: false, pid: "9A", mode: "01", unit: "", pid_name: "Hybrid/EV Vehicle System Data, Battery, Voltage", formula: "" },
        PidInfo { supported: false, pid: "9B", mode: "01", unit: "%", pid_name: "Diesel Exhaust Fluid Sensor Data", formula: "100/255 * D" },
        PidInfo { supported: false, pid: "9C", mode: "01", unit: "", pid_name: "O2 Sensor Data", formula: "" },
        PidInfo { supported: false, pid: "9D", mode: "01", unit: "g/s", pid_name: "Engine Fuel Rate", formula: "" },
        PidInfo { supported: false, pid: "9E", mode: "01", unit: "kg/h", pid_name: "Engine Exhaust Flow Rate", formula: "" },
        PidInfo { supported: false, pid: "9F", mode: "01", unit: "", pid_name: "Fuel System Percentage Use", formula: "" },
        PidInfo { supported: false, pid: "A1", mode: "01", unit: "ppm", pid_name: "NOx Sensor Corrected Data", formula: "" },
        PidInfo { supported: false, pid: "A2", mode: "01", unit: "mg/stroke", pid_name: "Cylinder Fuel Rate", formula: "((256 * A)+B) / 32" },
        PidInfo { supported: false, pid: "A3", mode: "01", unit: "Pa", pid_name: "Evap System Vapor Pressure", formula: "" },
        PidInfo { supported: false, pid: "A4", mode: "01", unit: "ratio", pid_name: "Transmission Actual Gear", formula: "((256 * C) + D) / 1000" },
        PidInfo { supported: false, pid: "A5", mode: "01", unit: "%", pid_name: "Commanded Diesel Exhaust Fluid Dosing", formula: "B / 2" },
        PidInfo { supported: false, pid: "A6", mode: "01", unit: "", pid_name: "Odometer", formula: "(A(2^24) + B(2^16) + C(2^8) + D) / 10" },
        PidInfo { supported: false, pid: "A7", mode: "01", unit: "", pid_name: "NOx Sensor Concentration Sensors 3 and 4", formula: "" },
        PidInfo { supported: false, pid: "A8", mode: "01", unit: "", pid_name: "NOx Sensor Corrected Concentration Sensors 3 and 4", formula: "" },
        PidInfo { supported: false, pid: "A9", mode: "01", unit: "", pid_name: "ABS Disable Switch State", formula: "{A0}= 1:Supported; 0:Unsupported" },
        PidInfo { supported: false, pid: "C3", mode: "01", unit: "%", pid_name: "Fuel Level Input A/B", formula: "" },
        PidInfo { supported: false, pid: "C4", mode: "01", unit: "seconds / Count", pid_name: "Exhaust Particulate Control System Diagnostic Time/Count", formula: "" },
        PidInfo { supported: false, pid: "C5", mode: "01", unit: "kPa", pid_name: "Fuel Pressure A and B", formula: "" },
        PidInfo { supported: false, pid: "C7", mode: "01", unit: "km", pid_name: "Distance Since Reflash or Module Replacement", formula: "" },
    ]
}

/// The PIDs that the library knows (see [`pid_table`]).
pub fn pid_infos() -> (res: Vec<PidInfo>)
    ensures
        res@ == pid_table(),
{
    let res = vec![
        PidInfo { supported: false, pid: "01", mode: "01", unit: "", pid_name: "Monitor status since DTCs cleared", formula: "" },
        PidInfo { supported: false, pid: "02", mode: "01", unit: "", pid_name: "DTC that caused freeze frame to be stored", formula: "" },
        PidInfo { supported: false, pid: "03", mode: "01", unit: "", pid_name: "Fuel system status", formula: "" },
        PidInfo { supported: false, pid: "04", mode: "01", unit: "%", pid_name: "Engine load", formula: "100/255 * A" },
        PidInfo { supported: false, pid: "05", mode: "01", unit: "°C", pid_name: "Coolant temp.", formula: "A - 40" },
        PidInfo { supported: false, pid: "06", mode: "01", unit: "%", pid_name: "Short term fuel trim (Bank 1)", formula: "(100/128 * A) - 100" },
        PidInfo { supported: false, pid: "07", mode: "01", unit: "%", pid_name: "Long term fuel trim (Bank 1)", formula: "(100/128 * A) - 100" },
        PidInfo { supported: false, pid: "08", mode: "01", unit: "%", pid_name: "Short term fuel trim (Bank 2)", formula: "(100/128 * A) - 100" },
        PidInfo { supported: false, pid: "09", mode: "01", unit: "%", pid_name: "Long term fuel trim (Bank 2)", formula: "(100/128 * A) - 100" },
        PidInfo { supported: false, pid: "0A", mode: "01", unit: "kPa", pid_name: "Fuel pressure", formula: "3 * A" },
        PidInfo { supported: false, pid: "0B", mode: "01", unit: "kPa", pid_name: "Intake manifold abs. pressure", formula: "A" },
        PidInfo { supported: false, pid: "0C", mode: "01", unit: "RPM", pid_name: "Engine speed", formula: "((256 * A)+B) / 4" },
        PidInfo { supported: false, pid: "0D", mode: "01", unit: "km/h", pid_name: "Vehicle speed", formula: "A" },
        PidInfo { supported: false, pid: "0E", mode: "01", unit: "°", pid_name: "Timing advance", formula: "A/2 - 64" },
        PidInfo { supported: false, pid: "0F", mode: "01", unit: "°C", pid_name: "Intake air temp.", formula: "A - 40" },
        PidInfo { supported: false, pid: "10", mode: "01", unit: "g/s", pid_name: "MAF airflow rate", formula: "((256 * A)+B) / 100" },
        PidInfo { supported: false, pid: "11", mode: "01", unit: "%", pid_name: "Throttle pos.", formula: "100/255 * A" },
        PidInfo { supported: false, pid: "12", mode: "01", unit: "", pid_name: "Commanded secondary air status", formula: "" },
        PidInfo { supported: false, pid: "13", mode: "01", unit: "", pid_name: "Oxygen sensors present (in 2 banks)", formula: "" },
        PidInfo { supported: false, pid: "14", mode: "01", unit: "(V, %)", pid_name: "Oxygen Sensor 1 (A: Voltage B: STFT)", formula: "V: A / 200 %: 100/128B - 100" },
        PidInfo { supported: false, pid: "15", mode: "01", unit: "(V, %)", pid_name: "Oxygen Sensor 2 (A: Voltage B: STFT)", formula: "V: A / 200 %: 100/128B - 100" },
        PidInfo { supported: false, pid: "16", mode: "01", unit: "(V, %)", pid_name: "Oxygen Sensor 3 (A: Voltage B: STFT)", formula: "V: A / 200 %: 100/128B - 100" },
        PidInfo { supported: false, pid: "17", mode: "01", unit: "(V, %)", pid_name: "Oxygen Sensor 4 (A: Voltage B: STFT)", formula: "V: A / 200 %: 100/128B - 100" },
        PidInfo { supported: false, pid: "18", mode: "01", unit: "(V, %)", pid_name: "Oxygen Sensor 5 (A: Voltage B: STFT)", formula: "V: A / 200 %: 100/128B - 100" },
        PidInfo { supported: false, pid: "19", mode: "01", unit: "(V, %)", pid_name: "Oxygen Sensor 6 (A: Voltage B: STFT)", formula: "V: A / 200 %: 100/128B - 100" },
        PidInfo { supported: false, pid: "1A", mode: "01", unit: "(V, %)", pid_name: "Oxygen Sensor 7 (A: Voltage B: STFT)", formula: "V: A / 200 %: 100/128B - 100" },
        PidInfo { supported: false, pid: "1B", mode: "01", unit: "(V, %)", pid_name: "Oxygen Sensor 8 (A: Voltage B: STFT)", formula: "V: A / 200 %: 100/128B - 100" },
        PidInfo { supported: false, pid: "1C", mode: "01", unit: "", pid_name: "OBD standards this vehicle conforms to", formula: "" },
        PidInfo { supported: false, pid: "1D", mode: "01", unit: "", pid_name: "Oxygen sensors present (in 4 banks)", formula: "" },
        PidInfo { supported: false, pid: "1E", mode: "01", unit: "", pid_name: "Aux input status", formula: "" },
        PidInfo { supported: false, pid: "1F", mode: "01", unit: "s", pid_name: "Engine runtime (Session)", formula: "(256 * A) + B" },
        PidInfo { supported: false, pid: "21", mode: "01", unit: "km", pid_name: "Dist. with check engine light", formula: "(256 * A) + B" },
        PidInfo { supported: false, pid: "22", mode: "01", unit: "kPa", pid_name: "Fuel Rail Pressure", formula: "0.079(256A + B)" },
        PidInfo { supported: false, pid: "23", mode: "01", unit: "kPa", pid_name: "Fuel Rail Gauge Pressure", formula: "10(256A + B)" },
        PidInfo { supported: false, pid: "24", mode: "01", unit: "ratio", pid_name: "O2 Sensor (1) AFR", formula: "2/65536(256A+B)" },
        PidInfo { supported: false, pid: "24", mode: "01", unit: "ratio", pid_name: "O2 Sensor (1) Voltage (2)", formula: "8/65536(256C+D)" },
        PidInfo { supported: false, pid: "25", mode: "01", unit: "ratio", pid_name: "O2 Sensor (2) AFR", formula: "ratio: 2/65536(256A+B)" },
        PidInfo { supported: false, pid: "25", mode: "01", unit: "V", pid_name: "O2 Sensor (2) Voltage (2)", formula: " 8/65536(256C+D" },
        PidInfo { supported: false, pid: "26", mode: "01", unit: "ratio", pid_name: "O2 Sensor (3) AFR", formula: "2/65536(256A+B)" },
        PidInfo { supported: false, pid: "26", mode: "01", unit: "V", pid_name: "O2 Sensor (3) Voltage (2)", formula: "8/65536(256C+D)" },
        PidInfo { supported: false, pid: "27", mode: "01", unit: "ratio", pid_name: "O2 Sensor (4) AFR", formula: "2/65536(256A+B)" },
        PidInfo { supported: false, pid: "27", mode: "01", unit: "V", pid_name: "O2 Sensor (4) Voltage (2)", formula: "8/65536(256C+D)" },
        PidInfo { supported: false, pid: "28", mode: "01", unit: "ratio", pid_name: "O2 Sensor (5) AFR (2)", formula: "2/65536(256A+B)" },
        PidInfo { supported: false, pid: "28", mode: "01", unit: "V", pid_name: "O2 Sensor (5) Voltage (2)", formula: "8/65536(256C+D)" },
        PidInfo { supported: false, pid: "29", mode: "01", unit: "ratio", pid_name: "O2 Sensor (6) AFR", formula: "2/65536(256A+B)" },
        PidInfo { supported: false, pid: "29", mode: "01", unit: "V", pid_name: "O2 Sensor (6) Voltage (2)", formula: "8/65536(256C+D)" },
        PidInfo { supported: false, pid: "2A", mode: "01", unit: "ratio", pid_name: "O2 Sensor (7) AFR", formula: "2/65536(256A+B)" },
        PidInfo { supported: false, pid: "2A", mode: "01", unit: "V", pid_name: "O2 Sensor (7) Voltage (2)", formula: "8/65536(256C+D)" },
        PidInfo { supported: false, pid: "2B", mode: "01", unit: "ratio", pid_name: "O2 Sensor (8) AFR", formula: "2/65536(256A+B)" },
        PidInfo { supported: false, pid: "2B", mode: "01", unit: "V", pid_name: "O2 Sensor (8) Voltage (2)", formula: "8/65536(256C+D)" },
        PidInfo { supported: false, pid: "2C", mode: "01", unit: "%", pid_name: "Commanded EGR", formula: "100/255 * A" },
        PidInfo { supported: false, pid: "2D", mode: "01", unit: "%", pid_name: "EGR Error", formula: "(100/128 * A) - 100" },
        PidInfo { supported: false, pid: "2E", mode: "01", unit: "%", pid_name: "Commanded EVAP purge", formula: "100/255 * A" },
        PidInfo { supported: false, pid: "2F", mode: "01", unit: "%", pid_name: "Fuel Tank Level Input", formula: "100/255 * A" },
        PidInfo { supported: false, pid: "30", mode: "01", unit: "", pid_name: "Warm-ups since codes cleared", formula: "A" },
        PidInfo { supported: false, pid: "31", mode: "01", unit: "km", pid_name: "Dist. since codes cleared", formula: "(256 * A)+B" },
        PidInfo { supported: false, pid: "32", mode: "01", unit: "Pa", pid_name: "EVAP System Vapor Pressure", formula: "((256 * A)+B) / 4" },
        PidInfo { supported: false, pid: "33", mode: "01", unit: "kPa", pid_name: "Absolute Barometric Pressure", formula: "A" },
        PidInfo { supported: false, pid: "34", mode: "01", unit: "(ratio, mA)", pid_name: "Oxygen Sensor 1 (AB: AFR CD: Current)", formula: "(ratio: 2/65536(256A+B) mA: ((256C + D) / 256) - 128" },
        PidInfo { supported: false, pid: "35", mode: "01", unit: "(ratio, mA)", pid_name: "Oxygen Sensor 2 (AB: AFR CD: Current)", formula: "(ratio: 2/65536(256A+B) mA: ((256C + D) / 256) - 128" },
        PidInfo { supported: false, pid: "36", mode: "01", unit: "(ratio, mA)", pid_name: "Oxygen Sensor 3 (AB: AFR CD: Current)", formula: "(ratio: 2/65536(256A+B) mA: ((256C + D) / 256) - 128" },
        PidInfo { supported: false, pid: "37", mode: "01", unit: "(ratio, mA)", pid_name: "Oxygen Sensor 4 (AB: AFR CD: Current)", formula: "(ratio: 2/65536(256A+B) mA: ((256C + D) / 256) - 128" },
        PidInfo { supported: false, pid: "38", mode: "01", unit: "(ratio, mA)", pid_name: "Oxygen Sensor 5 (AB: AFR CD: Current)", formula: "(ratio: 2/65536(256A+B) mA: ((256C + D) / 256) - 128" },
        PidInfo { supported: false, pid: "39", mode: "01", unit: "(ratio, mA)", pid_name: "Oxygen Sensor 6 (AB: AFR CD: Current)", formula: "(ratio: 2/65536(256A+B) mA: ((256C + D) / 256) - 128" },
        PidInfo { supported: false, pid: "3A", mode: "01", unit: "(ratio, mA)", pid_name: "Oxygen Sensor 7 (AB: AFR CD: Current)", formula: "(ratio: 2/65536(256A+B) mA: ((256C + D) / 256) - 128" },
        PidInfo { supported: false, pid: "3B", mode: "01", unit: "(ratio, mA)", pid_name: "Oxygen Sensor 8 (AB: AFR CD: Current)", formula: "(ratio: 2/65536(256A+B) mA: ((256C + D) / 256) - 128" },
        PidInfo { supported: false, pid: "3C", mode: "01", unit: "°C", pid_name: "Catalyst Temp. (Bank 1: Sensor 1)", formula: "(((256 * A)+B) / 10) - 40" },
        PidInfo { supported: false, pid: "3D", mode: "01", unit: "°C", pid_name: "Catalyst Temp. (Bank 2: Sensor 1)", formula: "(((256 * A)+B) / 10) - 40" },
        PidInfo { supported: false, pid: "3E", mode: "01", unit: "°C", pid_name: "Catalyst Temp. (Bank 1: Sensor 2)", formula: "(((256 * A)+B) / 10) - 40" },
        PidInfo { supported: false, pid: "3F", mode: "01", unit: "°C", pid_name: "Catalyst Temp. (Bank 2: Sensor 2)", formula: "(((256 * A)+B) / 10) - 40" },
        PidInfo { supported: false, pid: "41", mode: "01", unit: "", pid_name: "Monitor status this drive cycle", formula: "" },
        PidInfo { supported: true, pid: "42", mode: "01", unit: "V", pid_name: "Control module voltage", formula: "((256 * A)+B) / 1000" },
        PidInfo { supported: false, pid: "43", mode: "01", unit: "%", pid_name: "Absolute load value", formula: "(100/255) * (256A + B)" },
        PidInfo { supported: false, pid: "44", mode: "01", unit: "ratio", pid_name: "Commanded Air-Fuel Equivalence Ratio", formula: "(2/65536) * (256A + B)" },
        PidInfo { supported: false, pid: "45", mode: "01", unit: "%", pid_name: "Relative throttle pos.", formula: "100/255 * A" },
        PidInfo { supported: false, pid: "46", mode: "01", unit: "°C", pid_name: "Ambient air temp.", formula: "A - 40" },
        PidInfo { supported: false, pid: "47", mode: "01", unit: "%", pid_name: "Abs. throttle pos. (B)", formula: "100/255 * A" },
        PidInfo { supported: false, pid: "4D", mode: "01", unit: "mins", pid_name: "Time with check engine light", formula: "256A + B" },
        PidInfo { supported: false, pid: "4F", mode: "01", unit: "ratio, V, mA, kPa", pid_name: "Max. value for AFR, O2 sensor voltage and current, and intake manifold abs. pressure", formula: "A, B, C, D * 10" },
        PidInfo { supported: false, pid: "50", mode: "01", unit: "g/s", pid_name: "MAF maximum airflow rate", formula: "A * 10" },
        PidInfo { supported: false, pid: "51", mode: "01", unit: "", pid_name: "Fuel Type", formula: "" },
        PidInfo { supported: false, pid: "52", mode: "01", unit: "%", pid_name: "Ethanol fuel percentage", formula: "100/255 * A" },
        PidInfo { supported: false, pid: "53", mode: "01", unit: "kPa", pid_name: "Absolute Evap system Vapor Pressure", formula: "((256 * A)+B) / 200" },
        PidInfo { supported: false, pid: "54", mode: "01", unit: "Pa", pid_name: "Evap system vapor pressure", formula: "(256 * A) + B" },
        PidInfo { supported: false, pid: "55", mode: "01", unit: "%", pid_name: "Short term secondary oxygen sensor trim, A: bank 1, B: bank 3", formula: "100/128(A OR B) - 100" },
        PidInfo { supported: false, pid: "56", mode: "01", unit: "%", pid_name: "Long term secondary oxygen sensor trim, A: bank 1, B: bank 3", formula: "100/128(A OR B) - 100" },
        PidInfo { supported: false, pid: "57", mode: "01", unit: "%", pid_name: "Short term secondary oxygen sensor trim, A: bank 2, B: bank 4", formula: "100/128(A OR B) - 100" },
        PidInfo { supported: false, pid: "58", mode: "01", unit: "%", pid_name: "Long term secondary oxygen sensor trim, A: bank 2, B: bank 4", formula: "100/128(A OR B) - 100" },
        PidInfo { supported: false, pid: "59", mode: "01", unit: "kPa", pid_name: "Fuel rail absolute pressure", formula: "10(256A + B)" },
        PidInfo { supported: false, pid: "5A", mode: "01", unit: "%", pid_name: "Relative accelerator pedal position", formula: "100/255 * A" },
        PidInfo { supported: false, pid: "5B", mode: "01", unit: "%", pid_name: "Hybrid battery pack remaining life", formula: "100/255 * A" },
        PidInfo { supported: false, pid: "5C", mode: "01", unit: "°C", pid_name: "Engine oil temp. (mode 01)", formula: "A - 40" },
        PidInfo { supported: false, pid: "5D", mode: "01", unit: "°", pid_name: "Fuel injection timing", formula: "(((256 * A)+B) / 128) - 210" },
        PidInfo { supported: false, pid: "5E", mode: "01", unit: "L/h", pid_name: "Engine fuel rate", formula: "((256 * A)+B) / 20" },
        PidInfo { supported: false, pid: "5F", mode: "01", unit: "", pid_name: "Emission requirements to which vehicle is designed", formula: "" },
        PidInfo { supported: false, pid: "61", mode: "01", unit: "%", pid_name: "Drivers demand engine torque", formula: "A - 125" },
        PidInfo { supported: false, pid: "62", mode: "01", unit: "%", pid_name: "Actual engine torque", formula: "A - 125" },
        PidInfo { supported: false, pid: "63", mode: "01", unit: "Nm", pid_name: "Reference engine torque", formula: "256A + B" },
        PidInfo { supported: false, pid: "64", mode: "01", unit: "%", pid_name: "Engine percent torque data", formula: "Subtract 125 from A - E" },
        PidInfo { supported: false, pid: "65", mode: "01", unit: "", pid_name: "Auxiliary input / output supported", formula: "" },
        PidInfo { supported: false, pid: "66", mode: "01", unit: "g/s", pid_name: "Mass air flow sensor", formula: "{A0}== Sensor A Supported" },
        PidInfo { supported: false, pid: "67", mode: "01", unit: "°C", pid_name: "Engine coolant temperature", formula: "{A0}== Sensor 1 Supported" },
        PidInfo { supported: false, pid: "68", mode: "01", unit: "°C", pid_name: "Intake air temperature sensor", formula: "{A0}== Sensor 1 Supported" },
        PidInfo { supported: false, pid: "6A", mode: "01", unit: "", pid_name: "Commanded Diesel intake air flow control and relative intake air flow position", formula: "" },
        PidInfo { supported: false, pid: "6B", mode: "01", unit: "", pid_name: "Exhaust gas recirculation temperature", formula: "" },
        PidInfo { supported: false, pid: "6C", mode: "01", unit: "", pid_name: "Commanded throttle actuator control and relative throttle position", formula: "" },
        PidInfo { supported: false, pid: "6D", mode: "01", unit: "", pid_name: "Fuel pressure control system", formula: "" },
        PidInfo { supported: false, pid: "6E", mode: "01", unit: "", pid_name: "Injection pressure control system", formula: "" },
        PidInfo { supported: false, pid: "6F", mode: "01", unit: "", pid_name: "Turbocharger compressor inlet pressure", formula: "" },
        PidInfo { supported: false, pid: "70", mode: "01", unit: "", pid_name: "Boost pressure control", formula: "" },
        PidInfo { supported: false, pid: "71", mode: "01", unit: "", pid_name: "Variable Geometry turbo (VGT) control", formula: "" },
        PidInfo { supported: false, pid: "72", mode: "01", unit: "", pid_name: "Wastegate control", formula: "" },
        PidInfo { supported: false, pid: "73", mode: "01", unit: "", pid_name: "Exhaust pressure", formula: "" },
        PidInfo { supported: false, pid: "74", mode: "01", unit: "RPM", pid_name: "Turbocharger RPM", formula: "" },
        PidInfo { supported: false, pid: "75", mode: "01", unit: "°C", pid_name: "Turbocharger temperature", formula: "" },
        PidInfo { supported: false, pid: "76", mode: "01", unit: "°C", pid_name: "Turbocharger temperature", formula: "" },
        PidInfo { supported: false, pid: "77", mode: "01", unit: "°C", pid_name: "Charge air cooler temperature (CACT)", formula: "" },
        PidInfo { supported: false, pid: "78", mode: "01", unit: "°C", pid_name: "Exhaust Gas temperature (EGT) Bank 1", formula: "" },
        PidInfo { supported: false, pid: "79", mode: "01", unit: "°C", pid_name: "Exhaust Gas temperature (EGT) Bank 2", formula: "" },
        PidInfo { supported: false, pid: "7A", mode: "01", unit: "", pid_name: "Diesel particulate filter (DPF)", formula: "" },
        PidInfo { supported: false, pid: "7B", mode: "01", unit: "", pid_name: "Diesel particulate filter (DPF)", formula: "" },
        PidInfo { supported: false, pid: "7C", mode: "01", unit: "°C", pid_name: "Diesel Particulate filter (DPF) temperature", formula: "(((256 * A)+B) / 10) - 40" },
        PidInfo { supported: false, pid: "7D", mode: "01", unit: "", pid_name: "NOx NTE", formula: "" },
        PidInfo { supported: false, pid: "7E", mode: "01", unit: "", pid_name: "PM NTE", formula: "" },
        PidInfo { supported: false, pid: "7F", mode: "01", unit: "s", pid_name: "Engine runtime", formula: "B(2^24) + C(2^16) + D(2^8) + E" },
        PidInfo { supported: false, pid: "81", mode: "01", unit: "", pid_name: "Engine runtime for Auxiliary Emissions Control Device(AECD)", formula: "" },
        PidInfo { supported: false, pid: "82", mode: "01", unit: "", pid_name: "Engine runtime for Auxiliary Emissions Control Device(AECD)", formula: "" },
        PidInfo { supported: false, pid: "83", mode: "01", unit: "", pid_name: "NOx sensor", formula: "" },
        PidInfo { supported: false, pid: "84", mode: "01", unit: "", pid_name: "Manifold surface temperature", formula: "" },
        PidInfo { supported: false, pid: "85", mode: "01", unit: "%", pid_name: "NOx reagent system", formula: "100/255 * F" },
        PidInfo { supported: false, pid: "86", mode: "01", unit: "", pid_name: "Particulate matter (PM) sensor", formula: "" },
        PidInfo { supported: false, pid: "88", mode: "01", unit: "", pid_name: "SCR Induce System", formula: "" },
        PidInfo { supported: false, pid: "89", mode: "01", unit: "", pid_name: "Run Time for AECD #11-#15", formula: "" },
        PidInfo { supported: false, pid: "8A", mode: "01", unit: "", pid_name: "Run Time for AECD #16-#20", formula: "" },
        PidInfo { supported: false, pid: "8B", mode: "01", unit: "", pid_name: "Diesel Aftertreatment", formula: "" },
        PidInfo { supported: false, pid: "8C", mode: "01", unit: "", pid_name: "O2 Sensor (Wide Range)", formula: "" },
        PidInfo { supported: false, pid: "8D", mode: "01", unit: "%", pid_name: "Throttle Position G", formula: "" },
        PidInfo { supported: false, pid: "8E", mode: "01", unit: "%", pid_name: "Engine Friction - Percent Torque", formula: "A - 125" },
        PidInfo { supported: false, pid: "8F", mode: "01", unit: "", pid_name: "PM Sensor Bank 1 & 2", formula: "" },
        PidInfo { supported: false, pid: "90", mode: "01", unit: "h", pid_name: "WWH-OBD Vehicle OBD System Information", formula: "" },
        PidInfo { supported: false, pid: "91", mode: "01", unit: "h", pid_name: "WWH-OBD Vehicle OBD System Information", formula: "" },
        PidInfo { supported: false, pid: "92", mode: "01", unit: "", pid_name: "Fuel System Control", formula: "" },
        PidInfo { supported: false, pid: "93", mode: "01", unit: "h", pid_name: "WWH-OBD Vehicle OBD Counters support", formula: "" },
        PidInfo { supported: false, pid: "94", mode: "01", unit: "", pid_name: "NOx Warning And Inducement System", formula: "" },
        PidInfo { supported: false, pid: "98", mode: "01", unit: "°C", pid_name: "Exhaust Gas Temperature Sensor", formula: "" },
        PidInfo { supported: false, pid: "99", mode: "01", unit: "°C", pid_name: "Exhaust Gas Temperature Sensor", formula: "" },
        PidInfo { supported: false, pid: "9A", mode: "01", unit: "", pid_name: "Hybrid/EV Vehicle System Data, Battery, Voltage", formula: "" },
        PidInfo { supported: false, pid: "9B", mode: "01", unit: "%", pid_name: "Diesel Exhaust Fluid Sensor Data", formula: "100/255 * D" },
        PidInfo { supported: false, pid: "9C", mode: "01", unit: "", pid_name: "O2 Sensor Data", formula: "" },
        PidInfo { supported: false, pid: "9D", mode: "01", unit: "g/s", pid_name: "Engine Fuel Rate", formula: "" },
        PidInfo { supported: false, pid: "9E", mode: "01", unit: "kg/h", pid_name: "Engine Exhaust Flow Rate", formula: "" },
        PidInfo { supported: false, pid: "9F", mode: "01", unit: "", pid_name: "Fuel System Percentage Use", formula: "" },
        PidInfo { supported: false, pid: "A1", mode: "01", unit: "ppm", pid_name: "NOx Sensor Corrected Data", formula: "" },
        PidInfo { supported: false, pid: "A2", mode: "01", unit: "mg/stroke", pid_name: "Cylinder Fuel Rate", formula: "((256 * A)+B) / 32" },
        PidInfo { supported: false, pid: "A3", mode: "01", unit: "Pa", pid_name: "Evap System Vapor Pressure", formula: "" },
        PidInfo { supported: false, pid: "A4", mode: "01", unit: "ratio", pid_name: "Transmission Actual Gear", formula: "((256 * C) + D) / 1000" },
        PidInfo { supported: false, pid: "A5", mode: "01", unit: "%", pid_name: "Commanded Diesel Exhaust Fluid Dosing", formula: "B / 2" },
        PidInfo { supported: false, pid: "A6", mode: "01", unit: "", pid_name: "Odometer", formula: "(A(2^24) + B(2^16) + C(2^8) + D) / 10" },
        PidInfo { supported: false, pid: "A7", mode: "01", unit: "", pid_name: "NOx Sensor Concentration Sensors 3 and 4", formula: "" },
        PidInfo { supported: false, pid: "A8", mode: "01", unit: "", pid_name: "NOx Sensor Corrected Concentration Sensors 3 and 4", formula: "" },
        PidInfo { supported: false, pid: "A9", mode: "01", unit: "", pid_name: "ABS Disable Switch State", formula: "{A0}= 1:Supported; 0:Unsupported" },
        PidInfo { supported: false, pid: "C3", mode: "01", unit: "%", pid_name: "Fuel Level Input A/B", formula: "" },
        PidInfo { supported: false, pid: "C4", mode: "01", unit: "seconds / Count", pid_name: "Exhaust Particulate Control System Diagnostic Time/Count", formula: "" },
        PidInfo { supported: false, pid: "C5", mode: "01", unit: "kPa", pid_name: "Fuel Pressure A and B", formula: "" },
        PidInfo { supported: false, pid: "C7", mode: "01", unit: "km", pid_name: "Distance Since Reflash or Module Replacement", formula: "" },
    ];
    assert(res@ =~= pid_table());
    res
}

} // verus!
