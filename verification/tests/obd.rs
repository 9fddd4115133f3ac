use obdium::mid::{mid_key_string, mid_test_name, EvapLeakSize, MonitorTest};
use obdium::replay::{reset_played, take_recorded, RecordedExchange};
use obdium::{BankNumber, Command, CommandType, OBDError, SensorNumber, OBD};

#[test]
fn format_response_spaces_pairs() {
    assert_eq!(OBD::format_response("410C1AF8"), "41 0C 1A F8");
    assert_eq!(OBD::format_response("410"), "41 0");
    assert_eq!(OBD::format_response(""), "");
}

#[test]
fn parse_pid_response_single_ecu() {
    let obd = OBD::new();
    let r = obd.parse_pid_response("SEARCHING...\r7E8 04 41 0C 1A F8 \r\r").unwrap();
    assert_eq!(r.full_response().unwrap(), "41 0C 1A F8");
    assert_eq!(r.get_payload().unwrap(), "41 0C 1A F8");
    assert_eq!(*r.get_payload_size(), 4);
    assert_eq!(r.a_value(), 0x1A);
    assert_eq!(r.b_value(), 0xF8);
    assert_eq!(r.c_value(), 0);
}

#[test]
fn parse_pid_response_two_ecus() {
    let obd = OBD::new();
    let r = obd.parse_pid_response("7E8 04 41 0C 1A F8\r7E9 04 41 0C 1B 00\r").unwrap();
    assert_eq!(r.full_response().unwrap(), "41 0C 1A F8 41 0C 1B 00");
    assert_eq!(*r.get_payload_size(), 4);
}

#[test]
fn parse_pid_response_without_data() {
    let obd = OBD::new();
    let r = obd.parse_pid_response("7E8 02 NO DATA\r").unwrap();
    assert!(r.full_response().is_none());
    assert_eq!(*r.get_payload_size(), 0);
    let r = obd.parse_pid_response("NO DATA\r").unwrap();
    assert!(r.full_response().is_none());
}

#[test]
fn parse_pid_response_too_short() {
    let obd = OBD::new();
    assert!(matches!(obd.parse_pid_response("7E8 04 7E8\r"), Err(OBDError::InvalidResponse)));
}

#[test]
fn at_response_drops_carriage_returns() {
    let r = OBD::at_response_from("ELM327 v1.5\r\r");
    assert_eq!(r.full_response().unwrap(), "ELM327 v1.5");
    assert_eq!(*r.get_payload_size(), 0);
}

#[test]
fn request_bytes_by_kind() {
    assert_eq!(OBD::request_bytes(&Command::new_pid(b"010C")).unwrap(), b"010C\r".to_vec());
    assert_eq!(OBD::request_bytes(&Command::new_at(b"ATZ")).unwrap(), b"ATZ\r".to_vec());
    assert_eq!(OBD::request_bytes(&Command::new_svc(b"03")).unwrap(), b"03\r".to_vec());
    assert!(matches!(OBD::request_bytes(&Command::new_arb("221234")), Err(OBDError::InvalidCommand)));
    assert!(matches!(OBD::request_bytes(&Command::default()), Err(OBDError::InvalidCommand)));
}

#[test]
fn session_state() {
    let mut obd = OBD::new();
    obd.use_default_ecu();
    obd.use_ecu("7E8".to_string());
    obd.record_requests(true, "requests.json".to_string(), true);
    assert_eq!(obd.requests_path(), "requests.json");
    obd.replay_requests(true);
    obd.record_requests(true, "other.json".to_string(), false);
    assert_eq!(obd.requests_path(), "other.json");
    obd.record_requests(false, "ignored.json".to_string(), true);
    assert_eq!(obd.requests_path(), "other.json");
}

#[test]
fn sensors_from_support_byte() {
    let obd = OBD::new();
    assert_eq!(obd.sensors_supported_for(0b0000_0101), vec![SensorNumber::Sensor1, SensorNumber::Sensor3]);
    assert_eq!(obd.sensors_supported_for(0), vec![]);
    assert_eq!(obd.sensors_supported_for(0x80), vec![SensorNumber::Sensor8]);
}

#[test]
fn monitor_test_limits() {
    let inside = MonitorTest { min: 10, max: 20, value: 10, mid: [0, 0] };
    let above = MonitorTest { min: 10, max: 20, value: 21, mid: [0, 0] };
    let below = MonitorTest { min: 10, max: 20, value: 9, mid: [0, 0] };
    assert!(inside.has_passed());
    assert!(!above.has_passed());
    assert!(!below.has_passed());
}

#[test]
fn monitor_names_and_keys() {
    assert_eq!(mid_test_name(0x01), "O2 Sensor Monitor Bank 1 - Sensor 1");
    assert_eq!(mid_test_name(0x3A), "EVAP Monitor (0.090\")");
    assert_eq!(mid_test_name(0xAD), "Misfire Cylinder 12 Data");
    assert_eq!(mid_test_name(0x20), "Unknown Monitor");
    assert_eq!(mid_key_string(0x0A), "060A");
    assert_eq!(mid_key_string(0xB1), "06B1");
}

#[test]
fn supported_mids_of_answer() {
    let obd = OBD::new();
    let r = obd.parse_pid_response("7E8 07 41 00 80 01 00 00 01\r").unwrap();
    let mids = OBD::supported_mids_from(&r);
    let keys: Vec<String> = mids.iter().map(|m| m.0.clone()).collect();
    assert_eq!(keys, vec!["0608".to_string(), "0621".to_string(), "0681".to_string()]);
    assert_eq!(mids[1].1, "Catalyst Monitor Bank 1");
    let empty = OBD::supported_mids_from(&obdium::Response::no_data());
    assert!(empty.is_empty());
}

#[test]
fn monitor_mids() {
    assert_eq!(OBD::oxygen_sensor_monitor_mid(BankNumber::Bank2, SensorNumber::Sensor4), Some("0608"));
    assert_eq!(OBD::oxygen_sensor_monitor_mid(BankNumber::Bank1, SensorNumber::Sensor5), None);
    assert_eq!(OBD::oxygen_sensor_heater_mid(BankNumber::Bank1, SensorNumber::Sensor1), Some("0641"));
    assert_eq!(OBD::catalyst_monitor_mid(BankNumber::Bank2), "0622");
    assert_eq!(OBD::evap_monitor_mid(EvapLeakSize::Tiny), "063C");
    assert_eq!(OBD::secondary_air_monitor_mid(4), Some("0674"));
    assert_eq!(OBD::secondary_air_monitor_mid(5), None);
    assert_eq!(OBD::misfire_cylinder_monitor_mid(obdium::mid::CylinderNumber::Cylinder12), "06AD");
    assert_eq!(OBD::pm_filter_monitor_mid(BankNumber::Bank1), "06B0");
    let zero = OBD::monitor_test_from(&obdium::Response::no_data(), "0601");
    assert_eq!((zero.min, zero.max, zero.value, zero.mid), (0, 0, 0, [0, 0]));
}

fn exchange(request: &str, response: &str) -> RecordedExchange {
    RecordedExchange {
        request: request.to_string(),
        request_type: CommandType::PIDCommand,
        response: response.to_string(),
        played: false,
    }
}

#[test]
fn replay_answers_each_recording_once() {
    let mut entries = vec![exchange("010C", "first"), exchange("0105", "temp"), exchange("010C", "second")];
    assert_eq!(take_recorded(&mut entries, "010C"), Some(0));
    assert_eq!(take_recorded(&mut entries, "010C"), Some(2));
    assert_eq!(take_recorded(&mut entries, "010C"), None);
    assert!(entries[0].played && entries[2].played && !entries[1].played);
    assert_eq!(entries[2].response, "second");
    reset_played(&mut entries);
    assert!(entries.iter().all(|e| !e.played));
    assert_eq!(take_recorded(&mut entries, "010C"), Some(0));
}

#[test]
fn bank_monitor_mids() {
    assert_eq!(OBD::egr_monitor_mid(BankNumber::Bank1), "0631");
    assert_eq!(OBD::vvt_monitor_mid(BankNumber::Bank2), "0636");
    assert_eq!(OBD::heated_catalyst_monitor_mid(BankNumber::Bank2), "0662");
    assert_eq!(OBD::fuel_system_monitor_mid(BankNumber::Bank1), "0681");
    assert_eq!(OBD::boost_pressure_control_monitor_mid(BankNumber::Bank2), "0686");
    assert_eq!(OBD::nox_absorber_monitor_mid(BankNumber::Bank1), "0690");
    assert_eq!(OBD::nox_catalyst_monitor_mid(BankNumber::Bank2), "0699");
}

#[test]
fn readable_answers() {
    assert!(OBD::pid_response_is_readable("7E8 04 41 0C 1A F8\r"));
    assert!(OBD::pid_response_is_readable("NO DATA"));
}

#[test]
fn checked_components() {
    let obd = OBD::new();
    let r = obd.parse_pid_response("7E8 04 41 0C 1A F8\r").unwrap();
    assert_eq!(r.checked_component(obdium::PayloadComponent::A), Some(0x1A));
    assert_eq!(r.checked_component(obdium::PayloadComponent::E), Some(0));
    let bad = obd.parse_pid_response("7E8 04 41 0C ZZ F8\r").unwrap();
    assert_eq!(bad.checked_component(obdium::PayloadComponent::A), None);
}

#[test]
fn monitor_test_with_data() {
    let obd = OBD::new();
    let r = obd.parse_pid_response("7E8 05 41 00 60 10 90\r").unwrap();
    let test = OBD::monitor_test_from(&r, "0621");
    assert_eq!((test.value, test.min, test.max), (0x60, 0x10, 0x90));
    assert_eq!(test.mid, [21, 0]);
    assert!(test.has_passed());
    let hex = OBD::monitor_test_from(&r, "063A");
    assert_eq!(hex.mid, [0, 0]);
}

#[test]
fn supported_mid_keys_are_distinct() {
    let obd = OBD::new();
    let r = obd.parse_pid_response("7E8 07 41 00 FF FF 00 00 01\r").unwrap();
    let mids = OBD::supported_mids_from(&r);
    let mut keys: Vec<String> = mids.iter().map(|m| m.0.clone()).collect();
    let n = keys.len();
    keys.dedup();
    assert_eq!(keys.len(), n);
    assert_eq!(n, 17);
}
