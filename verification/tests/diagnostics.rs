use obdium::pid::air::SecondaryAirStatus;
use obdium::pid::diagnostics::{
    AuxiliaryInputStatus, DiagnosisStatus, MILStatus, OBDStandard, Test, TroubleCode, TroubleCodeCategory,
};
use obdium::pid::engine::{EngineType, ValveTrainDesign};
use obdium::pid::fuel::{FuelDeliveryType, FuelSystemStatus, FuelType};
use obdium::OBD;

#[test]
fn decode_pending_code() {
    let codes = OBD::decode_trouble_codes("43 01 33 00 00 00 00\r");
    assert_eq!(codes.len(), 1);
    assert_eq!(codes[0].dtc, "P0133");
    assert_eq!(codes[0].category, TroubleCodeCategory::Powertrain);
    assert!(!codes[0].permanant);
    assert_eq!(codes[0].description, "none");
}

#[test]
fn decode_permanent_codes_of_each_category() {
    let codes = OBD::decode_trouble_codes("4A 41 23 81 05 C2 10 00 00");
    let dtcs: Vec<&str> = codes.iter().map(|c| c.dtc.as_str()).collect();
    assert_eq!(dtcs, vec!["C0123", "B0105", "U0210"]);
    assert!(codes.iter().all(|c| c.permanant));
}

#[test]
fn decode_without_codes() {
    assert!(OBD::decode_trouble_codes("NO DATA").is_empty());
    assert!(OBD::decode_trouble_codes("4300000000").is_empty());
}

#[test]
fn lamp_and_code_count() {
    assert!(OBD::check_engine_light_from(0x83));
    assert!(!OBD::check_engine_light_from(0x03));
    assert_eq!(OBD::mil_status_from(0x80), MILStatus::On);
    assert_eq!(OBD::mil_status_from(0x7F), MILStatus::Off);
    assert_eq!(OBD::num_trouble_codes_from(0x83), 3);
}

#[test]
fn common_tests_from_byte() {
    // Components available and incomplete, fuel system available and complete.
    let tests = OBD::common_tests_status(0b0100_0110);
    assert_eq!(tests[0].name, "Components");
    assert!(tests[0].available && !tests[0].complete);
    assert_eq!(tests[1].name, "Fuel System");
    assert!(tests[1].available && tests[1].complete);
    assert_eq!(tests[2].name, "Misfire");
    assert!(!tests[2].available);
}

#[test]
fn advanced_tests_for_spark_ignition() {
    let tests = OBD::advanced_tests_status(EngineType::SparkIgnition, 0b0000_0001, 0b0000_0001);
    assert_eq!(tests[7].name, "Catalyst");
    assert!(tests[7].available && !tests[7].complete);
    assert_eq!(tests[0].name, "EGR and/or VVT System");
    assert!(!tests[0].available && !tests[0].complete);
    let done = OBD::advanced_tests_status(EngineType::SparkIgnition, 0b0000_0010, 0);
    assert_eq!(done[6].name, "Heated Catalyst");
    assert!(done[6].available && done[6].complete);
}

#[test]
fn test_constructors() {
    let t = Test::new("Misfire", true, false);
    assert_eq!((t.name, t.available, t.complete), ("Misfire", true, false));
    let u = Test::no_data();
    assert_eq!((u.name, u.available, u.complete), ("Unknown", false, false));
}

#[test]
fn categories() {
    assert_eq!(TroubleCodeCategory::Network.system_letter(), 'U');
    assert_eq!(TroubleCodeCategory::Body.as_str(), "Body");
    let code = TroubleCode::new(TroubleCodeCategory::Chassis, "C0123".to_string(), true);
    assert_eq!(code.description, "none");
    let status = DiagnosisStatus::new(MILStatus::On, 1, vec![code], EngineType::SparkIgnition);
    assert_eq!(status.num_trouble_codes, 1);
}

#[test]
fn value_tables() {
    assert!(matches!(OBDStandard::from_u8(1), OBDStandard::Standard("OBD-II as defined by CARB")));
    assert!(matches!(FuelType::from_u8(4), FuelType::Type("Diesel")));
    assert!(matches!(FuelType::from_u8(0x18), FuelType::Type("Unknown")));
    assert!(matches!(FuelSystemStatus::from_u8(2), FuelSystemStatus::Status("Closed loop, using O2 sensor feedback for fuel mix")));
    assert!(matches!(FuelSystemStatus::from_u8(3), FuelSystemStatus::Status("Unknown fuel system status")));
    assert!(matches!(FuelDeliveryType::from_u8(9), FuelDeliveryType::Type("Compression Ignition")));
    assert!(matches!(SecondaryAirStatus::from_u8(8), SecondaryAirStatus::Status("Pump commanded on for diagnostics")));
    assert_eq!(ValveTrainDesign::from_u8(2), ValveTrainDesign::DualOverheadCam);
    assert_eq!(ValveTrainDesign::from_u8(0).as_str(), "Unknown");
    assert_eq!(ValveTrainDesign::OverheadValve.as_str(), "Overhead Valve (OHV)");
}

#[test]
fn engine_types() {
    assert_eq!(EngineType::from_monitor_byte(0b0000_1000), EngineType::CompressionIgnition);
    assert_eq!(EngineType::from_monitor_byte(0b1111_0111), EngineType::SparkIgnition);
    assert_eq!(EngineType::CompressionIgnition.as_str(), "Compression Ignition Engine");
    assert_eq!(AuxiliaryInputStatus::from_byte(1).as_str(), "Active");
    assert_eq!(AuxiliaryInputStatus::from_byte(2).as_str(), "Inactive");
}

#[test]
fn valve_train_ids() {
    for id in 1u8..=4 {
        assert_eq!(ValveTrainDesign::from_u8(id).vpic_id(), id);
    }
    assert_eq!(ValveTrainDesign::Unknown.vpic_id(), 5);
    assert_eq!(ValveTrainDesign::from_u8(9).vpic_id(), 5);
}

#[test]
fn tests_from_answers() {
    let none = obdium::Response::no_data();
    let common = OBD::common_tests_from(&none);
    assert!(common.iter().all(|t| t.name == "Unknown" && !t.available && !t.complete));
    let advanced = OBD::advanced_tests_from(EngineType::SparkIgnition, &none);
    assert!(advanced.iter().all(|t| t.name == "Unknown" && !t.available && !t.complete));
    let obd = OBD::new();
    let r = obd.parse_pid_response("7E8 06 41 01 00 46 01 01\r").unwrap();
    let common = OBD::common_tests_from(&r);
    // Byte A is 0, byte B is 0x46: the tests come from byte B.
    assert!(common[0].available && !common[0].complete);
    assert!(common[1].available && common[1].complete);
    assert!(!common[2].available);
    let advanced = OBD::advanced_tests_from(EngineType::SparkIgnition, &r);
    assert_eq!(advanced[7].name, "Catalyst");
    assert!(advanced[7].available && !advanced[7].complete);
}

#[test]
fn decode_codes_with_headers() {
    let codes = OBD::decode_trouble_codes("7E8 06 43 01 33 00 00 00 00\r");
    assert_eq!(codes.len(), 1);
    assert_eq!(codes[0].dtc, "P0133");
    assert_eq!(OBD::strip_ecu_names("7E8 06 43 01 33 00 00 00 00\r"), " 06 43 01 33 00 00 00 00\r");
}
