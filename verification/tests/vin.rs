use obdium::vin::parser::{Error, VIN};
use obdium::vin::pattern::{
    first_matching_pattern, key_element, match_pattern, to_sql_like, vspec_pattern_id_from, VSpecCandidate,
};
use obdium::vin::schema::{first_shared_id, matching_schema_ids, vspec_schema_id_from};
use obdium::vin::ElementId;

// Every expected value below belongs to this VIN.
const VIN_STRING: &'static str = "KL4CJASB6JB660929";

#[test]
fn wmi_prefix() {
    let vin = VIN::new(VIN_STRING).unwrap();

    assert_eq!(
        vin.get_wmi(),
        "KL4",
        "get_wmi: provided incorrect wmi for vin: {VIN_STRING}. expected KL4"
    )
}

#[test]
fn model_year() {
    let vin = VIN::new(VIN_STRING).unwrap();

    // vPIC gives vehicle type 7 and truck type 0 for this VIN's WMI.
    assert_eq!(
        vin.get_model_year(7, 0).unwrap(),
        2018,
        "get_model_year: provided incorrect model year for vin: {VIN_STRING}. expected 2018"
    )
}

#[test]
fn vin_key() {
    let vin = VIN::new(VIN_STRING).unwrap();

    assert_eq!(
        vin.as_key(),
        "CJASB|JB660929",
        "as_key: provided incorrect key for vin: {VIN_STRING}. expected CJASB|JB660929"
    )
}

#[test]
fn vin_text_is_kept() {
    let vin = VIN::new(VIN_STRING).unwrap();
    assert_eq!(vin.get_vin(), VIN_STRING);
}

#[test]
fn vin_of_wrong_length_is_refused() {
    assert!(matches!(VIN::new("KL4CJASB6JB66092"), Err(Error::InvalidVinLength)));
    assert!(matches!(VIN::new("KL4CJASB6JB6609291"), Err(Error::InvalidVinLength)));
    assert!(matches!(VIN::new(""), Err(Error::InvalidVinLength)));
}

#[test]
fn extended_wmi_when_third_character_is_nine() {
    let vin = VIN::new("1M9GDM9AXKP042788").unwrap();
    assert_eq!(vin.get_wmi(), "1M9042");
}

#[test]
fn checksum_of_valid_vins() {
    assert_eq!(VIN::new(VIN_STRING).unwrap().checksum().unwrap(), '6');
    assert_eq!(VIN::new("1M8GDM9AXKP042788").unwrap().checksum().unwrap(), 'X');
    assert_eq!(VIN::new("11111111111111111").unwrap().checksum().unwrap(), '1');
}

#[test]
fn checksum_mismatch() {
    let vin = VIN::new("1HGCM82643A004352").unwrap();
    assert!(matches!(
        vin.checksum(),
        Err(Error::InvalidCheckDigit { expected: '3', found: '4' })
    ));
}

#[test]
fn checksum_refuses_untransliterable_character() {
    let vin = VIN::new("KL4CJASB6JB66092I").unwrap();
    match vin.checksum() {
        Err(Error::InvalidCharacter { ch, pos, msg }) => {
            assert_eq!(ch, 'I');
            assert_eq!(pos, 16);
            assert_eq!(msg, "Unexpected character when transliterating.");
        }
        _ => panic!("expected an invalid character"),
    }
}

#[test]
fn checked_checksum_agrees_and_stops_on_foreign_digits() {
    let vin = VIN::new(VIN_STRING).unwrap();
    assert_eq!(vin.checked_checksum().unwrap().unwrap(), '6');
    // Arabic-Indic digit three (two bytes) at the start: a number outside ASCII.
    let foreign = VIN::new("\u{663}L4CJASB6JB66092").unwrap();
    assert!(foreign.checked_checksum().is_none());
}

#[test]
fn model_year_corrections() {
    let vin = VIN::new("1M8GDM9AXKP042788").unwrap();
    // Position 10 is K (2019); position 7 is a digit.
    assert_eq!(vin.model_year_from(2, 0, 2025).unwrap(), 1989);
    assert_eq!(vin.model_year_from(3, 1, 2025).unwrap(), 1989);
    assert_eq!(vin.model_year_from(10, 0, 2025).unwrap(), 2019);
    // A year more than one year ahead goes 30 years back.
    let ahead = VIN::new("1HGCM826550004352").unwrap();
    assert_eq!(ahead.model_year_from(10, 0, 2025).unwrap(), 2005);
    assert_eq!(ahead.model_year_from(10, 0, 2034).unwrap(), 2035);
    let first = VIN::new("1HGCM8265A0004352").unwrap();
    assert_eq!(first.model_year_from(10, 0, 2025).unwrap(), 2010);
}

#[test]
fn model_year_invalid_character() {
    let vin = VIN::new("1HGCM8265U0004352").unwrap();
    match vin.model_year_from(7, 0, 2025) {
        Err(Error::InvalidCharacter { ch, pos, msg }) => {
            assert_eq!(ch, 'U');
            assert_eq!(pos, 9);
            assert_eq!(msg, "got invalid character for model year.");
        }
        _ => panic!("expected an invalid character"),
    }
}

#[test]
fn like_patterns() {
    assert!(match_pattern("CJASB|JB660929", "CJASB|JB660929"));
    assert!(!match_pattern("CJASB|JB660929", "CJASB|JB66092"));
    assert!(match_pattern("CJASB|JB660929", "CJ%"));
    assert!(match_pattern("CJASB|JB660929", "_JA__|J%"));
    assert!(!match_pattern("CJ", "___"));
    assert!(match_pattern("CJ", "CJ%"));
    assert!(match_pattern("CJASB", "[A-C]J[^B]SB"));
    assert!(!match_pattern("CJBSB", "[A-C]J[^B]SB"));
    assert!(match_pattern("CJASB", "C[IJK]%"));
    assert!(!match_pattern("", "[A]"));
    assert!(match_pattern("", ""));
    assert!(match_pattern("", "%"));
}

#[test]
fn like_form_of_vpic_keys() {
    assert_eq!(to_sql_like("*J[AE]"), "_J[AE]%");
    assert_eq!(to_sql_like(""), "%");
}

#[test]
fn first_matching_pattern_row() {
    let key = "CJASB|JB660929";
    let patterns = vec!["*K".to_string(), "CJ*S".to_string(), "C".to_string()];
    assert_eq!(first_matching_pattern(key, &patterns), Some(1));
    let none = vec!["X".to_string()];
    assert_eq!(first_matching_pattern(key, &none), None);
}

#[test]
fn schema_choices() {
    let key = "CJASB|JB660929";
    let patterns = vec!["*K".to_string(), "CJ*S".to_string(), "C".to_string()];
    let ids = vec![10, 20, 30];
    assert_eq!(matching_schema_ids(key, &patterns, &ids), vec![20, 30]);
    assert_eq!(first_shared_id(&vec![5, 30, 20], &vec![20, 30]), Some(30));
    assert_eq!(first_shared_id(&vec![5], &vec![20, 30]), None);
    assert_eq!(vspec_schema_id_from(&vec![248, 300], &vec![7, 248]).unwrap(), 248);
    assert!(matches!(vspec_schema_id_from(&vec![1], &vec![2]), Err(Error::InvalidVSpecSchemaId)));
}

#[test]
fn vin_schema_from_rows() {
    let vin = VIN::new(VIN_STRING).unwrap();
    let patterns = vec!["*J[AE]".to_string(), "CJ*S".to_string()];
    let pattern_ids = vec![15103, 99];
    assert_eq!(vin.vin_schema_id_from(&patterns, &pattern_ids, &vec![1, 15103]).unwrap(), 15103);
    assert!(matches!(
        vin.vin_schema_id_from(&patterns, &pattern_ids, &vec![1, 2]),
        Err(Error::InvalidVinSchemaId)
    ));
}

#[test]
fn vspec_pattern_choice() {
    let only = vec![VSpecCandidate { pattern_id: 461, key_attribute: None, matched_attribute: None }];
    assert_eq!(vspec_pattern_id_from(&only).unwrap(), 461);
    let several = vec![
        VSpecCandidate {
            pattern_id: 461,
            key_attribute: Some("LS".to_string()),
            matched_attribute: Some("Preferred".to_string()),
        },
        VSpecCandidate {
            pattern_id: 462,
            key_attribute: Some("Preferred".to_string()),
            matched_attribute: Some("Preferred".to_string()),
        },
    ];
    assert_eq!(vspec_pattern_id_from(&several).unwrap(), 462);
    let none: Vec<VSpecCandidate> = Vec::new();
    assert!(matches!(vspec_pattern_id_from(&none), Err(Error::NoResultsFound("get_vspec_pattern_id"))));
    let unfitting = vec![
        VSpecCandidate { pattern_id: 1, key_attribute: Some("A".to_string()), matched_attribute: None },
        VSpecCandidate { pattern_id: 2, key_attribute: Some("A".to_string()), matched_attribute: Some("B".to_string()) },
    ];
    assert!(matches!(vspec_pattern_id_from(&unfitting), Err(Error::InvalidVSpecPatternId)));
}

#[test]
fn key_elements() {
    assert_eq!(key_element(38).map(|e| e.as_i64()), Some(38));
    assert_eq!(key_element(65536 + 38).map(|e| e.as_i64()), Some(38));
    assert!(key_element(1).is_none());
    assert_eq!(ElementId::Trim.as_i64(), 38);
}

#[test]
fn vins_compare_by_text() {
    assert!(VIN::new(VIN_STRING).unwrap() == VIN::new(VIN_STRING).unwrap());
    assert!(VIN::new(VIN_STRING).unwrap() != VIN::new("1M8GDM9AXKP042788").unwrap());
}
