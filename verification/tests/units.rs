use obdium::scalar::{display_unit, ParseUnitError, Unit, UnitPreferences};

const ALL: [Unit; 30] = [
    Unit::Percent,
    Unit::Ratio,
    Unit::Celsius,
    Unit::Fahrenheit,
    Unit::Degrees,
    Unit::KiloPascal,
    Unit::Pascal,
    Unit::RPM,
    Unit::KilometersPerHour,
    Unit::MilesPerHour,
    Unit::GramsPerSecond,
    Unit::Volts,
    Unit::Seconds,
    Unit::Hours,
    Unit::Minutes,
    Unit::Kilometers,
    Unit::Meters,
    Unit::Miles,
    Unit::Feet,
    Unit::Milliampere,
    Unit::LitresPerHour,
    Unit::GallonsPerHour,
    Unit::NewtonMeters,
    Unit::FootPounds,
    Unit::KilogramsPerSecond,
    Unit::PartsPerMillion,
    Unit::MiligramsPerStroke,
    Unit::PSI,
    Unit::Unknown,
    Unit::NoData,
];

#[test]
fn unit_symbols() {
    assert_eq!(Unit::Celsius.as_str(), "°C");
    assert_eq!(Unit::MiligramsPerStroke.as_str(), "mg/stroke");
    assert_eq!(Unit::Ratio.as_str(), "");
    assert_eq!(Unit::NoData.as_str(), "NO DATA");
    assert_eq!(Unit::default(), Unit::NoData);
}

#[test]
fn unit_texts() {
    assert_eq!("°F".parse::<Unit>(), Ok(Unit::Fahrenheit));
    assert_eq!(Unit::from_text("ratio"), Ok(Unit::Ratio));
    assert_eq!(Unit::from_text("ft-lb"), Ok(Unit::FootPounds));
    assert_eq!(Unit::from_text("KPA"), Err(ParseUnitError));
    assert_eq!(Unit::from_text(""), Err(ParseUnitError));
}

#[test]
fn symbols_read_back() {
    for u in ALL {
        if u == Unit::Ratio || u == Unit::Unknown || u == Unit::NoData {
            continue;
        }
        assert_eq!(Unit::from_text(u.as_str()), Ok(u));
    }
}

#[test]
fn conversions_go_both_ways() {
    for a in ALL {
        assert!(!a.converts_to(a));
        for b in ALL {
            assert_eq!(a.converts_to(b), b.converts_to(a));
        }
    }
    assert!(Unit::Kilometers.converts_to(Unit::Feet));
    assert!(!Unit::Miles.converts_to(Unit::Meters));
}

#[test]
fn default_preferences() {
    let p = UnitPreferences::default();
    assert_eq!(*p.speed(), Unit::KilometersPerHour);
    assert_eq!(*p.distance(), Unit::Kilometers);
    assert_eq!(*p.temp(), Unit::Celsius);
    assert_eq!(*p.torque(), Unit::NewtonMeters);
    assert_eq!(*p.pressure(), Unit::KiloPascal);
    assert_eq!(*p.flow_rate(), Unit::LitresPerHour);
}

#[test]
fn setting_one_preference_keeps_the_others() {
    let mut p = UnitPreferences::default();
    p.set_speed(Unit::MilesPerHour);
    p.set_distance(Unit::Miles);
    p.set_temp(Unit::Fahrenheit);
    p.set_torque(Unit::FootPounds);
    p.set_pressure(Unit::PSI);
    p.set_flow_rate(Unit::GallonsPerHour);
    assert_eq!(*p.speed(), Unit::MilesPerHour);
    assert_eq!(*p.distance(), Unit::Miles);
    assert_eq!(*p.temp(), Unit::Fahrenheit);
    assert_eq!(*p.torque(), Unit::FootPounds);
    assert_eq!(*p.pressure(), Unit::PSI);
    assert_eq!(*p.flow_rate(), Unit::GallonsPerHour);
}

#[test]
fn shown_units() {
    let mut p = UnitPreferences::default();
    assert_eq!(display_unit(Unit::Miles, Some(p)), Unit::Kilometers);
    assert_eq!(display_unit(Unit::Miles, None), Unit::Miles);
    assert_eq!(display_unit(Unit::RPM, Some(p)), Unit::RPM);
    p.set_distance(Unit::Meters);
    assert_eq!(display_unit(Unit::Kilometers, Some(p)), Unit::Meters);
    assert_eq!(display_unit(Unit::Miles, Some(p)), Unit::Miles);
    p.set_temp(Unit::Degrees);
    assert_eq!(display_unit(Unit::Celsius, Some(p)), Unit::Celsius);
    assert_eq!(p.target_unit(Unit::Fahrenheit), Unit::Degrees);
}
