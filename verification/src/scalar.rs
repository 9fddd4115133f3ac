//! Units of the values that the library reads, the unit preferences of
//! a session, and which unit a value is shown in.
use vstd::prelude::*;

use crate::text::str_eq;

verus! {

/// The unit of a value.
#[derive(Clone, Copy, PartialEq, Eq, Structural, PartialOrd, Ord, Debug)]
pub enum Unit {
    Percent,
    Ratio,
    Celsius,
    Fahrenheit,
    Degrees,
    KiloPascal,
    Pascal,
    RPM,
    KilometersPerHour,
    MilesPerHour,
    GramsPerSecond,
    Volts,
    Seconds,
    Hours,
    Minutes,
    Kilometers,
    Meters,
    Miles,
    Feet,
    Milliampere,
    LitresPerHour,
    GallonsPerHour,
    NewtonMeters,
    FootPounds,
    KilogramsPerSecond,
    PartsPerMillion,
    MiligramsPerStroke,
    PSI,
    Unknown,
    NoData,
}

/// A text names no unit.
#[derive(Clone, Copy, PartialEq, Eq, Structural, PartialOrd, Ord, Debug)]
pub struct ParseUnitError;

impl Default for Unit {
    fn default() -> (res: Self)
        ensures
            res == Unit::NoData,
    {
        Unit::NoData
    }
}

/// The symbol that a unit is shown with (`""` for a ratio and for an
/// unknown unit, `NO DATA` for a missing value).
pub open spec fn unit_symbol(u: Unit) -> &'static str {
    match u {
        Unit::Percent => "%",
        Unit::Ratio => "",
        Unit::Celsius => "°C",
        Unit::Fahrenheit => "°F",
        Unit::Degrees => "°",
        Unit::KiloPascal => "kPa",
        Unit::Pascal => "Pa",
        Unit::RPM => "RPM",
        Unit::KilometersPerHour => "km/h",
        Unit::MilesPerHour => "mph",
        Unit::GramsPerSecond => "g/s",
        Unit::Volts => "V",
        Unit::Seconds => "s",
        Unit::Hours => "h",
        Unit::Minutes => "mins",
        Unit::Kilometers => "km",
        Unit::Meters => "m",
        Unit::Miles => "mi",
        Unit::Feet => "ft",
        Unit::Milliampere => "mA",
        Unit::LitresPerHour => "L/h",
        Unit::GallonsPerHour => "gal/h",
        Unit::NewtonMeters => "Nm",
        Unit::FootPounds => "ft-lb",
        Unit::KilogramsPerSecond => "Kg/s",
        Unit::PartsPerMillion => "ppm",
        Unit::MiligramsPerStroke => "mg/stroke",
        Unit::PSI => "PSI",
        Unit::Unknown => "",
        Unit::NoData => "NO DATA",
    }
}

/// The unit that a text names: its symbol, or `ratio`; the symbols are
/// tried in a fixed order and the first that equals the text wins.
pub open spec fn unit_named(t: Seq<char>) -> Result<Unit, ParseUnitError> {
    if t == "%"@ {
        Ok(Unit::Percent)
    } else if t == "ratio"@ {
        Ok(Unit::Ratio)
    } else if t == "°C"@ {
        Ok(Unit::Celsius)
    } else if t == "°F"@ {
        Ok(Unit::Fahrenheit)
    } else if t == "°"@ {
        Ok(Unit::Degrees)
    } else if t == "kPa"@ {
        Ok(Unit::KiloPascal)
    } else if t == "Pa"@ {
        Ok(Unit::Pascal)
    } else if t == "RPM"@ {
        Ok(Unit::RPM)
    } else if t == "km/h"@ {
        Ok(Unit::KilometersPerHour)
    } else if t == "g/s"@ {
        Ok(Unit::GramsPerSecond)
    } else if t == "V"@ {
        Ok(Unit::Volts)
    } else if t == "s"@ {
        Ok(Unit::Seconds)
    } else if t == "h"@ {
        Ok(Unit::Hours)
    } else if t == "mins"@ {
        Ok(Unit::Minutes)
    } else if t == "km"@ {
        Ok(Unit::Kilometers)
    } else if t == "mA"@ {
        Ok(Unit::Milliampere)
    } else if t == "L/h"@ {
        Ok(Unit::LitresPerHour)
    } else if t == "Nm"@ {
        Ok(Unit::NewtonMeters)
    } else if t == "Kg/s"@ {
        Ok(Unit::KilogramsPerSecond)
    } else if t == "ppm"@ {
        Ok(Unit::PartsPerMillion)
    } else if t == "mg/stroke"@ {
        Ok(Unit::MiligramsPerStroke)
    } else if t == "PSI"@ {
        Ok(Unit::PSI)
    } else if t == "mph"@ {
        Ok(Unit::MilesPerHour)
    } else if t == "m"@ {
        Ok(Unit::Meters)
    } else if t == "mi"@ {
        Ok(Unit::Miles)
    } else if t == "ft"@ {
        Ok(Unit::Feet)
    } else if t == "gal/h"@ {
        Ok(Unit::GallonsPerHour)
    } else if t == "ft-lb"@ {
        Ok(Unit::FootPounds)
    } else {
        Err(ParseUnitError)
    }
}

impl Unit {
    /// The symbol of the unit (see [`unit_symbol`]).
    pub fn as_str(&self) -> (res: &'static str)
        ensures
            res == unit_symbol(*self),
    {
        match self {
            Unit::Percent => "%",
            Unit::Ratio => "",
            Unit::Celsius => "°C",
            Unit::Fahrenheit => "°F",
            Unit::Degrees => "°",
            Unit::KiloPascal => "kPa",
            Unit::Pascal => "Pa",
            Unit::RPM => "RPM",
            Unit::KilometersPerHour => "km/h",
            Unit::MilesPerHour => "mph",
            Unit::GramsPerSecond => "g/s",
            Unit::Volts => "V",
            Unit::Seconds => "s",
            Unit::Hours => "h",
            Unit::Minutes => "mins",
            Unit::Kilometers => "km",
            Unit::Meters => "m",
            Unit::Miles => "mi",
            Unit::Feet => "ft",
            Unit::Milliampere => "mA",
            Unit::LitresPerHour => "L/h",
            Unit::GallonsPerHour => "gal/h",
            Unit::NewtonMeters => "Nm",
            Unit::FootPounds => "ft-lb",
            Unit::KilogramsPerSecond => "Kg/s",
            Unit::PartsPerMillion => "ppm",
            Unit::MiligramsPerStroke => "mg/stroke",
            Unit::PSI => "PSI",
            Unit::Unknown => "",
            Unit::NoData => "NO DATA",
        }
    }

    /// The unit that a text names (see [`unit_named`]).
    pub fn from_text(s: &str) -> (res: Result<Unit, ParseUnitError>)
        ensures
            res == unit_named(s@),
    {
        if str_eq(s, "%") {
            Ok(Unit::Percent)
        } else if str_eq(s, "ratio") {
            Ok(Unit::Ratio)
        } else if str_eq(s, "°C") {
            Ok(Unit::Celsius)
        } else if str_eq(s, "°F") {
            Ok(Unit::Fahrenheit)
        } else if str_eq(s, "°") {
            Ok(Unit::Degrees)
        } else if str_eq(s, "kPa") {
            Ok(Unit::KiloPascal)
        } else if str_eq(s, "Pa") {
            Ok(Unit::Pascal)
        } else if str_eq(s, "RPM") {
            Ok(Unit::RPM)
        } else if str_eq(s, "km/h") {
            Ok(Unit::KilometersPerHour)
        } else if str_eq(s, "g/s") {
            Ok(Unit::GramsPerSecond)
        } else if str_eq(s, "V") {
            Ok(Unit::Volts)
        } else if str_eq(s, "s") {
            Ok(Unit::Seconds)
        } else if str_eq(s, "h") {
            Ok(Unit::Hours)
        } else if str_eq(s, "mins") {
            Ok(Unit::Minutes)
        } else if str_eq(s, "km") {
            Ok(Unit::Kilometers)
        } else if str_eq(s, "mA") {
            Ok(Unit::Milliampere)
        } else if str_eq(s, "L/h") {
            Ok(Unit::LitresPerHour)
        } else if str_eq(s, "Nm") {
            Ok(Unit::NewtonMeters)
        } else if str_eq(s, "Kg/s") {
            Ok(Unit::KilogramsPerSecond)
        } else if str_eq(s, "ppm") {
            Ok(Unit::PartsPerMillion)
        } else if str_eq(s, "mg/stroke") {
            Ok(Unit::MiligramsPerStroke)
        } else if str_eq(s, "PSI") {
            Ok(Unit::PSI)
        } else if str_eq(s, "mph") {
            Ok(Unit::MilesPerHour)
        } else if str_eq(s, "m") {
            Ok(Unit::Meters)
        } else if str_eq(s, "mi") {
            Ok(Unit::Miles)
        } else if str_eq(s, "ft") {
            Ok(Unit::Feet)
        } else if str_eq(s, "gal/h") {
            Ok(Unit::GallonsPerHour)
        } else if str_eq(s, "ft-lb") {
            Ok(Unit::FootPounds)
        } else {
            Err(ParseUnitError)
        }
    }
}

impl std::str::FromStr for Unit {
    type Err = ParseUnitError;

    /// The unit that a text names (see [`unit_named`]).
    fn from_str(s: &str) -> (res: Result<Unit, ParseUnitError>)
        ensures
            res == unit_named(s@),
    {
        Unit::from_text(s)
    }
}

/// Reading back the symbol of a unit gives the unit, for every unit whose
/// symbol names it: all but a ratio, an unknown unit and a missing value.
pub proof fn lemma_symbol_round_trip(u: Unit)
    requires
        u != Unit::Ratio,
        u != Unit::Unknown,
        u != Unit::NoData,
    ensures
        unit_named(unit_symbol(u)@) == Ok::<Unit, ParseUnitError>(u),
{
        reveal_strlit("%");
        reveal_strlit("ratio");
        reveal_strlit("°C");
        reveal_strlit("°F");
        reveal_strlit("°");
        reveal_strlit("kPa");
        reveal_strlit("Pa");
        reveal_strlit("RPM");
        reveal_strlit("km/h");
        reveal_strlit("g/s");
        reveal_strlit("V");
        reveal_strlit("s");
        reveal_strlit("h");
        reveal_strlit("mins");
        reveal_strlit("km");
        reveal_strlit("mA");
        reveal_strlit("L/h");
        reveal_strlit("Nm");
        reveal_strlit("Kg/s");
        reveal_strlit("ppm");
        reveal_strlit("mg/stroke");
        reveal_strlit("PSI");
        reveal_strlit("mph");
        reveal_strlit("m");
        reveal_strlit("mi");
        reveal_strlit("ft");
        reveal_strlit("gal/h");
        reveal_strlit("ft-lb");
        assert("%"@ =~= seq!['%']);
        assert("ratio"@ =~= seq!['r', 'a', 't', 'i', 'o']);
        assert("°C"@ =~= seq!['°', 'C']);
        assert("°F"@ =~= seq!['°', 'F']);
        assert("°"@ =~= seq!['°']);
        assert("kPa"@ =~= seq!['k', 'P', 'a']);
        assert("Pa"@ =~= seq!['P', 'a']);
        assert("RPM"@ =~= seq!['R', 'P', 'M']);
        assert("km/h"@ =~= seq!['k', 'm', '/', 'h']);
        assert("g/s"@ =~= seq!['g', '/', 's']);
        assert("V"@ =~= seq!['V']);
        assert("s"@ =~= seq!['s']);
        assert("h"@ =~= seq!['h']);
        assert("mins"@ =~= seq!['m', 'i', 'n', 's']);
        assert("km"@ =~= seq!['k', 'm']);
        assert("mA"@ =~= seq!['m', 'A']);
        assert("L/h"@ =~= seq!['L', '/', 'h']);
        assert("Nm"@ =~= seq!['N', 'm']);
        assert("Kg/s"@ =~= seq!['K', 'g', '/', 's']);
        assert("ppm"@ =~= seq!['p', 'p', 'm']);
        assert("mg/stroke"@ =~= seq!['m', 'g', '/', 's', 't', 'r', 'o', 'k', 'e']);
        assert("PSI"@ =~= seq!['P', 'S', 'I']);
        assert("mph"@ =~= seq!['m', 'p', 'h']);
        assert("m"@ =~= seq!['m']);
        assert("mi"@ =~= seq!['m', 'i']);
        assert("ft"@ =~= seq!['f', 't']);
        assert("gal/h"@ =~= seq!['g', 'a', 'l', '/', 'h']);
        assert("ft-lb"@ =~= seq!['f', 't', '-', 'l', 'b']);
        match u {
            Unit::Percent => {
                assert(unit_named(unit_symbol(u)@) == Ok::<Unit, ParseUnitError>(u));
            },
            Unit::Celsius => {
                assert(unit_named(unit_symbol(u)@) == Ok::<Unit, ParseUnitError>(u));
            },
            Unit::Fahrenheit => {
                assert(unit_named(unit_symbol(u)@) == Ok::<Unit, ParseUnitError>(u));
            },
            Unit::Degrees => {
                assert("°"@[0] != "%"@[0]);
                assert(unit_named(unit_symbol(u)@) == Ok::<Unit, ParseUnitError>(u));
            },
            Unit::KiloPascal => {
                assert(unit_named(unit_symbol(u)@) == Ok::<Unit, ParseUnitError>(u));
            },
            Unit::Pascal => {
                assert(unit_named(unit_symbol(u)@) == Ok::<Unit, ParseUnitError>(u));
            },
            Unit::RPM => {
                assert(unit_named(unit_symbol(u)@) == Ok::<Unit, ParseUnitError>(u));
            },
            Unit::KilometersPerHour => {
                assert(unit_named(unit_symbol(u)@) == Ok::<Unit, ParseUnitError>(u));
            },
            Unit::MilesPerHour => {
                assert(unit_named(unit_symbol(u)@) == Ok::<Unit, ParseUnitError>(u));
            },
            Unit::GramsPerSecond => {
                assert(unit_named(unit_symbol(u)@) == Ok::<Unit, ParseUnitError>(u));
            },
            Unit::Volts => {
                assert("V"@[0] != "%"@[0]);
                assert("V"@[0] != "°"@[0]);
                assert(unit_named(unit_symbol(u)@) == Ok::<Unit, ParseUnitError>(u));
            },
            Unit::Seconds => {
                assert("s"@[0] != "%"@[0]);
                assert("s"@[0] != "°"@[0]);
                assert("s"@[0] != "V"@[0]);
                assert(unit_named(unit_symbol(u)@) == Ok::<Unit, ParseUnitError>(u));
            },
            Unit::Hours => {
                assert("h"@[0] != "%"@[0]);
                assert("h"@[0] != "°"@[0]);
                assert("h"@[0] != "V"@[0]);
                assert("h"@[0] != "s"@[0]);
                assert(unit_named(unit_symbol(u)@) == Ok::<Unit, ParseUnitError>(u));
            },
            Unit::Minutes => {
                assert(unit_named(unit_symbol(u)@) == Ok::<Unit, ParseUnitError>(u));
            },
            Unit::Kilometers => {
                assert(unit_named(unit_symbol(u)@) == Ok::<Unit, ParseUnitError>(u));
            },
            Unit::Meters => {
                assert("m"@[0] != "%"@[0]);
                assert("m"@[0] != "°"@[0]);
                assert("m"@[0] != "V"@[0]);
                assert("m"@[0] != "s"@[0]);
                assert("m"@[0] != "h"@[0]);
                assert(unit_named(unit_symbol(u)@) == Ok::<Unit, ParseUnitError>(u));
            },
            Unit::Miles => {
                assert(unit_named(unit_symbol(u)@) == Ok::<Unit, ParseUnitError>(u));
            },
            Unit::Feet => {
                assert(unit_named(unit_symbol(u)@) == Ok::<Unit, ParseUnitError>(u));
            },
            Unit::Milliampere => {
                assert(unit_named(unit_symbol(u)@) == Ok::<Unit, ParseUnitError>(u));
            },
            Unit::LitresPerHour => {
                assert(unit_named(unit_symbol(u)@) == Ok::<Unit, ParseUnitError>(u));
            },
            Unit::GallonsPerHour => {
                assert(unit_named(unit_symbol(u)@) == Ok::<Unit, ParseUnitError>(u));
            },
            Unit::NewtonMeters => {
                assert(unit_named(unit_symbol(u)@) == Ok::<Unit, ParseUnitError>(u));
            },
            Unit::FootPounds => {
                assert(unit_named(unit_symbol(u)@) == Ok::<Unit, ParseUnitError>(u));
            },
            Unit::KilogramsPerSecond => {
                assert(unit_named(unit_symbol(u)@) == Ok::<Unit, ParseUnitError>(u));
            },
            Unit::PartsPerMillion => {
                assert(unit_named(unit_symbol(u)@) == Ok::<Unit, ParseUnitError>(u));
            },
            Unit::MiligramsPerStroke => {
                assert(unit_named(unit_symbol(u)@) == Ok::<Unit, ParseUnitError>(u));
            },
            Unit::PSI => {
                assert(unit_named(unit_symbol(u)@) == Ok::<Unit, ParseUnitError>(u));
            },
            _ => {},
        }
}


/// The pairs of distinct units between which a value can be converted:
/// kilometres and metres, miles or feet; km/h and mph; °C and °F; seconds,
/// minutes and hours; L/h and gal/h; Nm and ft-lb; kPa and PSI or Pa.
pub open spec fn convertible(from: Unit, to: Unit) -> bool {
    match (from, to) {
        (Unit::Kilometers, Unit::Meters) | (Unit::Meters, Unit::Kilometers) => true,
        (Unit::KilometersPerHour, Unit::MilesPerHour) | (Unit::MilesPerHour, Unit::KilometersPerHour) => true,
        (Unit::Kilometers, Unit::Miles) | (Unit::Miles, Unit::Kilometers) => true,
        (Unit::Kilometers, Unit::Feet) | (Unit::Feet, Unit::Kilometers) => true,
        (Unit::Celsius, Unit::Fahrenheit) | (Unit::Fahrenheit, Unit::Celsius) => true,
        (Unit::Seconds, Unit::Minutes) | (Unit::Minutes, Unit::Seconds) => true,
        (Unit::Seconds, Unit::Hours) | (Unit::Hours, Unit::Seconds) => true,
        (Unit::Minutes, Unit::Hours) | (Unit::Hours, Unit::Minutes) => true,
        (Unit::LitresPerHour, Unit::GallonsPerHour) | (Unit::GallonsPerHour, Unit::LitresPerHour) => true,
        (Unit::NewtonMeters, Unit::FootPounds) | (Unit::FootPounds, Unit::NewtonMeters) => true,
        (Unit::KiloPascal, Unit::PSI) | (Unit::PSI, Unit::KiloPascal) => true,
        (Unit::KiloPascal, Unit::Pascal) | (Unit::Pascal, Unit::KiloPascal) => true,
        _ => false,
    }
}

impl Unit {
    /// Whether a value in this unit can be converted to `target`
    /// (see [`convertible`]).
    pub fn converts_to(&self, target: Unit) -> (res: bool)
        ensures
            res == convertible(*self, target),
    {
        match (*self, target) {
            (Unit::Kilometers, Unit::Meters) | (Unit::Meters, Unit::Kilometers) => true,
            (Unit::KilometersPerHour, Unit::MilesPerHour) | (Unit::MilesPerHour, Unit::KilometersPerHour) => true,
            (Unit::Kilometers, Unit::Miles) | (Unit::Miles, Unit::Kilometers) => true,
            (Unit::Kilometers, Unit::Feet) | (Unit::Feet, Unit::Kilometers) => true,
            (Unit::Celsius, Unit::Fahrenheit) | (Unit::Fahrenheit, Unit::Celsius) => true,
            (Unit::Seconds, Unit::Minutes) | (Unit::Minutes, Unit::Seconds) => true,
            (Unit::Seconds, Unit::Hours) | (Unit::Hours, Unit::Seconds) => true,
            (Unit::Minutes, Unit::Hours) | (Unit::Hours, Unit::Minutes) => true,
            (Unit::LitresPerHour, Unit::GallonsPerHour) | (Unit::GallonsPerHour, Unit::LitresPerHour) => true,
            (Unit::NewtonMeters, Unit::FootPounds) | (Unit::FootPounds, Unit::NewtonMeters) => true,
            (Unit::KiloPascal, Unit::PSI) | (Unit::PSI, Unit::KiloPascal) => true,
            (Unit::KiloPascal, Unit::Pascal) | (Unit::Pascal, Unit::KiloPascal) => true,
            _ => false,
        }
    }
}

/// Whatever can be converted one way can be converted back, and nothing
/// converts to itself.
pub proof fn lemma_convertible_symmetric(a: Unit, b: Unit)
    ensures
        convertible(a, b) == convertible(b, a),
        !convertible(a, a),
{
}

/// The unit that each kind of quantity is shown in.
#[derive(Clone, Copy, Debug)]
pub struct UnitPreferences {
    speed: Unit,
    distance: Unit,
    temperature: Unit,
    torque: Unit,
    pressure: Unit,
    flow_rate: Unit,
}

impl UnitPreferences {
    /// The unit for speeds.
    pub closed spec fn speed_unit(self) -> Unit {
        self.speed
    }

    /// The unit for distances.
    pub closed spec fn distance_unit(self) -> Unit {
        self.distance
    }

    /// The unit for temperatures.
    pub closed spec fn temp_unit(self) -> Unit {
        self.temperature
    }

    /// The unit for torques.
    pub closed spec fn torque_unit(self) -> Unit {
        self.torque
    }

    /// The unit for pressures.
    pub closed spec fn pressure_unit(self) -> Unit {
        self.pressure
    }

    /// The unit for flow rates.
    pub closed spec fn flow_rate_unit(self) -> Unit {
        self.flow_rate
    }

    /// The preferred unit for speeds.
    pub fn speed(&self) -> (res: &Unit)
        ensures
            *res == self.speed_unit(),
    {
        &self.speed
    }

    /// The preferred unit for distances.
    pub fn distance(&self) -> (res: &Unit)
        ensures
            *res == self.distance_unit(),
    {
        &self.distance
    }

    /// The preferred unit for temperatures.
    pub fn temp(&self) -> (res: &Unit)
        ensures
            *res == self.temp_unit(),
    {
        &self.temperature
    }

    /// The preferred unit for torques.
    pub fn torque(&self) -> (res: &Unit)
        ensures
            *res == self.torque_unit(),
    {
        &self.torque
    }

    /// The preferred unit for pressures.
    pub fn pressure(&self) -> (res: &Unit)
        ensures
            *res == self.pressure_unit(),
    {
        &self.pressure
    }

    /// The preferred unit for flow rates.
    pub fn flow_rate(&self) -> (res: &Unit)
        ensures
            *res == self.flow_rate_unit(),
    {
        &self.flow_rate
    }

    /// Sets the unit for speeds; the others stay.
    pub fn set_speed(&mut self, new: Unit)
        ensures
            final(self).speed_unit() == new,
            final(self).distance_unit() == old(self).distance_unit(),
            final(self).temp_unit() == old(self).temp_unit(),
            final(self).torque_unit() == old(self).torque_unit(),
            final(self).pressure_unit() == old(self).pressure_unit(),
            final(self).flow_rate_unit() == old(self).flow_rate_unit(),
    {
        self.speed = new;
    }

    /// Sets the unit for distances; the others stay.
    pub fn set_distance(&mut self, new: Unit)
        ensures
            final(self).speed_unit() == old(self).speed_unit(),
            final(self).distance_unit() == new,
            final(self).temp_unit() == old(self).temp_unit(),
            final(self).torque_unit() == old(self).torque_unit(),
            final(self).pressure_unit() == old(self).pressure_unit(),
            final(self).flow_rate_unit() == old(self).flow_rate_unit(),
    {
        self.distance = new;
    }

    /// Sets the unit for temperatures; the others stay.
    pub fn set_temp(&mut self, new: Unit)
        ensures
            final(self).speed_unit() == old(self).speed_unit(),
            final(self).distance_unit() == old(self).distance_unit(),
            final(self).temp_unit() == new,
            final(self).torque_unit() == old(self).torque_unit(),
            final(self).pressure_unit() == old(self).pressure_unit(),
            final(self).flow_rate_unit() == old(self).flow_rate_unit(),
    {
        self.temperature = new;
    }

    /// Sets the unit for torques; the others stay.
    pub fn set_torque(&mut self, new: Unit)
        ensures
            final(self).speed_unit() == old(self).speed_unit(),
            final(self).distance_unit() == old(self).distance_unit(),
            final(self).temp_unit() == old(self).temp_unit(),
            final(self).torque_unit() == new,
            final(self).pressure_unit() == old(self).pressure_unit(),
            final(self).flow_rate_unit() == old(self).flow_rate_unit(),
    {
        self.torque = new;
    }

    /// Sets the unit for pressures; the others stay.
    pub fn set_pressure(&mut self, new: Unit)
        ensures
            final(self).speed_unit() == old(self).speed_unit(),
            final(self).distance_unit() == old(self).distance_unit(),
            final(self).temp_unit() == old(self).temp_unit(),
            final(self).torque_unit() == old(self).torque_unit(),
            final(self).pressure_unit() == new,
            final(self).flow_rate_unit() == old(self).flow_rate_unit(),
    {
        self.pressure = new;
    }

    /// Sets the unit for flow rates; the others stay.
    pub fn set_flow_rate(&mut self, new: Unit)
        ensures
            final(self).speed_unit() == old(self).speed_unit(),
            final(self).distance_unit() == old(self).distance_unit(),
            final(self).temp_unit() == old(self).temp_unit(),
            final(self).torque_unit() == old(self).torque_unit(),
            final(self).pressure_unit() == old(self).pressure_unit(),
            final(self).flow_rate_unit() == new,
    {
        self.flow_rate = new;
    }

    /// The preference for the kind of quantity that a unit measures; the
    /// unit itself for a kind without a preference.
    pub open spec fn target_for(self, unit: Unit) -> Unit {
        match unit {
            Unit::KilometersPerHour | Unit::MilesPerHour => self.speed_unit(),
            Unit::Kilometers | Unit::Miles | Unit::Meters | Unit::Feet => self.distance_unit(),
            Unit::Celsius | Unit::Fahrenheit | Unit::Degrees => self.temp_unit(),
            Unit::NewtonMeters | Unit::FootPounds => self.torque_unit(),
            Unit::KiloPascal | Unit::Pascal | Unit::PSI => self.pressure_unit(),
            Unit::LitresPerHour | Unit::GallonsPerHour => self.flow_rate_unit(),
            _ => unit,
        }
    }

    /// The preferred unit for the kind of quantity that `unit` measures
    /// (see [`UnitPreferences::target_for`]).
    pub fn target_unit(&self, unit: Unit) -> (res: Unit)
        ensures
            res == self.target_for(unit),
    {
        match unit {
            Unit::KilometersPerHour | Unit::MilesPerHour => *self.speed(),
            Unit::Kilometers | Unit::Miles | Unit::Meters | Unit::Feet => *self.distance(),
            Unit::Celsius | Unit::Fahrenheit | Unit::Degrees => *self.temp(),
            Unit::NewtonMeters | Unit::FootPounds => *self.torque(),
            Unit::KiloPascal | Unit::Pascal | Unit::PSI => *self.pressure(),
            Unit::LitresPerHour | Unit::GallonsPerHour => *self.flow_rate(),
            _ => unit,
        }
    }
}

impl UnitPreferences {
    /// The default preferences: km/h, km, °C, Nm, kPa and L/h.
    pub closed spec fn default_spec() -> UnitPreferences {
        UnitPreferences {
            speed: Unit::KilometersPerHour,
            distance: Unit::Kilometers,
            temperature: Unit::Celsius,
            torque: Unit::NewtonMeters,
            pressure: Unit::KiloPascal,
            flow_rate: Unit::LitresPerHour,
        }
    }

    /// What the default preferences are.
    pub proof fn lemma_default_units()
        ensures
            Self::default_spec().speed_unit() == Unit::KilometersPerHour,
            Self::default_spec().distance_unit() == Unit::Kilometers,
            Self::default_spec().temp_unit() == Unit::Celsius,
            Self::default_spec().torque_unit() == Unit::NewtonMeters,
            Self::default_spec().pressure_unit() == Unit::KiloPascal,
            Self::default_spec().flow_rate_unit() == Unit::LitresPerHour,
    {
    }
}

impl Default for UnitPreferences {
    /// km/h, km, °C, Nm, kPa and L/h.
    fn default() -> (res: Self)
        ensures
            res == Self::default_spec(),
            res.speed_unit() == Unit::KilometersPerHour,
            res.distance_unit() == Unit::Kilometers,
            res.temp_unit() == Unit::Celsius,
            res.torque_unit() == Unit::NewtonMeters,
            res.pressure_unit() == Unit::KiloPascal,
            res.flow_rate_unit() == Unit::LitresPerHour,
    {
        UnitPreferences {
            speed: Unit::KilometersPerHour,
            distance: Unit::Kilometers,
            temperature: Unit::Celsius,
            torque: Unit::NewtonMeters,
            pressure: Unit::KiloPascal,
            flow_rate: Unit::LitresPerHour,
        }
    }
}

/// The unit that a new value in `unit` is shown in: with preferences, the
/// preferred unit of its kind when the value can be converted to it;
/// otherwise `unit` itself.
pub open spec fn shown_unit(unit: Unit, preferences: Option<UnitPreferences>) -> Unit {
    match preferences {
        Some(p) => {
            let target = p.target_for(unit);
            if target != unit && convertible(unit, target) {
                target
            } else {
                unit
            }
        },
        None => unit,
    }
}

/// The unit that a new value in `unit` is shown in (see [`shown_unit`]).
pub fn display_unit(unit: Unit, preferences: Option<UnitPreferences>) -> (res: Unit)
    ensures
        res == shown_unit(unit, preferences),
{
    match preferences {
        Some(p) => {
            let target = p.target_unit(unit);
            if target != unit && unit.converts_to(target) {
                target
            } else {
                unit
            }
        },
        None => unit,
    }
}

/// A value that is shown in a unit stays in that unit when it is shown
/// again with the same preferences.
pub proof fn lemma_shown_unit_idempotent(unit: Unit, preferences: Option<UnitPreferences>)
    ensures
        shown_unit(shown_unit(unit, preferences), preferences) == shown_unit(unit, preferences),
{
}

} // verus!
