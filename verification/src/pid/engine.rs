//! Engine values.
use vstd::prelude::*;

verus! {

/// How the engine ignites its fuel.
#[derive(Debug, PartialEq, Eq, Structural, Clone, Copy)]
pub enum EngineType {
    SparkIgnition,
    CompressionIgnition,
    Unknown,
}

/// The text shown for an engine type.
pub open spec fn engine_type_text(e: EngineType) -> &'static str {
    match e {
        EngineType::SparkIgnition => "Internal Combustion Engine",
        EngineType::CompressionIgnition => "Compression Ignition Engine",
        EngineType::Unknown => "Unkown",
    }
}

/// The engine type that bit 3 of byte B of PID `0101` reports.
pub open spec fn engine_type_of(b: u8) -> EngineType {
    if (b / 8) % 2 == 0 {
        EngineType::SparkIgnition
    } else {
        EngineType::CompressionIgnition
    }
}

impl EngineType {
    /// The text shown for this engine type.
    pub fn as_str(&self) -> (res: &str)
        ensures
            res == engine_type_text(*self),
    {
        match self {
            EngineType::SparkIgnition => "Internal Combustion Engine",
            EngineType::CompressionIgnition => "Compression Ignition Engine",
            EngineType::Unknown => "Unkown",
        }
    }

    /// The engine type from byte B of PID `0101`: bit 3 set means
    /// compression ignition, clear means spark ignition.
    pub fn from_monitor_byte(b: u8) -> (res: EngineType)
        ensures
            res == engine_type_of(b),
    {
        let bit = b & 0b0000_1000;
        assert(bit == 0 <==> (b / 8) % 2 == 0) by (bit_vector)
            requires
                bit == b & 0b0000_1000,
        ;
        if bit == 0 {
            EngineType::SparkIgnition
        } else {
            EngineType::CompressionIgnition
        }
    }
}


/// How the engine's valves are driven (the vPIC valve train design id).
#[derive(Debug, PartialEq, Eq, Structural, Clone, Copy)]
pub enum ValveTrainDesign {
    CamlessValveActuation,
    DualOverheadCam,
    OverheadValve,
    SingleOverheadCam,
    Unknown,
}

/// The valve train design of an id: 1 to 4, anything else unknown.
pub open spec fn valve_train_of(id: u8) -> ValveTrainDesign {
    match id {
        1u8 => ValveTrainDesign::CamlessValveActuation,
        2u8 => ValveTrainDesign::DualOverheadCam,
        3u8 => ValveTrainDesign::OverheadValve,
        4u8 => ValveTrainDesign::SingleOverheadCam,
        _ => ValveTrainDesign::Unknown,
    }
}

/// The vPIC id of a valve train design (5 for an unknown one).
pub open spec fn valve_train_id(v: ValveTrainDesign) -> u8 {
    match v {
        ValveTrainDesign::CamlessValveActuation => 1,
        ValveTrainDesign::DualOverheadCam => 2,
        ValveTrainDesign::OverheadValve => 3,
        ValveTrainDesign::SingleOverheadCam => 4,
        ValveTrainDesign::Unknown => 5,
    }
}

/// The name of a valve train design.
pub open spec fn valve_train_text(v: ValveTrainDesign) -> &'static str {
    match v {
        ValveTrainDesign::CamlessValveActuation => "Camless Valve Actuation (CVA)",
        ValveTrainDesign::DualOverheadCam => "Dual Overhead Cam (DOHC)",
        ValveTrainDesign::OverheadValve => "Overhead Valve (OHV)",
        ValveTrainDesign::SingleOverheadCam => "Single Overhead Cam (SOHC)",
        ValveTrainDesign::Unknown => "Unknown",
    }
}

impl ValveTrainDesign {
    /// The valve train design of an id (see [`valve_train_of`]).
    pub fn from_u8(from: u8) -> (res: Self)
        ensures
            res == valve_train_of(from),
    {
        match from {
            1u8 => ValveTrainDesign::CamlessValveActuation,
            2u8 => ValveTrainDesign::DualOverheadCam,
            3u8 => ValveTrainDesign::OverheadValve,
            4u8 => ValveTrainDesign::SingleOverheadCam,
            _ => ValveTrainDesign::Unknown,
        }
    }

    /// The vPIC id of the valve train design: 1 to 4, and 5 for an unknown
    /// design (the number that follows).
    pub fn vpic_id(&self) -> (res: u8)
        ensures
            res == valve_train_id(*self),
            res <= 4 ==> valve_train_of(res) == *self,
    {
        match self {
            ValveTrainDesign::CamlessValveActuation => 1,
            ValveTrainDesign::DualOverheadCam => 2,
            ValveTrainDesign::OverheadValve => 3,
            ValveTrainDesign::SingleOverheadCam => 4,
            ValveTrainDesign::Unknown => 5,
        }
    }

    /// The name of the valve train design.
    pub fn as_str(&self) -> (res: &'static str)
        ensures
            res == valve_train_text(*self),
    {
        match self {
            ValveTrainDesign::CamlessValveActuation => "Camless Valve Actuation (CVA)",
            ValveTrainDesign::DualOverheadCam => "Dual Overhead Cam (DOHC)",
            ValveTrainDesign::OverheadValve => "Overhead Valve (OHV)",
            ValveTrainDesign::SingleOverheadCam => "Single Overhead Cam (SOHC)",
            ValveTrainDesign::Unknown => "Unknown",
        }
    }
}

} // verus!
