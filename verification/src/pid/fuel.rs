//! Fuel values: fuel type, fuel system status and fuel delivery type.
use vstd::prelude::*;

verus! {

/// The fuel that the vehicle runs on (PID `0151`).
#[derive(Debug, Clone, Copy)]
pub enum FuelType {
    /// Its name.
    Type(&'static str),
}

/// The name of a fuel type code.
pub open spec fn fuel_type_name(num: u8) -> &'static str {
    match num {
        1u8 => "Gasoline",
        2u8 => "Methanol",
        3u8 => "Ethanol",
        4u8 => "Diesel",
        5u8 => "LPG",
        6u8 => "CNG",
        7u8 => "Propane",
        8u8 => "Electric",
        9u8 => "Bifuel Gasoline",
        10u8 => "Bifuel Methanol",
        11u8 => "Bifuel Ethanol",
        12u8 => "Bifuel LPG",
        13u8 => "Bifuel CNG",
        14u8 => "Bifuel Propane",
        15u8 => "Bifuel Electric",
        16u8 => "Bifuel ElectricEngine",
        17u8 => "Hybrid Gasoline",
        18u8 => "Hybrid Ethanol",
        19u8 => "Hybrid Diesel",
        20u8 => "Hybrid Electric",
        21u8 => "Hybrid ElectricEngine",
        22u8 => "Hybrid Regenerative",
        23u8 => "Bifuel Diesel",
        _ => "Unknown",
    }
}

impl FuelType {
    /// The fuel type for a code.
    pub fn from_u8(num: u8) -> (res: Self)
        ensures
            res == FuelType::Type(fuel_type_name(num)),
    {
        let text: &'static str = match num {
            1u8 => "Gasoline",
            2u8 => "Methanol",
            3u8 => "Ethanol",
            4u8 => "Diesel",
            5u8 => "LPG",
            6u8 => "CNG",
            7u8 => "Propane",
            8u8 => "Electric",
            9u8 => "Bifuel Gasoline",
            10u8 => "Bifuel Methanol",
            11u8 => "Bifuel Ethanol",
            12u8 => "Bifuel LPG",
            13u8 => "Bifuel CNG",
            14u8 => "Bifuel Propane",
            15u8 => "Bifuel Electric",
            16u8 => "Bifuel ElectricEngine",
            17u8 => "Hybrid Gasoline",
            18u8 => "Hybrid Ethanol",
            19u8 => "Hybrid Diesel",
            20u8 => "Hybrid Electric",
            21u8 => "Hybrid ElectricEngine",
            22u8 => "Hybrid Regenerative",
            23u8 => "Bifuel Diesel",
            _ => "Unknown",
        };
        FuelType::Type(text)
    }
}

/// The state of a fuel system (PID `0103`).
#[derive(Debug, Clone, Copy)]
pub enum FuelSystemStatus {
    /// Its description.
    Status(&'static str),
}

/// The description of a fuel system status code.
pub open spec fn fuel_system_status_text(num: u8) -> &'static str {
    match num {
        0u8 => "Motor is off",
        1u8 => "Open loop due to insufficient engine temperature",
        2u8 => "Closed loop, using O2 sensor feedback for fuel mix",
        4u8 => "Open loop due to engine load, or fuel cut due to deceleration",
        8u8 => "Open loop due to system failure",
        16u8 => "Closed loop. Feedback system fault. Using atleast one O2 sensor",
        _ => "Unknown fuel system status",
    }
}

impl FuelSystemStatus {
    /// The fuel system status for a code.
    pub fn from_u8(num: u8) -> (res: Self)
        ensures
            res == FuelSystemStatus::Status(fuel_system_status_text(num)),
    {
        let text: &'static str = match num {
            0u8 => "Motor is off",
            1u8 => "Open loop due to insufficient engine temperature",
            2u8 => "Closed loop, using O2 sensor feedback for fuel mix",
            4u8 => "Open loop due to engine load, or fuel cut due to deceleration",
            8u8 => "Open loop due to system failure",
            16u8 => "Closed loop. Feedback system fault. Using atleast one O2 sensor",
            _ => "Unknown fuel system status",
        };
        FuelSystemStatus::Status(text)
    }
}

/// How fuel is delivered to the engine (the vPIC fuel delivery type id).
#[derive(Debug, Clone, Copy)]
pub enum FuelDeliveryType {
    /// Its name.
    Type(&'static str),
}

/// The name of a fuel delivery type id.
pub open spec fn fuel_delivery_type_name(num: u8) -> &'static str {
    match num {
        1u8 => "Stoichiometric Gasoline Direction Injection",
        2u8 => "Lean-Burn Gasoline Direct Injection",
        3u8 => "Multipoint Fuel Injection",
        4u8 => "Sequential Fuel Injection",
        5u8 => "Throttle Body Fuel Injection",
        6u8 => "Common Rail Direct Injection Diesel",
        7u8 => "Unit Injector Direct Injection Diesel",
        9u8 => "Compression Ignition",
        10u8 => "Transistor Controlled Ignition",
        _ => "Unknown",
    }
}

impl FuelDeliveryType {
    /// The fuel delivery type for an id.
    pub fn from_u8(num: u8) -> (res: Self)
        ensures
            res == FuelDeliveryType::Type(fuel_delivery_type_name(num)),
    {
        let text: &'static str = match num {
            1u8 => "Stoichiometric Gasoline Direction Injection",
            2u8 => "Lean-Burn Gasoline Direct Injection",
            3u8 => "Multipoint Fuel Injection",
            4u8 => "Sequential Fuel Injection",
            5u8 => "Throttle Body Fuel Injection",
            6u8 => "Common Rail Direct Injection Diesel",
            7u8 => "Unit Injector Direct Injection Diesel",
            9u8 => "Compression Ignition",
            10u8 => "Transistor Controlled Ignition",
            _ => "Unknown",
        };
        FuelDeliveryType::Type(text)
    }
}

} // verus!
