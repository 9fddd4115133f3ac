//! Element ids of the vPIC database (rows of its `Element` table) that the
//! decoder reads.
use vstd::prelude::*;

verus! {

/// An element of the vPIC database.
#[derive(Debug, PartialEq, Eq, Structural, Clone, Copy)]
pub enum ElementId {
    BodyClass,
    ManufacturerCountry,
    EngineCylinderCount,
    DriveType,
    EngineDisplacement,
    VehicleDoorCount,
    EngineModel,
    FuelType,
    VehicleWeightRating,
    VehicleModel,
    PlantCity,
    NumberOfSeats,
    SteeringLocation,
    TransmissionStyle,
    Trim,
    Windows,
    AxleCount,
    BrakeSystem,
    AirbagLocationsCurtain,
    AirbagLocationsSeatCushion,
    NumberOfRows,
    ValveTrainDesign,
    TransmissionSpeeds,
    AirbagLocationsFront,
    FuelDeliveryType,
    AirbagLocationsKnee,
    PlantCountry,
    PlantCompanyName,
    PlantState,
    SeatbeltType,
    ABS,
    ElectronicStabilityControl,
    TractionControl,
    BackupCamera,
    AirbagLocationsSide,
    WheelSizeFront,
    WheelSizeRear,
    TopSpeedMPH,
    EngineManufacturer,
    VehicleBasePrice,
    HasTurbo,
    DynamicBrakeSupport,
    ACN,
    AutoReverseSystem,
    DaytimeRunningLight,
    SemiAutoHeadlampBeamSwitching,
    AdaptiveDrivingBeam,
    KeylessIgnition,
}

/// The id of an element in the vPIC `Element` table.
pub open spec fn element_id_value(e: ElementId) -> int {
    match e {
        ElementId::BodyClass => 5,
        ElementId::ManufacturerCountry => 8,
        ElementId::EngineCylinderCount => 9,
        ElementId::DriveType => 15,
        ElementId::EngineDisplacement => 13,
        ElementId::VehicleDoorCount => 14,
        ElementId::EngineModel => 18,
        ElementId::FuelType => 24,
        ElementId::VehicleWeightRating => 25,
        ElementId::VehicleModel => 28,
        ElementId::PlantCity => 31,
        ElementId::NumberOfSeats => 33,
        ElementId::SteeringLocation => 36,
        ElementId::TransmissionStyle => 37,
        ElementId::Trim => 38,
        ElementId::Windows => 40,
        ElementId::AxleCount => 41,
        ElementId::BrakeSystem => 42,
        ElementId::AirbagLocationsCurtain => 55,
        ElementId::AirbagLocationsSeatCushion => 56,
        ElementId::NumberOfRows => 61,
        ElementId::ValveTrainDesign => 62,
        ElementId::TransmissionSpeeds => 63,
        ElementId::AirbagLocationsFront => 65,
        ElementId::FuelDeliveryType => 67,
        ElementId::AirbagLocationsKnee => 69,
        ElementId::PlantCountry => 75,
        ElementId::PlantCompanyName => 76,
        ElementId::PlantState => 77,
        ElementId::SeatbeltType => 79,
        ElementId::ABS => 86,
        ElementId::ElectronicStabilityControl => 99,
        ElementId::TractionControl => 100,
        ElementId::BackupCamera => 104,
        ElementId::AirbagLocationsSide => 107,
        ElementId::WheelSizeFront => 119,
        ElementId::WheelSizeRear => 120,
        ElementId::TopSpeedMPH => 139,
        ElementId::EngineManufacturer => 146,
        ElementId::VehicleBasePrice => 136,
        ElementId::HasTurbo => 135,
        ElementId::DynamicBrakeSupport => 170,
        ElementId::ACN => 174,
        ElementId::AutoReverseSystem => 172,
        ElementId::DaytimeRunningLight => 177,
        ElementId::SemiAutoHeadlampBeamSwitching => 179,
        ElementId::AdaptiveDrivingBeam => 180,
        ElementId::KeylessIgnition => 176,
    }
}

impl ElementId {
    /// The id of this element in the vPIC `Element` table.
    pub fn as_i64(&self) -> (res: i64)
        ensures
            res == element_id_value(*self),
    {
        match self {
            ElementId::BodyClass => 5,
            ElementId::ManufacturerCountry => 8,
            ElementId::EngineCylinderCount => 9,
            ElementId::DriveType => 15,
            ElementId::EngineDisplacement => 13,
            ElementId::VehicleDoorCount => 14,
            ElementId::EngineModel => 18,
            ElementId::FuelType => 24,
            ElementId::VehicleWeightRating => 25,
            ElementId::VehicleModel => 28,
            ElementId::PlantCity => 31,
            ElementId::NumberOfSeats => 33,
            ElementId::SteeringLocation => 36,
            ElementId::TransmissionStyle => 37,
            ElementId::Trim => 38,
            ElementId::Windows => 40,
            ElementId::AxleCount => 41,
            ElementId::BrakeSystem => 42,
            ElementId::AirbagLocationsCurtain => 55,
            ElementId::AirbagLocationsSeatCushion => 56,
            ElementId::NumberOfRows => 61,
            ElementId::ValveTrainDesign => 62,
            ElementId::TransmissionSpeeds => 63,
            ElementId::AirbagLocationsFront => 65,
            ElementId::FuelDeliveryType => 67,
            ElementId::AirbagLocationsKnee => 69,
            ElementId::PlantCountry => 75,
            ElementId::PlantCompanyName => 76,
            ElementId::PlantState => 77,
            ElementId::SeatbeltType => 79,
            ElementId::ABS => 86,
            ElementId::ElectronicStabilityControl => 99,
            ElementId::TractionControl => 100,
            ElementId::BackupCamera => 104,
            ElementId::AirbagLocationsSide => 107,
            ElementId::WheelSizeFront => 119,
            ElementId::WheelSizeRear => 120,
            ElementId::TopSpeedMPH => 139,
            ElementId::EngineManufacturer => 146,
            ElementId::VehicleBasePrice => 136,
            ElementId::HasTurbo => 135,
            ElementId::DynamicBrakeSupport => 170,
            ElementId::ACN => 174,
            ElementId::AutoReverseSystem => 172,
            ElementId::DaytimeRunningLight => 177,
            ElementId::SemiAutoHeadlampBeamSwitching => 179,
            ElementId::AdaptiveDrivingBeam => 180,
            ElementId::KeylessIgnition => 176,
        }
    }

    /// The element with the given id, if the decoder knows it (what the
    /// derived `TryFrom<u16>` of the element enum gives).
    pub fn try_from_u16(id: u16) -> (res: Option<ElementId>)
        ensures
            res matches Some(e) ==> element_id_value(e) == id,
            res is None ==> forall|e: ElementId| element_id_value(e) != id,
    {
        match id {
            5 => Some(ElementId::BodyClass),
            8 => Some(ElementId::ManufacturerCountry),
            9 => Some(ElementId::EngineCylinderCount),
            15 => Some(ElementId::DriveType),
            13 => Some(ElementId::EngineDisplacement),
            14 => Some(ElementId::VehicleDoorCount),
            18 => Some(ElementId::EngineModel),
            24 => Some(ElementId::FuelType),
            25 => Some(ElementId::VehicleWeightRating),
            28 => Some(ElementId::VehicleModel),
            31 => Some(ElementId::PlantCity),
            33 => Some(ElementId::NumberOfSeats),
            36 => Some(ElementId::SteeringLocation),
            37 => Some(ElementId::TransmissionStyle),
            38 => Some(ElementId::Trim),
            40 => Some(ElementId::Windows),
            41 => Some(ElementId::AxleCount),
            42 => Some(ElementId::BrakeSystem),
            55 => Some(ElementId::AirbagLocationsCurtain),
            56 => Some(ElementId::AirbagLocationsSeatCushion),
            61 => Some(ElementId::NumberOfRows),
            62 => Some(ElementId::ValveTrainDesign),
            63 => Some(ElementId::TransmissionSpeeds),
            65 => Some(ElementId::AirbagLocationsFront),
            67 => Some(ElementId::FuelDeliveryType),
            69 => Some(ElementId::AirbagLocationsKnee),
            75 => Some(ElementId::PlantCountry),
            76 => Some(ElementId::PlantCompanyName),
            77 => Some(ElementId::PlantState),
            79 => Some(ElementId::SeatbeltType),
            86 => Some(ElementId::ABS),
            99 => Some(ElementId::ElectronicStabilityControl),
            100 => Some(ElementId::TractionControl),
            104 => Some(ElementId::BackupCamera),
            107 => Some(ElementId::AirbagLocationsSide),
            119 => Some(ElementId::WheelSizeFront),
            120 => Some(ElementId::WheelSizeRear),
            139 => Some(ElementId::TopSpeedMPH),
            146 => Some(ElementId::EngineManufacturer),
            136 => Some(ElementId::VehicleBasePrice),
            135 => Some(ElementId::HasTurbo),
            170 => Some(ElementId::DynamicBrakeSupport),
            174 => Some(ElementId::ACN),
            172 => Some(ElementId::AutoReverseSystem),
            177 => Some(ElementId::DaytimeRunningLight),
            179 => Some(ElementId::SemiAutoHeadlampBeamSwitching),
            180 => Some(ElementId::AdaptiveDrivingBeam),
            176 => Some(ElementId::KeylessIgnition),
            _ => None,
        }
    }
}

/// Two elements never share an id, and every id lies between 1 and 180.
pub proof fn lemma_element_ids_distinct(e: ElementId, f: ElementId)
    ensures
        element_id_value(e) == element_id_value(f) ==> e == f,
        0 < element_id_value(e) <= 180,
{
}

} // verus!
