//! OBD-II diagnostics: ELM327 command building, response decoding,
//! diagnostic trouble code decoding and VIN decoding.
pub mod chars;
pub mod cmd;
pub mod dicts;
pub mod mid;
pub mod obd;
pub mod replay;
pub mod pid;
pub mod response;
pub mod scalar;
pub mod text;
pub mod vin;

pub use cmd::{Command, CommandType};
pub use obd::{BankNumber, OBDError, OxygenSensor, SensorNumber, Service, OBD};
pub use response::{PayloadComponent, Response};
