//! VIN decoding: validation, check digit, world manufacturer identifier,
//! model year, and the pattern matching used against the vPIC database.
pub mod attributes;
pub mod element_ids;
pub mod parser;
pub mod pattern;
pub mod schema;

pub use element_ids::ElementId;
pub use parser::{Error, VIN};

