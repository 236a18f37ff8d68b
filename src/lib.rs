//! Units of measure grouped by physical dimension, with text forms, parsing,
//! and exact conversion tables through each dimension's base unit.

pub mod conversion;
pub mod force;
pub mod fraction;
pub mod length;
pub mod mass;
pub mod measure;
pub mod pressure;
pub mod relation;
pub mod temperature;
pub mod time;
pub mod velocity;

pub use force::ForceUnit;
pub use length::LengthUnit;
pub use mass::MassUnit;
pub use measure::{UnitOfMeasure, UnitSpelling};
pub use pressure::PressureUnit;
pub use temperature::TemperatureUnit;
pub use time::TimeUnit;
pub use velocity::VelocityUnit;
