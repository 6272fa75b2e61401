//! Noise-resilient sampling and calibration core for an analog soil-moisture
//! probe: burst sampling into a fixed-size buffer, median filtering, and an
//! optional linear remap of the median into a 0..100 moisture percentage.

mod calibration;
mod errors;
mod laws;
mod readings;
mod samples;
mod sensor;
mod sorting;

pub use calibration::ReadingValue;
pub use errors::SensorError;
pub use readings::CalibratedReadings;
pub use readings::RawReadings;
pub use samples::SampleBuffer;
pub use samples::SETTLE_PAUSE_MILLIS;
pub use sensor::SensorConfig;
pub use sensor::SoilMoistureSensor;
