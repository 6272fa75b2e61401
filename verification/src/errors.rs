//! The error taxonomy of the sampling core.
//!
//! A `ConfigError` is a static misconfiguration detected once at
//! construction; the sensor is never instantiated. A `SensorGenericError` is
//! a runtime failure of a single reading request (the caller of the burst
//! loop raises it when it cannot acquire the shared hardware lock); the
//! sensor stays usable for later requests.

use vstd::prelude::*;

verus! {

#[derive(Debug, Clone, Copy, PartialEq, Eq)]
pub enum SensorError {
    ConfigError(&'static str),
    SensorGenericError(&'static str),
}

impl SensorError {
    /// The human-readable message the error was raised with.
    pub fn message(&self) -> (m: &'static str)
        ensures
            match self {
                SensorError::ConfigError(s) => m == s,
                SensorError::SensorGenericError(s) => m == s,
            },
    {
        match self {
            SensorError::ConfigError(s) => s,
            SensorError::SensorGenericError(s) => s,
        }
    }

    /// Whether the error is a construction-time configuration error.
    pub fn is_config_error(&self) -> (r: bool)
        ensures
            r == (self matches SensorError::ConfigError(_)),
    {
        match self {
            SensorError::ConfigError(_) => true,
            SensorError::SensorGenericError(_) => false,
        }
    }
}

} // verus!
