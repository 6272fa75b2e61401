//! The sampler/calibrator itself: configuration validation at construction,
//! and the reading computation of one completed burst — median filtering
//! plus the optional calibration remap.
//!
//! The surrounding driver resolves the hardware handle from the reader name
//! this module validates, runs the burst loop against `SampleBuffer`, and
//! divides the rational reading values out into floating point.

use crate::calibration::map_value;
use crate::errors::SensorError;
use crate::readings::calibrated_readings_spec;
use crate::readings::raw_readings_spec;
use crate::readings::CalibratedReadings;
use crate::readings::RawReadings;
use crate::samples::SampleBuffer;
use crate::sorting::median_of;
use vstd::prelude::*;

verus! {

/// The typed attributes one construction attempt starts from: whether a
/// board dependency was resolvable, and the four optional attributes of the
/// configuration object (`None` when absent or unparsable).
#[derive(Debug, Clone)]
pub struct SensorConfig {
    pub board_present: bool,
    pub num_readings: Option<i32>,
    pub dry_value: Option<i32>,
    pub wet_value: Option<i32>,
    pub analog_reader: Option<String>,
}

/// The sample count actually used: the attribute when present, else 5.
pub open spec fn effective_num_readings(attr: Option<i32>) -> int {
    match attr {
        Some(n) => n as int,
        None => 5,
    }
}

/// A calibration endpoint actually used: the attribute when present, else
/// the unset sentinel -1.
pub open spec fn effective_calibration(attr: Option<i32>) -> int {
    match attr {
        Some(n) => n as int,
        None => -1,
    }
}

/// The configurations construction accepts: a board dependency, a sample
/// count of at least one, and an analog reader name to bind.
pub open spec fn config_accepted(cfg: SensorConfig) -> bool {
    &&& cfg.board_present
    &&& effective_num_readings(cfg.num_readings) >= 1
    &&& cfg.analog_reader is Some
}

/// The sampler/calibrator: the configured sample count and the optional
/// calibration endpoints. The hardware handle the driver reads from lives
/// outside this core and is resolved from the validated reader name.
#[derive(Debug, Clone)]
pub struct SoilMoistureSensor {
    num_readings: i32,
    dry_value: i32,
    wet_value: i32,
}

impl SoilMoistureSensor {
    /// How many samples one burst takes.
    pub closed spec fn num_readings_spec(&self) -> int {
        self.num_readings as int
    }

    /// The configured dry reference value (-1 when unset).
    pub closed spec fn dry_value_spec(&self) -> int {
        self.dry_value as int
    }

    /// The configured wet reference value (-1 when unset).
    pub closed spec fn wet_value_spec(&self) -> int {
        self.wet_value as int
    }

    pub open spec fn wf(&self) -> bool {
        self.num_readings_spec() >= 1
    }

    /// Validate a configuration and build the sampler, handing back the
    /// analog reader name the driver must bind. Fails with a `ConfigError`
    /// when the board is missing, the sample count is below one, or the
    /// reader name is absent.
    pub fn from_config(cfg: SensorConfig) -> (r: Result<(SoilMoistureSensor, String), SensorError>)
        ensures
            config_accepted(cfg) <==> r is Ok,
            r matches Ok(sr) ==> {
                &&& sr.0.wf()
                &&& sr.0.num_readings_spec() == effective_num_readings(cfg.num_readings)
                &&& sr.0.dry_value_spec() == effective_calibration(cfg.dry_value)
                &&& sr.0.wet_value_spec() == effective_calibration(cfg.wet_value)
                &&& cfg.analog_reader matches Some(name) && sr.1 == name
            },
            !cfg.board_present ==> (r matches Err(e) && e matches SensorError::ConfigError(m)
                && m@ == "sensor missing board attribute"@),
            cfg.board_present && effective_num_readings(cfg.num_readings) < 1 ==> (r matches Err(e)
                && e matches SensorError::ConfigError(m) && m@
                == "num_readings must be an integer greater than 1"@),
            cfg.board_present && effective_num_readings(cfg.num_readings) >= 1
                && cfg.analog_reader is None ==> (r matches Err(e) && e matches
            SensorError::ConfigError(m) && m@
                == "failed to get 'analog_reader' value from config"@),
    {
        if !cfg.board_present {
            return Err(SensorError::ConfigError("sensor missing board attribute"));
        }
        let num_readings: i32 = match cfg.num_readings {
            Some(n) => n,
            None => 5,
        };
        if num_readings < 1 {
            return Err(SensorError::ConfigError("num_readings must be an integer greater than 1"));
        }
        let dry_value: i32 = match cfg.dry_value {
            Some(v) => v,
            None => -1,
        };
        let wet_value: i32 = match cfg.wet_value {
            Some(v) => v,
            None => -1,
        };
        match cfg.analog_reader {
            Some(name) => Ok((SoilMoistureSensor { num_readings, dry_value, wet_value }, name)),
            None => Err(
                SensorError::ConfigError("failed to get 'analog_reader' value from config"),
            ),
        }
    }

    /// An empty buffer sized for one burst of this sensor.
    pub fn start_burst(&self) -> (b: SampleBuffer)
        requires
            self.wf(),
        ensures
            b.wf(),
            b.samples_seq() == Seq::<i16>::empty(),
            b.target_count() == self.num_readings_spec(),
    {
        SampleBuffer::new(self.num_readings as usize)
    }

    /// The readings of one completed burst, in the calibrating shape:
    /// the median in millivolts, the sample count, and — exactly when the
    /// calibration endpoints are valid — the remapped moisture percentage.
    pub fn get_readings(&self, buffer: SampleBuffer) -> (r: CalibratedReadings)
        requires
            self.wf(),
            buffer.wf(),
            buffer.complete(),
            buffer.target_count() == self.num_readings_spec(),
        ensures
            calibrated_readings_spec(*self, buffer.samples_seq(), r),
    {
        let num_readings: usize = buffer.len();
        let median: i16 = median_of(buffer.into_samples());
        let moisture_mapped: Option<crate::calibration::ReadingValue> = if self.dry_value > 0
            && self.wet_value > 0 && self.dry_value != self.wet_value {
            Some(
                map_value(
                    median as i64,
                    self.wet_value as i64,
                    self.dry_value as i64,
                    100,
                    0,
                ),
            )
        } else {
            None
        };
        CalibratedReadings { milliv: median, num_readings, moisture_mapped }
    }

    /// The readings of one completed burst, in the shape of the driver
    /// variant without calibration support: the raw median and the sample
    /// count, and nothing else under any input.
    pub fn get_raw_readings(&self, buffer: SampleBuffer) -> (r: RawReadings)
        requires
            self.wf(),
            buffer.wf(),
            buffer.complete(),
            buffer.target_count() == self.num_readings_spec(),
        ensures
            raw_readings_spec(buffer.samples_seq(), r),
    {
        let num_readings: usize = buffer.len();
        let median: i16 = median_of(buffer.into_samples());
        RawReadings { moisture_raw: median, num_readings }
    }

    /// How many samples each burst is configured to take.
    pub fn num_readings(&self) -> (n: i32)
        ensures
            n == self.num_readings_spec(),
    {
        self.num_readings
    }

    /// The configured dry reference value (-1 when unset).
    pub fn dry_value(&self) -> (v: i32)
        ensures
            v == self.dry_value_spec(),
    {
        self.dry_value
    }

    /// The configured wet reference value (-1 when unset).
    pub fn wet_value(&self) -> (v: i32)
        ensures
            v == self.wet_value_spec(),
    {
        self.wet_value
    }
}

} // verus!
