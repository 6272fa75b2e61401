//! Result assembly: the two output shapes a reading request can take, and
//! their key/value listings. Every numeric output leaves the core as an
//! exact rational `ReadingValue`; the driver divides it out into floating
//! point just before reporting.

use crate::calibration::calibration_valid;
use crate::calibration::map_den_spec;
use crate::calibration::map_num_spec;
use crate::calibration::ReadingValue;
use crate::sensor::SoilMoistureSensor;
use crate::sorting::median_spec;
use vstd::prelude::*;

verus! {

/// The readings of the driver variant with calibration support: the median
/// in millivolts, the diagnostic sample count, and the remapped moisture
/// percentage when calibration applies.
#[derive(Debug, Clone, Copy, PartialEq, Eq)]
pub struct CalibratedReadings {
    pub milliv: i16,
    pub num_readings: usize,
    pub moisture_mapped: Option<ReadingValue>,
}

/// The readings of the driver variant without calibration support: the raw
/// median and the diagnostic sample count. There is no calibration field at
/// all, so no input can ever produce one.
#[derive(Debug, Clone, Copy, PartialEq, Eq)]
pub struct RawReadings {
    pub moisture_raw: i16,
    pub num_readings: usize,
}

/// What the moisture percentage must be: the median remapped linearly from
/// the wet..dry input range onto the inverted output range 100..0, clamped.
pub open spec fn mapped_reading_spec(x: i16, wet: int, dry: int, v: ReadingValue) -> bool {
    &&& v.denominator == map_den_spec(wet, dry)
    &&& v.numerator == map_num_spec(x as int, wet, dry, 100, 0)
}

/// What a calibrated reading request returns for a given sensor and burst:
/// the median of the samples, the sample count, and a moisture percentage
/// present exactly when both calibration endpoints are set, positive, and
/// distinct.
pub open spec fn calibrated_readings_spec(
    s: SoilMoistureSensor,
    samples: Seq<i16>,
    r: CalibratedReadings,
) -> bool {
    &&& r.milliv == median_spec(samples)
    &&& r.num_readings == samples.len()
    &&& ((r.moisture_mapped is Some) <==> calibration_valid(s.dry_value_spec(), s.wet_value_spec()))
    &&& (r.moisture_mapped matches Some(v) ==> mapped_reading_spec(
        median_spec(samples),
        s.wet_value_spec(),
        s.dry_value_spec(),
        v,
    ))
}

/// What an uncalibrated reading request returns for a given burst.
pub open spec fn raw_readings_spec(samples: Seq<i16>, r: RawReadings) -> bool {
    &&& r.moisture_raw == median_spec(samples)
    &&& r.num_readings == samples.len()
}

/// The key/value listing of a calibrated reading result.
pub open spec fn calibrated_entries_spec(
    r: CalibratedReadings,
    es: Seq<(&'static str, ReadingValue)>,
) -> bool {
    &&& es.len() == (if r.moisture_mapped is Some {
        3int
    } else {
        2int
    })
    &&& es[0].0@ == "milliv"@
    &&& es[0].1.numerator == r.milliv as int
    &&& es[0].1.denominator == 1
    &&& es[1].0@ == "num_readings"@
    &&& es[1].1.numerator == r.num_readings as int
    &&& es[1].1.denominator == 1
    &&& (r.moisture_mapped matches Some(v) ==> es[2].0@ == "moisture_mapped"@ && es[2].1 == v)
}

/// The key/value listing of an uncalibrated reading result.
pub open spec fn raw_entries_spec(r: RawReadings, es: Seq<(&'static str, ReadingValue)>) -> bool {
    &&& es.len() == 2
    &&& es[0].0@ == "moisture_raw"@
    &&& es[0].1.numerator == r.moisture_raw as int
    &&& es[0].1.denominator == 1
    &&& es[1].0@ == "num_readings"@
    &&& es[1].1.numerator == r.num_readings as int
    &&& es[1].1.denominator == 1
}

impl CalibratedReadings {
    /// List the result as key/value pairs, the calibration key present
    /// exactly when the mapped value is.
    pub fn entries(&self) -> (es: Vec<(&'static str, ReadingValue)>)
        requires
            self.num_readings <= 0x7fff_ffff,
        ensures
            calibrated_entries_spec(*self, es@),
    {
        let mut es: Vec<(&'static str, ReadingValue)> = Vec::new();
        es.push(("milliv", ReadingValue::whole(self.milliv as i64)));
        es.push(("num_readings", ReadingValue::whole(self.num_readings as i64)));
        match self.moisture_mapped {
            Some(v) => es.push(("moisture_mapped", v)),
            None => (),
        }
        es
    }
}

impl RawReadings {
    /// List the result as key/value pairs. The calibration key is never
    /// among them, whatever the input was.
    pub fn entries(&self) -> (es: Vec<(&'static str, ReadingValue)>)
        requires
            self.num_readings <= 0x7fff_ffff,
        ensures
            raw_entries_spec(*self, es@),
            forall|i: int| 0 <= i < es@.len() ==> es@[i].0@ != "moisture_mapped"@,
    {
        let mut es: Vec<(&'static str, ReadingValue)> = Vec::new();
        es.push(("moisture_raw", ReadingValue::whole(self.moisture_raw as i64)));
        es.push(("num_readings", ReadingValue::whole(self.num_readings as i64)));
        proof {
            reveal_strlit("moisture_raw");
            reveal_strlit("num_readings");
            reveal_strlit("moisture_mapped");
            assert("moisture_raw"@.len() == 12);
            assert("num_readings"@.len() == 12);
            assert("moisture_mapped"@.len() == 15);
            assert(es@[0].0@ != "moisture_mapped"@);
            assert(es@[1].0@ != "moisture_mapped"@);
        }
        es
    }
}

} // verus!
