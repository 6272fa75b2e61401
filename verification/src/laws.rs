//! The library-wide laws, each stated over the same spec predicates the
//! public functions' contracts use.

use crate::calibration::calibration_valid;
use crate::calibration::ReadingValue;
use crate::readings::calibrated_readings_spec;
use crate::readings::raw_entries_spec;
use crate::readings::CalibratedReadings;
use crate::readings::RawReadings;
use crate::samples::SampleBuffer;
use crate::sensor::SoilMoistureSensor;
use vstd::prelude::*;

verus! {

/// A completed burst holds exactly the configured number of samples, and
/// the reported sample count equals that number.
pub proof fn lemma_reading_count_matches_config(
    s: SoilMoistureSensor,
    b: SampleBuffer,
    r: CalibratedReadings,
)
    requires
        b.complete(),
        b.target_count() == s.num_readings_spec(),
        calibrated_readings_spec(s, b.samples_seq(), r),
    ensures
        b.samples_seq().len() == s.num_readings_spec(),
        r.num_readings == s.num_readings_spec(),
{
}

/// The moisture percentage is present in a calibrated reading exactly when
/// both calibration endpoints are set, strictly positive, and distinct.
pub proof fn lemma_mapping_presence(
    s: SoilMoistureSensor,
    samples: Seq<i16>,
    r: CalibratedReadings,
)
    requires
        calibrated_readings_spec(s, samples, r),
    ensures
        (r.moisture_mapped is Some) <==> calibration_valid(
            s.dry_value_spec(),
            s.wet_value_spec(),
        ),
{
}

/// Reading requests are idempotent: two requests on the same sensor that
/// collected the same samples report the same result, field for field.
pub proof fn lemma_readings_idempotent(
    s: SoilMoistureSensor,
    samples: Seq<i16>,
    r1: CalibratedReadings,
    r2: CalibratedReadings,
)
    requires
        calibrated_readings_spec(s, samples, r1),
        calibrated_readings_spec(s, samples, r2),
    ensures
        r1 == r2,
{
    match (r1.moisture_mapped, r2.moisture_mapped) {
        (Some(v1), Some(v2)) => {
            assert(v1.numerator == v2.numerator);
            assert(v1.denominator == v2.denominator);
            assert(v1 == v2);
        },
        _ => {},
    }
    assert(r1 == r2);
}

/// The variant without calibration support never lists a calibration key,
/// whatever the samples were.
pub proof fn lemma_raw_entries_never_map(
    r: RawReadings,
    es: Seq<(&'static str, ReadingValue)>,
)
    requires
        raw_entries_spec(r, es),
    ensures
        forall|i: int| 0 <= i < es.len() ==> es[i].0@ != "moisture_mapped"@,
{
    reveal_strlit("moisture_raw");
    reveal_strlit("num_readings");
    reveal_strlit("moisture_mapped");
    assert("moisture_raw"@.len() == 12);
    assert("num_readings"@.len() == 12);
    assert("moisture_mapped"@.len() == 15);
    assert(es[0].0@ != "moisture_mapped"@);
    assert(es[1].0@ != "moisture_mapped"@);
}

} // verus!
