use soil_moisture::CalibratedReadings;
use soil_moisture::RawReadings;
use soil_moisture::SampleBuffer;
use soil_moisture::SensorConfig;
use soil_moisture::SensorError;
use soil_moisture::SoilMoistureSensor;
use soil_moisture::SETTLE_PAUSE_MILLIS;

fn build_sensor(
    num_readings: Option<i32>,
    dry_value: Option<i32>,
    wet_value: Option<i32>,
) -> SoilMoistureSensor {
    let cfg = SensorConfig {
        board_present: true,
        num_readings,
        dry_value,
        wet_value,
        analog_reader: Some("moisture".to_string()),
    };
    let (sensor, name) = SoilMoistureSensor::from_config(cfg).unwrap();
    assert_eq!(name, "moisture");
    sensor
}

fn read_burst(sensor: &SoilMoistureSensor, raws: &[u16]) -> CalibratedReadings {
    let mut buffer = sensor.start_burst();
    let mut i = 0usize;
    while !buffer.is_complete() {
        buffer.push_sample(raws[i]);
        i += 1;
    }
    assert_eq!(i, raws.len());
    sensor.get_readings(buffer)
}

fn read_burst_raw(sensor: &SoilMoistureSensor, raws: &[u16]) -> RawReadings {
    let mut buffer = sensor.start_burst();
    let mut i = 0usize;
    while !buffer.is_complete() {
        buffer.push_sample(raws[i]);
        i += 1;
    }
    sensor.get_raw_readings(buffer)
}

fn as_f64(v: soil_moisture::ReadingValue) -> f64 {
    v.numerator as f64 / v.denominator as f64
}

#[test]
fn median_uses_lower_middle_for_even_lengths() {
    let sensor = build_sensor(Some(4), None, None);
    let r = read_burst(&sensor, &[3, 1, 2, 4]);
    assert_eq!(r.milliv, 3);
    assert_eq!(r.num_readings, 4);
}

#[test]
fn median_of_odd_length_burst() {
    let sensor = build_sensor(Some(5), None, None);
    let r = read_burst(&sensor, &[9, 2, 7, 2, 30]);
    assert_eq!(r.milliv, 7);
}

#[test]
fn single_sample_burst_is_its_own_median() {
    let sensor = build_sensor(Some(1), None, None);
    let r = read_burst(&sensor, &[512]);
    assert_eq!(r.milliv, 512);
    assert_eq!(r.num_readings, 1);
}

#[test]
fn raw_samples_narrow_to_signed_sixteen_bits() {
    let sensor = build_sensor(Some(1), None, None);
    let r = read_burst(&sensor, &[40000]);
    assert_eq!(r.milliv, -25536);
}

#[test]
fn buffer_length_always_equals_num_readings() {
    let sensor = build_sensor(Some(7), None, None);
    let mut buffer = sensor.start_burst();
    while !buffer.is_complete() {
        buffer.push_sample(100);
    }
    assert_eq!(buffer.len(), 7);
    let r = sensor.get_readings(buffer);
    assert_eq!(r.num_readings, 7);
    let entries = r.entries();
    let count = entries.iter().find(|e| e.0 == "num_readings").unwrap().1;
    assert_eq!(count.numerator, 7);
    assert_eq!(count.denominator, 1);
}

#[test]
fn default_num_readings_is_five() {
    let sensor = build_sensor(None, None, None);
    assert_eq!(sensor.num_readings(), 5);
    assert_eq!(sensor.dry_value(), -1);
    assert_eq!(sensor.wet_value(), -1);
}

#[test]
fn settle_pause_follows_every_sample_but_the_last() {
    assert_eq!(SETTLE_PAUSE_MILLIS, 1);
    let sensor = build_sensor(Some(3), None, None);
    let mut buffer = sensor.start_burst();
    buffer.push_sample(10);
    assert!(buffer.needs_settle_pause());
    buffer.push_sample(11);
    assert!(buffer.needs_settle_pause());
    buffer.push_sample(12);
    assert!(!buffer.needs_settle_pause());
    assert!(buffer.is_complete());
}

#[test]
fn mapping_example_gives_fifty_percent() {
    let sensor = build_sensor(Some(3), Some(800), Some(200));
    let r = read_burst(&sensor, &[500, 500, 500]);
    let mapped = r.moisture_mapped.unwrap();
    assert_eq!(mapped.numerator, 30000);
    assert_eq!(mapped.denominator, 600);
    assert_eq!(as_f64(mapped), 50.0);
}

#[test]
fn mapping_clamps_below_the_range_to_zero() {
    let sensor = build_sensor(Some(3), Some(800), Some(200));
    let r = read_burst(&sensor, &[900, 900, 900]);
    let mapped = r.moisture_mapped.unwrap();
    assert_eq!(mapped.numerator, 0);
    assert_eq!(as_f64(mapped), 0.0);
}

#[test]
fn mapping_clamps_above_the_range_to_one_hundred() {
    let sensor = build_sensor(Some(3), Some(800), Some(200));
    let r = read_burst(&sensor, &[100, 100, 100]);
    let mapped = r.moisture_mapped.unwrap();
    assert_eq!(mapped.numerator, 60000);
    assert_eq!(mapped.denominator, 600);
    assert_eq!(as_f64(mapped), 100.0);
}

#[test]
fn mapping_hits_the_endpoints_exactly() {
    let sensor = build_sensor(Some(1), Some(800), Some(200));
    let wet = read_burst(&sensor, &[200]);
    assert_eq!(as_f64(wet.moisture_mapped.unwrap()), 100.0);
    let dry = read_burst(&sensor, &[800]);
    assert_eq!(as_f64(dry.moisture_mapped.unwrap()), 0.0);
}

#[test]
fn mapping_works_with_inverted_bounds() {
    // A probe whose dry readings are lower than its wet ones.
    let sensor = build_sensor(Some(1), Some(200), Some(800));
    let r = read_burst(&sensor, &[500]);
    let mapped = r.moisture_mapped.unwrap();
    assert_eq!(as_f64(mapped), 50.0);
    let wet = read_burst(&sensor, &[800]);
    assert_eq!(as_f64(wet.moisture_mapped.unwrap()), 100.0);
}

#[test]
fn mapping_absent_when_either_endpoint_unset() {
    let both_unset = read_burst(&build_sensor(Some(1), None, None), &[500]);
    assert!(both_unset.moisture_mapped.is_none());
    let dry_only = read_burst(&build_sensor(Some(1), Some(800), None), &[500]);
    assert!(dry_only.moisture_mapped.is_none());
    let wet_only = read_burst(&build_sensor(Some(1), None, Some(200)), &[500]);
    assert!(wet_only.moisture_mapped.is_none());
}

#[test]
fn mapping_absent_when_an_endpoint_is_not_positive() {
    let zero_dry = read_burst(&build_sensor(Some(1), Some(0), Some(200)), &[500]);
    assert!(zero_dry.moisture_mapped.is_none());
    let negative_wet = read_burst(&build_sensor(Some(1), Some(800), Some(-3)), &[500]);
    assert!(negative_wet.moisture_mapped.is_none());
}

#[test]
fn mapping_absent_when_endpoints_coincide() {
    let r = read_burst(&build_sensor(Some(1), Some(400), Some(400)), &[500]);
    assert!(r.moisture_mapped.is_none());
}

#[test]
fn mapping_present_when_calibration_is_valid() {
    let r = read_burst(&build_sensor(Some(1), Some(800), Some(200)), &[500]);
    assert!(r.moisture_mapped.is_some());
}

#[test]
fn construction_fails_without_a_board() {
    let cfg = SensorConfig {
        board_present: false,
        num_readings: Some(3),
        dry_value: None,
        wet_value: None,
        analog_reader: Some("moisture".to_string()),
    };
    let err = SoilMoistureSensor::from_config(cfg).unwrap_err();
    assert!(err.is_config_error());
    assert_eq!(err.message(), "sensor missing board attribute");
}

#[test]
fn construction_fails_with_zero_num_readings() {
    let cfg = SensorConfig {
        board_present: true,
        num_readings: Some(0),
        dry_value: None,
        wet_value: None,
        analog_reader: Some("moisture".to_string()),
    };
    let err = SoilMoistureSensor::from_config(cfg).unwrap_err();
    assert!(err.is_config_error());
    assert_eq!(err.message(), "num_readings must be an integer greater than 1");
}

#[test]
fn construction_fails_with_negative_num_readings() {
    let cfg = SensorConfig {
        board_present: true,
        num_readings: Some(-2),
        dry_value: None,
        wet_value: None,
        analog_reader: Some("moisture".to_string()),
    };
    let err = SoilMoistureSensor::from_config(cfg).unwrap_err();
    assert_eq!(err.message(), "num_readings must be an integer greater than 1");
}

#[test]
fn construction_accepts_num_readings_of_exactly_one() {
    // The error message says "greater than 1", but 1 is in fact accepted.
    let sensor = build_sensor(Some(1), None, None);
    assert_eq!(sensor.num_readings(), 1);
}

#[test]
fn construction_fails_without_an_analog_reader_name() {
    let cfg = SensorConfig {
        board_present: true,
        num_readings: Some(3),
        dry_value: None,
        wet_value: None,
        analog_reader: None,
    };
    let err = SoilMoistureSensor::from_config(cfg).unwrap_err();
    assert!(err.is_config_error());
    assert_eq!(err.message(), "failed to get 'analog_reader' value from config");
}

#[test]
fn lock_failure_is_a_generic_sensor_error() {
    // The burst loop that owns the hardware lock raises this one.
    let err = SensorError::SensorGenericError("failed to get sensor lock");
    assert!(!err.is_config_error());
    assert_eq!(err.message(), "failed to get sensor lock");
}

#[test]
fn repeated_requests_on_a_constant_source_are_identical() {
    let sensor = build_sensor(Some(5), Some(800), Some(200));
    let r1 = read_burst(&sensor, &[500, 500, 500, 500, 500]);
    let r2 = read_burst(&sensor, &[500, 500, 500, 500, 500]);
    assert_eq!(r1, r2);
    let r3 = read_burst(&sensor, &[500, 500, 500, 500, 500]);
    assert_eq!(r2, r3);
}

#[test]
fn calibrated_entries_list_every_key_in_order() {
    let sensor = build_sensor(Some(3), Some(800), Some(200));
    let r = read_burst(&sensor, &[500, 400, 600]);
    let entries = r.entries();
    let keys: Vec<&str> = entries.iter().map(|e| e.0).collect();
    assert_eq!(keys, vec!["milliv", "num_readings", "moisture_mapped"]);
    assert_eq!(entries[0].1.numerator, 500);
    assert_eq!(entries[1].1.numerator, 3);
}

#[test]
fn uncalibrated_entries_omit_the_mapping_key() {
    let sensor = build_sensor(Some(3), None, None);
    let r = read_burst(&sensor, &[500, 400, 600]);
    let entries = r.entries();
    let keys: Vec<&str> = entries.iter().map(|e| e.0).collect();
    assert_eq!(keys, vec!["milliv", "num_readings"]);
}

#[test]
fn raw_variant_never_emits_a_mapping_key() {
    // Even with valid calibration endpoints configured, the variant without
    // calibration support reports only the raw median and the count.
    let sensor = build_sensor(Some(3), Some(800), Some(200));
    let r = read_burst_raw(&sensor, &[500, 400, 600]);
    assert_eq!(r.moisture_raw, 500);
    assert_eq!(r.num_readings, 3);
    let entries = r.entries();
    let keys: Vec<&str> = entries.iter().map(|e| e.0).collect();
    assert_eq!(keys, vec!["moisture_raw", "num_readings"]);
    assert!(keys.iter().all(|k| *k != "moisture_mapped"));
}

#[test]
fn sorting_does_not_lose_or_invent_samples() {
    let sensor = build_sensor(Some(6), None, None);
    let r = read_burst(&sensor, &[6, 5, 4, 3, 2, 1]);
    // sorted [1,2,3,4,5,6], lower middle at index 3
    assert_eq!(r.milliv, 4);
    assert_eq!(r.num_readings, 6);
}
