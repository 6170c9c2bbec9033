use relay_hub::reading::{MalformedReading, Reading, ReadingFields};

fn sample() -> ReadingFields {
    ReadingFields {
        timestamp: "2024-01-01T00:00:00Z".to_string(),
        sensor_id: "S1".to_string(),
        location: "Room1".to_string(),
        process_stage: "Fermentation".to_string(),
        temperature_bits: 28.5f32.to_bits(),
        humidity_bits: 65.2f32.to_bits(),
    }
}

#[test]
fn a_sound_record_becomes_a_reading() {
    let reading = Reading::new(sample()).unwrap();
    assert_eq!(reading.timestamp(), "2024-01-01T00:00:00Z");
    assert_eq!(reading.sensor_id(), "S1");
    assert_eq!(reading.location(), "Room1");
    assert_eq!(reading.process_stage(), "Fermentation");
    assert_eq!(f32::from_bits(reading.temperature_bits()), 28.5f32);
    assert_eq!(f32::from_bits(reading.humidity_bits()), 65.2f32);
    assert_eq!(reading.into_fields(), sample());
}

#[test]
fn the_instant_is_counted_in_nanoseconds() {
    let reading = Reading::new(sample()).unwrap();
    assert_eq!(reading.timestamp_nanos(), 1_704_067_200_000_000_000);
}

#[test]
fn fractions_and_offsets_count() {
    let mut fields = sample();
    fields.timestamp = "2024-01-01T07:00:00.123456789+07:00".to_string();
    let reading = Reading::new(fields).unwrap();
    assert_eq!(reading.timestamp_nanos(), 1_704_067_200_123_456_789);
}

#[test]
fn the_epoch_counts_zero() {
    let mut fields = sample();
    fields.timestamp = "1970-01-01T00:00:00Z".to_string();
    assert_eq!(Reading::new(fields).unwrap().timestamp_nanos(), 0);
}

#[test]
fn instants_before_the_epoch_count_negative() {
    let mut fields = sample();
    fields.timestamp = "1969-12-31T23:59:59.5Z".to_string();
    assert_eq!(Reading::new(fields).unwrap().timestamp_nanos(), -500_000_000);
}

#[test]
fn an_empty_sensor_id_is_a_fault() {
    let mut fields = sample();
    fields.sensor_id = String::new();
    assert_eq!(Reading::new(fields).unwrap_err(), MalformedReading::MissingSensorId);
}

#[test]
fn a_timestamp_that_is_no_instant_is_a_fault() {
    for text in ["", "yesterday", "2024-01-01", "2024-01-01T00:00:00", "2024-13-01T00:00:00Z"] {
        let mut fields = sample();
        fields.timestamp = text.to_string();
        assert_eq!(Reading::new(fields).unwrap_err(), MalformedReading::BadTimestamp);
    }
}

#[test]
fn an_instant_beyond_the_nanosecond_range_is_a_fault() {
    let mut fields = sample();
    fields.timestamp = "2262-04-11T23:47:16.854775807Z".to_string();
    assert_eq!(Reading::new(fields).unwrap().timestamp_nanos(), i64::MAX);
    let mut fields = sample();
    fields.timestamp = "2262-04-11T23:47:16.854775808Z".to_string();
    assert_eq!(Reading::new(fields).unwrap_err(), MalformedReading::BadTimestamp);
    let mut fields = sample();
    fields.timestamp = "3000-01-01T00:00:00Z".to_string();
    assert_eq!(Reading::new(fields).unwrap_err(), MalformedReading::BadTimestamp);
}

#[test]
fn the_sensor_id_is_checked_before_the_timestamp() {
    let mut fields = sample();
    fields.sensor_id = String::new();
    fields.timestamp = "never".to_string();
    assert_eq!(Reading::new(fields).unwrap_err(), MalformedReading::MissingSensorId);
}

#[test]
fn empty_location_and_stage_are_no_fault() {
    let mut fields = sample();
    fields.location = String::new();
    fields.process_stage = String::new();
    let reading = Reading::new(fields).unwrap();
    assert_eq!(reading.location(), "");
    assert_eq!(reading.process_stage(), "");
}
