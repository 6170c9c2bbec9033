use relay_hub::reading::{Reading, ReadingFields};
use relay_hub::sink::{point_for, Field, Tag};

fn reading() -> Reading {
    Reading::new(ReadingFields {
        timestamp: "2024-01-01T00:00:00Z".to_string(),
        sensor_id: "S1".to_string(),
        location: "Room1".to_string(),
        process_stage: "Fermentation".to_string(),
        temperature_bits: 28.5f32.to_bits(),
        humidity_bits: 65.2f32.to_bits(),
    })
    .unwrap()
}

fn tag(key: &str, value: &str) -> Tag {
    Tag { key: key.to_string(), value: value.to_string() }
}

#[test]
fn the_point_is_measured_as_monitoring() {
    assert_eq!(point_for(&reading()).measurement, "monitoring");
}

#[test]
fn the_point_is_tagged_by_sensor_location_and_stage() {
    let point = point_for(&reading());
    assert_eq!(
        point.tags,
        vec![tag("sensor_id", "S1"), tag("location", "Room1"), tag("stage", "Fermentation")]
    );
}

#[test]
fn the_point_stores_temperature_and_humidity() {
    let point = point_for(&reading());
    assert_eq!(
        point.fields,
        vec![
            Field { key: "temperature".to_string(), bits: 28.5f32.to_bits() },
            Field { key: "humidity".to_string(), bits: 65.2f32.to_bits() },
        ]
    );
    assert_eq!(f32::from_bits(point.fields[0].bits) as f64, 28.5f64);
    assert_eq!(f32::from_bits(point.fields[1].bits), 65.2f32);
}

#[test]
fn the_point_is_stamped_in_nanoseconds() {
    assert_eq!(point_for(&reading()).timestamp, 1_704_067_200_000_000_000);
}
