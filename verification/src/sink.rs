//! The point that the metrics sink stores for one reading: a measurement name, the
//! tags that identify the sensor, the two measured fields and a nanosecond timestamp.

use crate::reading::{Reading, ReadingFields};
use vstd::prelude::*;

verus! {

/// A tag of a point: a key and the text stored under it.
#[derive(Debug, PartialEq, Eq)]
pub struct Tag {
    pub key: String,
    pub value: String,
}

/// A numeric field of a point: a key and the binary32 bits of the value stored under
/// it.
#[derive(Debug, PartialEq, Eq)]
pub struct Field {
    pub key: String,
    pub bits: u32,
}

/// One point for the metrics sink.
#[derive(Debug, PartialEq, Eq)]
pub struct SinkPoint {
    pub measurement: String,
    pub tags: Vec<Tag>,
    pub fields: Vec<Field>,
    pub timestamp: i64,
}

/// A point as plain data.
pub struct PointView {
    pub measurement: Seq<char>,
    pub tags: Seq<(Seq<char>, Seq<char>)>,
    pub fields: Seq<(Seq<char>, u32)>,
    pub timestamp: i64,
}

impl View for Tag {
    type V = (Seq<char>, Seq<char>);

    open spec fn view(&self) -> (Seq<char>, Seq<char>) {
        (self.key@, self.value@)
    }
}

impl View for Field {
    type V = (Seq<char>, u32);

    open spec fn view(&self) -> (Seq<char>, u32) {
        (self.key@, self.bits)
    }
}

impl View for SinkPoint {
    type V = PointView;

    open spec fn view(&self) -> PointView {
        PointView {
            measurement: self.measurement@,
            tags: self.tags@.map_values(|t: Tag| t@),
            fields: self.fields@.map_values(|f: Field| f@),
            timestamp: self.timestamp,
        }
    }
}

/// Why the sink did not store a point, in the sink's own words.
#[derive(Debug, PartialEq, Eq)]
pub struct SinkError {
    pub message: String,
}

/// The point for a record whose timestamp counts `nanos` nanoseconds: measurement
/// `monitoring`; tags `sensor_id`, `location` and `stage`, in that order; fields
/// `temperature` and `humidity`, in that order.
pub open spec fn point_of(record: ReadingFields, nanos: i64) -> PointView {
    PointView {
        measurement: "monitoring"@,
        tags: seq![
            ("sensor_id"@, record.sensor_id@),
            ("location"@, record.location@),
            ("stage"@, record.process_stage@),
        ],
        fields: seq![
            ("temperature"@, record.temperature_bits),
            ("humidity"@, record.humidity_bits),
        ],
        timestamp: nanos,
    }
}

/// Lays out the point that records `reading`: its tags and fields hold the values of
/// the reading, and its timestamp is the nanosecond count of the reading's instant.
pub fn point_for(reading: &Reading) -> (point: SinkPoint)
    ensures
        point@ == point_of(reading.fields(), reading.nanos()),
{
    let mut tags: Vec<Tag> = Vec::new();
    tags.push(Tag { key: "sensor_id".to_owned(), value: reading.sensor_id().to_owned() });
    tags.push(Tag { key: "location".to_owned(), value: reading.location().to_owned() });
    tags.push(Tag { key: "stage".to_owned(), value: reading.process_stage().to_owned() });
    let mut fields: Vec<Field> = Vec::new();
    fields.push(Field { key: "temperature".to_owned(), bits: reading.temperature_bits() });
    fields.push(Field { key: "humidity".to_owned(), bits: reading.humidity_bits() });
    let point = SinkPoint {
        measurement: "monitoring".to_owned(),
        tags,
        fields,
        timestamp: reading.timestamp_nanos(),
    };
    proof {
        let want = point_of(reading.fields(), reading.nanos());
        assert(point@.tags =~= want.tags);
        assert(point@.fields =~= want.fields);
    }
    point
}

} // verus!
