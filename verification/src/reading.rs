//! Sensor readings: the record that one line of the ingestion channel carries, and
//! the checks that make it a valid reading.

use vstd::prelude::*;

verus! {

/// The nanoseconds since the Unix epoch of the instant that `text` denotes in the
/// date-and-time format of RFC 3339, where `text` has that format and the count fits
/// 64 bits; otherwise nothing.
pub uninterp spec fn rfc3339_nanos(text: Seq<char>) -> Option<i64>;

/// Reads an instant with `chrono::DateTime::parse_from_rfc3339` and converts it with
/// `DateTime::timestamp_nanos_opt`. Both are functions of the text alone; a text that
/// does not parse, and an instant too far from the epoch to count in 64 bits, give
/// nothing.
#[verifier::external_body]
fn timestamp_nanos(text: &str) -> (nanos: Option<i64>)
    ensures
        nanos == rfc3339_nanos(text@),
{
    match chrono::DateTime::parse_from_rfc3339(text) {
        Ok(instant) => instant.timestamp_nanos_opt(),
        Err(_) => None,
    }
}

/// The fields of a reading as they come off the wire. The two measurements are held
/// as the bit patterns of their IEEE 754 binary32 values.
#[derive(Clone, Debug, PartialEq, Eq)]
pub struct ReadingFields {
    pub timestamp: String,
    pub sensor_id: String,
    pub location: String,
    pub process_stage: String,
    pub temperature_bits: u32,
    pub humidity_bits: u32,
}

/// Why a line carries no valid reading.
#[derive(Clone, Copy, Debug, PartialEq, Eq)]
pub enum MalformedReading {
    /// The line is not a record with the six fields of a reading.
    Undecodable,
    /// The sensor identifier is empty.
    MissingSensorId,
    /// The timestamp is no RFC 3339 instant, or cannot be counted in nanoseconds.
    BadTimestamp,
}

/// The fault of a decoded record, if it has one. An empty sensor identifier is
/// reported before a bad timestamp.
pub open spec fn fault(fields: ReadingFields) -> Option<MalformedReading> {
    if fields.sensor_id@.len() == 0 {
        Some(MalformedReading::MissingSensorId)
    } else if rfc3339_nanos(fields.timestamp@) is None {
        Some(MalformedReading::BadTimestamp)
    } else {
        None
    }
}

/// A valid reading: a named sensor and an instant with its nanosecond count.
#[derive(Debug)]
pub struct Reading {
    fields: ReadingFields,
    nanos: i64,
}

impl Reading {
    /// The fields of the reading.
    pub closed spec fn fields(&self) -> ReadingFields {
        self.fields
    }

    /// The instant of the reading, in nanoseconds since the Unix epoch.
    pub closed spec fn nanos(&self) -> i64 {
        self.nanos
    }

    #[verifier::type_invariant]
    spec fn inv(self) -> bool {
        &&& fault(self.fields) is None
        &&& rfc3339_nanos(self.fields.timestamp@) == Some(self.nanos)
    }

    /// Checks a decoded record and makes it a reading. The record is accepted exactly
    /// when it has no fault, and the reading then holds the record unchanged beside the
    /// nanosecond count of its timestamp.
    pub fn new(fields: ReadingFields) -> (checked: Result<Reading, MalformedReading>)
        ensures
            match checked {
                Ok(reading) => {
                    &&& fault(fields) is None
                    &&& reading.fields() == fields
                    &&& rfc3339_nanos(fields.timestamp@) == Some(reading.nanos())
                },
                Err(why) => fault(fields) == Some(why),
            },
    {
        if fields.sensor_id.as_str().is_empty() {
            return Err(MalformedReading::MissingSensorId);
        }
        match timestamp_nanos(fields.timestamp.as_str()) {
            Some(nanos) => Ok(Reading { fields, nanos }),
            None => Err(MalformedReading::BadTimestamp),
        }
    }

    /// The instant of the reading, in nanoseconds since the Unix epoch: the count that
    /// its timestamp denotes.
    pub fn timestamp_nanos(&self) -> (nanos: i64)
        ensures
            nanos == self.nanos(),
            rfc3339_nanos(self.fields().timestamp@) == Some(nanos),
    {
        proof {
            use_type_invariant(self);
        }
        self.nanos
    }

    /// The timestamp as the sensor wrote it.
    pub fn timestamp(&self) -> (text: &str)
        ensures
            text@ == self.fields().timestamp@,
            rfc3339_nanos(text@) is Some,
    {
        proof {
            use_type_invariant(self);
        }
        self.fields.timestamp.as_str()
    }

    /// The identifier of the sensor, never empty.
    pub fn sensor_id(&self) -> (text: &str)
        ensures
            text@ == self.fields().sensor_id@,
            text@.len() > 0,
    {
        proof {
            use_type_invariant(self);
        }
        self.fields.sensor_id.as_str()
    }

    /// Where the sensor stands.
    pub fn location(&self) -> (text: &str)
        ensures
            text@ == self.fields().location@,
    {
        self.fields.location.as_str()
    }

    /// The stage of the process that the sensor watches.
    pub fn process_stage(&self) -> (text: &str)
        ensures
            text@ == self.fields().process_stage@,
    {
        self.fields.process_stage.as_str()
    }

    /// The temperature in degrees Celsius, as binary32 bits.
    pub fn temperature_bits(&self) -> (bits: u32)
        ensures
            bits == self.fields().temperature_bits,
    {
        self.fields.temperature_bits
    }

    /// The relative humidity in percent, as binary32 bits.
    pub fn humidity_bits(&self) -> (bits: u32)
        ensures
            bits == self.fields().humidity_bits,
    {
        self.fields.humidity_bits
    }

    /// Gives the record back, for the encoder of the broadcast frame.
    pub fn into_fields(self) -> (fields: ReadingFields)
        ensures
            fields == self.fields(),
            fault(fields) is None,
    {
        proof {
            use_type_invariant(&self);
        }
        self.fields
    }
}

} // verus!
