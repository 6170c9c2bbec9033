//! The decisions of the ingestion path: what to do with each line that a sensor
//! connection delivers, when the connection is over, and what follows the attempt to
//! record a reading.

use crate::framing::{is_blank, trim, trimmed};
use crate::reading::{fault, rfc3339_nanos, MalformedReading, Reading, ReadingFields};
use crate::registry::{covers, Delivery, Registry};
use crate::sink::{point_for, point_of, SinkError, SinkPoint};
use vstd::prelude::*;

verus! {

/// What to do with one line.
pub enum Ingest {
    /// The line is blank: nothing to do, and nothing to report.
    Skip,
    /// The line carries no valid reading: report it, record and broadcast nothing.
    Reject(MalformedReading),
    /// The line carries this reading: hand the point to the sink, then broadcast the
    /// reading.
    Deliver(Reading, SinkPoint),
}

/// What followed the attempt to record a reading.
pub struct FanOut {
    /// The sink's failure, to be reported; none where the point was stored.
    pub sink_error: Option<SinkError>,
    /// The outcome of the broadcast, one entry for each subscriber.
    pub deliveries: Vec<Delivery>,
}

/// The fault of a line that is not blank, given what its decoding produced.
pub open spec fn line_fault(decoded: Option<ReadingFields>) -> Option<MalformedReading> {
    match decoded {
        None => Some(MalformedReading::Undecodable),
        Some(fields) => fault(fields),
    }
}

/// `step` is the right decision on `line`, where decoding its payload produced
/// `decoded`: a blank line is skipped; a line with a fault is rejected with that fault;
/// any other line is delivered as the reading that holds the decoded record and its
/// nanosecond count, with the point that records that reading.
pub open spec fn ingest_result(line: Seq<char>, decoded: Option<ReadingFields>, step: Ingest) -> bool {
    match step {
        Ingest::Skip => is_blank(line),
        Ingest::Reject(why) => !is_blank(line) && line_fault(decoded) == Some(why),
        Ingest::Deliver(reading, point) => {
            &&& !is_blank(line)
            &&& line_fault(decoded) is None
            &&& decoded == Some(reading.fields())
            &&& rfc3339_nanos(reading.fields().timestamp@) == Some(reading.nanos())
            &&& point@ == point_of(reading.fields(), reading.nanos())
        },
    }
}

/// A connection goes on after a read that delivered at least one byte; it is over when
/// a read fails or delivers nothing.
pub open spec fn goes_on(read: Option<usize>) -> bool {
    read matches Some(n) && n > 0
}

/// Whether the connection goes on after a read, given the number of bytes that the
/// read delivered, or none where it failed.
pub fn connection_goes_on(read: Option<usize>) -> (on: bool)
    ensures
        on == goes_on(read),
{
    match read {
        Some(n) => n > 0,
        None => false,
    }
}

/// The text to decode of a line: the line without the white space around it, or none
/// for a blank line.
pub fn payload(line: &str) -> (text: Option<&str>)
    ensures
        match text {
            Some(t) => !is_blank(line@) && t@ == trimmed(line@),
            None => is_blank(line@),
        },
{
    let text = trim(line);
    if text.is_empty() {
        None
    } else {
        Some(text)
    }
}

/// Decides what to do with `line`, given the record that decoding its payload
/// produced, or none where the payload did not decode. A blank line is skipped; a
/// line with a fault is rejected with that fault; any other line is delivered as the
/// reading that holds the decoded record, together with the point that records it.
pub fn ingest(line: &str, decoded: Option<ReadingFields>) -> (step: Ingest)
    ensures
        ingest_result(line@, decoded, step),
{
    if payload(line).is_none() {
        return Ingest::Skip;
    }
    match decoded {
        None => Ingest::Reject(MalformedReading::Undecodable),
        Some(fields) => match Reading::new(fields) {
            Ok(reading) => {
                let point = point_for(&reading);
                Ingest::Deliver(reading, point)
            },
            Err(why) => Ingest::Reject(why),
        },
    }
}

/// Broadcasts `frame` after the attempt to record its reading, whatever the sink
/// answered: a failure of the sink is passed on for reporting and stops nothing.
pub fn fan_out(registry: &Registry, recorded: Result<(), SinkError>, frame: &str) -> (out: FanOut)
    ensures
        out.sink_error == match recorded {
            Ok(()) => None::<SinkError>,
            Err(why) => Some(why),
        },
        covers(out.deliveries@, registry@),
{
    let deliveries = registry.broadcast(frame);
    let sink_error = match recorded {
        Ok(()) => None,
        Err(why) => Some(why),
    };
    FanOut { sink_error, deliveries }
}

/// A line that is not blank and has no fault is delivered: the reading holds the
/// decoded record, and the point handed to the sink holds the values of that record
/// and the nanosecond count of its timestamp.
pub proof fn lemma_sound_line_is_delivered(
    line: Seq<char>,
    decoded: Option<ReadingFields>,
    step: Ingest,
)
    requires
        ingest_result(line, decoded, step),
        !is_blank(line),
        line_fault(decoded) is None,
    ensures
        step matches Ingest::Deliver(reading, point) && decoded == Some(reading.fields())
            && point@ == point_of(decoded->0, rfc3339_nanos(decoded->0.timestamp@)->0),
{
}

/// A line with a fault, and a blank line, lead to no delivery: nothing is recorded and
/// nothing is broadcast for them.
pub proof fn lemma_faulty_line_is_not_delivered(
    line: Seq<char>,
    decoded: Option<ReadingFields>,
    step: Ingest,
)
    requires
        ingest_result(line, decoded, step),
        is_blank(line) || line_fault(decoded) is Some,
    ensures
        !(step is Deliver),
{
}

} // verus!
