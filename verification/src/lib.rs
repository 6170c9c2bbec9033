//! Core of a telemetry relay hub: framing and validation of sensor readings, the
//! layout of the points handed to the metrics sink, the registry of live
//! subscribers with its fan-out, and the access gate that admits subscribers
//! who show a ledger payment.
//!
//! Everything that waits (sockets, the sink, the ledger oracle) is left to the host
//! program, which hands this library plain values and acts on its decisions.

pub mod framing;
pub mod gate;
pub mod ingest;
pub mod reading;
pub mod registry;
pub mod session;
pub mod sink;
