//! Relay library for ADS-B telemetry records.
//!
//! The library decodes the comma-separated SBS-1 wire format into a
//! structured record, derives the destination and the wire payload for a
//! publish, and drives the read-decode-publish loop as a small state
//! machine.  Transport (the TCP feed, the MQTT client, the Kafka producer)
//! lives outside the library; everything here is pure decision logic with
//! contracts.

pub mod decode;
pub mod driver;
pub mod json;
pub mod numbers;
pub mod sink;
pub mod text;

pub use decode::{AdsbMessage, parse_adsb_message};
pub use driver::{DriverState, SourceEvent, StepAction, driver_step};
pub use sink::{PublishOutcome, PublishPlan, SinkKind, SinkTarget, select_sink};
