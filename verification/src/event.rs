//! The canonical event model: the raw inbound record shape, the normalized
//! outbound shape, and the gateway's error taxonomy.

use vstd::prelude::*;

verus! {

/// One raw device analytics record as decoded from an inbound broker
/// message. Absent wire fields take their defaults: empty strings, and JSON
/// null for the payload.
#[derive(Debug)]
pub struct RawAnalyticsEvent {
    pub device_id: String,
    pub zone_id: String,
    pub kind: String,
    pub payload: serde_json::Value,
}

/// One canonical virtual-object event, as handed to the sink.
#[derive(Debug)]
pub struct VirtualObjectEvent {
    pub event_id: String,
    pub ts_unix_ms: u64,
    pub device_id: String,
    pub zone_id: String,
    pub category: String,
    pub fields: serde_json::Value,
}

/// A per-message decode failure: local to the one message, never fatal to
/// the ingestion loop.
#[derive(Clone, Copy, Debug, PartialEq, Eq, Structural)]
pub enum DecodeError {
    /// The message body is not valid UTF-8 text.
    Utf8,
    /// The text is not a well-formed JSON document.
    Syntax,
    /// The document is well-formed JSON, but its top level is not an
    /// object, so it is not a record.
    NotObject,
    /// A declared string field is present but holds a non-string value.
    FieldType,
}

/// A failure fatal to one ingestion-loop invocation: the supervisor
/// restarts the loop after its backoff.
#[derive(Debug)]
pub enum GatewayError {
    /// The broker connection failed; carries an operator-readable message.
    Transport(String),
    /// An outbound canonical event could not be serialized; a defect
    /// condition, carries an operator-readable message.
    Encode(String),
}

} // verus!
