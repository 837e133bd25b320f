//! Edge-side telemetry gateway core: decodes raw analytics events arriving
//! from a message broker, normalizes them into the canonical virtual-object
//! event schema, renders the outbound record, and drives the supervisory
//! reconnect loop.

pub mod decode;
pub mod emit;
pub mod event;
pub mod ingest;
pub mod json;
pub mod normalize;
pub mod supervisor;
pub mod text;
