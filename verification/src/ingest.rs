//! The per-message work of the ingestion loop: decode, normalize, render;
//! and the shape of the standing topic subscription.

use vstd::prelude::*;
use vstd::string::StringExecFns;
use vstd::utf8::decode_utf8;

use crate::decode::{decode_message, spec_skip_reason, spec_str_field};
use crate::emit::{serialize_event, spec_event_line};
use crate::event::{DecodeError, GatewayError};
use crate::json::{json_doc, json_get, json_text};
use crate::normalize::{normalize_event_at, spec_category, spec_event_id};

verus! {

/// What one inbound message came to: a rendered canonical record to hand to
/// the sink, or a local skip that must not disturb the loop.
pub enum Handled {
    Emitted(String),
    Skipped(DecodeError),
}

/// One declared string field of the document, defaulted to the empty text;
/// meaningful where decoding did not fail on the field.
pub open spec fn spec_field_or_empty(v: serde_json::Value, key: Seq<char>) -> Seq<char> {
    match spec_str_field(v, key) {
        Option::Some(s) => s,
        Option::None => Seq::empty(),
    }
}

/// The rendered text of the `fields` value of the canonical event built
/// from the document: the `payload` member's rendering, or `null` where it
/// is absent.
pub open spec fn spec_fields_text(v: serde_json::Value) -> Seq<char> {
    match json_get(v, "payload"@) {
        Option::Some(p) => json_text(p),
        Option::None => "null"@,
    }
}

/// The one line the gateway emits for the document `v`, normalized at the
/// clock reading `ts`.
pub open spec fn spec_line_for(v: serde_json::Value, ts: u64) -> Seq<char> {
    spec_event_line(
        spec_event_id(ts),
        ts,
        spec_field_or_empty(v, "device_id"@),
        spec_field_or_empty(v, "zone_id"@),
        spec_category(spec_field_or_empty(v, "kind"@)),
        spec_fields_text(v),
    )
}

/// Processes one inbound message body at the clock reading `ts`: decode,
/// normalize, render. A decode failure is local and reported as a skip, and
/// every decodable message yields its emitted line; a failure to render the
/// outbound record would be fatal to the loop, but rendering is total, so
/// the call always returns `Ok`.
pub fn handle_message(payload: &Vec<u8>, ts: u64) -> (r: Result<Handled, GatewayError>)
    ensures
        r is Ok,
        match r {
            Ok(h) => match h {
                Handled::Emitted(line) => spec_skip_reason(payload@) is None && (json_doc(
                    decode_utf8(payload@),
                ) matches Option::Some(v) ==> line@ == spec_line_for(v, ts)),
                Handled::Skipped(e) => spec_skip_reason(payload@) == Option::Some(e),
            },
            Err(e) => spec_skip_reason(payload@) is None && e is Encode,
        },
{
    let raw = match decode_message(payload) {
        Ok(raw) => raw,
        Err(e) => {
            return Ok(Handled::Skipped(e));
        },
    };
    let ghost raw0 = raw;
    let ev = normalize_event_at(raw, ts);
    match serialize_event(&ev) {
        Ok(line) => {
            proof {
                if let Option::Some(v) = json_doc(decode_utf8(payload@)) {
                    assert(json_text(ev.fields) == spec_fields_text(v));
                    assert(ev.device_id@ == spec_field_or_empty(v, "device_id"@));
                    assert(ev.zone_id@ == spec_field_or_empty(v, "zone_id"@));
                    assert(raw0.kind@ == spec_field_or_empty(v, "kind"@));
                    assert(line@ == spec_line_for(v, ts));
                }
            }
            Ok(Handled::Emitted(line))
        },
        Err(e) => Err(e),
    }
}

/// The standing subscription's topic filter: one fixed prefix segment, a
/// single-level wildcard for the device identity, one fixed suffix segment.
pub fn topic_filter(prefix: &str, suffix: &str) -> (r: String)
    ensures
        r@ == prefix@ + "/+/"@ + suffix@,
{
    let mut s = prefix.to_owned();
    s.append("/+/");
    s.append(suffix);
    s
}

} // verus!
