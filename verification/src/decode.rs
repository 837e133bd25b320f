//! Decoding one inbound message body into a raw analytics record: UTF-8
//! text, then a JSON object with best-effort field defaulting.

use vstd::prelude::*;
use vstd::utf8::{decode_utf8, valid_utf8};

use crate::event::{DecodeError, RawAnalyticsEvent};
use crate::json::{
    clone_value, get_member, is_object, json_as_str, json_doc, json_get, json_is_object,
    json_text, member_string, null_value, parse_json,
};

verus! {

/// The string value a declared field decodes to: `Some` of the member's
/// text when present and a string, `Some` of the empty text when absent,
/// `None` when present with a non-string value (a decode failure).
pub open spec fn spec_str_field(v: serde_json::Value, key: Seq<char>) -> Option<Seq<char>> {
    match json_get(v, key) {
        Option::Some(f) => json_as_str(f),
        Option::None => Option::Some(Seq::empty()),
    }
}

/// Why a message text is skipped, or `None` where it decodes into a raw
/// record: only a JSON object is a record.
pub open spec fn spec_text_skip(text: Seq<char>) -> Option<DecodeError> {
    match json_doc(text) {
        Option::None => Option::Some(DecodeError::Syntax),
        Option::Some(v) => if !json_is_object(v) {
            Option::Some(DecodeError::NotObject)
        } else if spec_str_field(v, "device_id"@) is None || spec_str_field(v, "zone_id"@) is None
            || spec_str_field(v, "kind"@) is None {
            Option::Some(DecodeError::FieldType)
        } else {
            Option::None
        },
    }
}

/// Why a message body is skipped, or `None` where it decodes into a raw
/// record.
pub open spec fn spec_skip_reason(bytes: Seq<u8>) -> Option<DecodeError> {
    if !valid_utf8(bytes) {
        Option::Some(DecodeError::Utf8)
    } else {
        spec_text_skip(decode_utf8(bytes))
    }
}

/// How a raw record relates to the JSON document it was decoded from: the
/// three string fields carry the member's text or default to empty, and the
/// payload carries the `payload` member verbatim or defaults to a value
/// that renders as JSON null.
pub open spec fn spec_raw_of(v: serde_json::Value, raw: RawAnalyticsEvent) -> bool {
    &&& Option::Some(raw.device_id@) == spec_str_field(v, "device_id"@)
    &&& Option::Some(raw.zone_id@) == spec_str_field(v, "zone_id"@)
    &&& Option::Some(raw.kind@) == spec_str_field(v, "kind"@)
    &&& match json_get(v, "payload"@) {
        Option::Some(p) => raw.payload == p,
        Option::None => json_text(raw.payload) == "null"@,
    }
}

/// Relies on `String::from_utf8`: `Some` of the decoded text exactly when
/// the bytes are valid UTF-8.
#[verifier::external_body]
fn utf8_to_string(bytes: &Vec<u8>) -> (r: Option<String>)
    ensures
        match r {
            Some(s) => valid_utf8(bytes@) && s@ == decode_utf8(bytes@),
            None => !valid_utf8(bytes@),
        },
{
    match String::from_utf8(bytes.clone()) {
        Ok(s) => Some(s),
        Err(_) => None,
    }
}

/// One declared string field of the document, defaulted to the empty string
/// where absent; `None` where present with a non-string value.
fn str_field(v: &serde_json::Value, key: &str) -> (r: Option<String>)
    ensures
        match r {
            Some(s) => spec_str_field(*v, key@) == Option::Some(s@),
            None => spec_str_field(*v, key@) is None,
        },
{
    match get_member(v, key) {
        Some(f) => member_string(f),
        None => Some(String::new()),
    }
}

/// Decodes one message text into a raw analytics record. Absent fields take
/// their defaults; a text that is not a JSON document, one whose top level
/// is not an object, or one whose declared string field holds a non-string
/// value, is a decode error.
pub fn decode_raw(text: &str) -> (r: Result<RawAnalyticsEvent, DecodeError>)
    ensures
        match r {
            Ok(raw) => spec_text_skip(text@) is None && (json_doc(text@) matches Option::Some(v)
                ==> spec_raw_of(v, raw)),
            Err(e) => spec_text_skip(text@) == Option::Some(e),
        },
{
    let v = match parse_json(text) {
        Ok(v) => v,
        Err(_) => {
            return Err(DecodeError::Syntax);
        },
    };
    if !is_object(&v) {
        return Err(DecodeError::NotObject);
    }
    let device_id = match str_field(&v, "device_id") {
        Some(s) => s,
        None => {
            return Err(DecodeError::FieldType);
        },
    };
    let zone_id = match str_field(&v, "zone_id") {
        Some(s) => s,
        None => {
            return Err(DecodeError::FieldType);
        },
    };
    let kind = match str_field(&v, "kind") {
        Some(s) => s,
        None => {
            return Err(DecodeError::FieldType);
        },
    };
    let payload = match get_member(&v, "payload") {
        Some(p) => clone_value(p),
        None => null_value(),
    };
    Ok(RawAnalyticsEvent { device_id, zone_id, kind, payload })
}

/// Decodes one message body: UTF-8 first, then the JSON record shape.
pub fn decode_message(bytes: &Vec<u8>) -> (r: Result<RawAnalyticsEvent, DecodeError>)
    ensures
        match r {
            Ok(raw) => spec_skip_reason(bytes@) is None && (json_doc(
                decode_utf8(bytes@),
            ) matches Option::Some(v) ==> spec_raw_of(v, raw)),
            Err(e) => spec_skip_reason(bytes@) == Option::Some(e),
        },
{
    let text = match utf8_to_string(bytes) {
        Some(t) => t,
        None => {
            return Err(DecodeError::Utf8);
        },
    };
    decode_raw(text.as_str())
}

} // verus!
