use jetson_gateway::decode::{decode_message, decode_raw};
use jetson_gateway::event::DecodeError;
use jetson_gateway::ingest::{handle_message, topic_filter, Handled};
use jetson_gateway::normalize::{normalize_event, normalize_event_at, now_ms, rand_fragment};
use jetson_gateway::json::null_value;
use jetson_gateway::event::RawAnalyticsEvent;

fn raw_from(text: &str) -> RawAnalyticsEvent {
    decode_raw(text).expect("well-formed record")
}

#[test]
fn defaults_fill_missing_fields() {
    let raw = raw_from("{}");
    assert_eq!(raw.device_id, "");
    assert_eq!(raw.zone_id, "");
    assert_eq!(raw.kind, "");
    assert_eq!(serde_json::to_string(&raw.payload).unwrap(), "null");
}

#[test]
fn defaults_fill_partially_missing_fields() {
    let raw = raw_from("{\"device_id\":\"cam-3\",\"payload\":{\"n\":1}}");
    assert_eq!(raw.device_id, "cam-3");
    assert_eq!(raw.zone_id, "");
    assert_eq!(raw.kind, "");
    assert_eq!(serde_json::to_string(&raw.payload).unwrap(), "{\"n\":1}");
}

#[test]
fn unknown_members_are_ignored() {
    let raw = raw_from("{\"kind\":\"motion\",\"extra\":[1,2]}");
    assert_eq!(raw.kind, "motion");
    assert_eq!(raw.device_id, "");
}

#[test]
fn category_falls_back_when_kind_empty() {
    let raw = raw_from("{\"kind\": \"\", \"device_id\": \"d1\"}");
    let ev = normalize_event_at(raw, 7);
    assert_eq!(ev.category, "analytics");
    assert_eq!(ev.device_id, "d1");
}

#[test]
fn category_keeps_nonempty_kind() {
    let raw = raw_from("{\"kind\":\"zone_enter\"}");
    let ev = normalize_event_at(raw, 7);
    assert_eq!(ev.category, "zone_enter");
}

#[test]
fn payload_passes_through_byte_for_byte() {
    let text = "{\"payload\":{\"a\":[1,2,{\"b\":\"x\"}],\"c\":null,\"d\":1.5}}";
    let raw = raw_from(text);
    let want: serde_json::Value =
        serde_json::from_str("{\"a\":[1,2,{\"b\":\"x\"}],\"c\":null,\"d\":1.5}").unwrap();
    assert_eq!(raw.payload, want);
    let ev = normalize_event_at(raw, 42);
    assert_eq!(ev.fields, want);
    assert_eq!(
        serde_json::to_string(&ev.fields).unwrap(),
        serde_json::to_string(&want).unwrap()
    );
}

#[test]
fn timestamp_is_the_captured_clock_reading() {
    let raw = raw_from("{}");
    let ev = normalize_event_at(raw, 1700000000000);
    assert_eq!(ev.ts_unix_ms, 1700000000000);
    assert_eq!(ev.event_id, "voevt_1700000000000_2f3cd");
}

#[test]
fn timestamp_of_normalize_event_is_bounded_by_the_clock() {
    let before = now_ms();
    let ev = normalize_event(raw_from("{}"));
    let after = now_ms();
    assert!(before <= ev.ts_unix_ms && ev.ts_unix_ms <= after);
}

#[test]
fn event_id_formula_values() {
    let raw0 = raw_from("{}");
    assert_eq!(normalize_event_at(raw0, 0).event_id, "voevt_0_79bcd");
    let raw7 = raw_from("{}");
    assert_eq!(normalize_event_at(raw7, 7).event_id, "voevt_7_79bca");
    let raw9 = raw_from("{}");
    assert_eq!(
        normalize_event_at(raw9, 123456789).event_id,
        "voevt_123456789_c56d8"
    );
}

#[test]
fn ids_unique_across_distinct_timestamps() {
    let mut seen = std::collections::HashSet::new();
    let base: u64 = 1700000000000;
    for i in 0..2000u64 {
        let raw = raw_from("{}");
        let ev = normalize_event_at(raw, base + i);
        assert!(seen.insert(ev.event_id), "collision at offset {}", i);
    }
}

#[test]
fn rand_fragment_is_short_lowercase_hex() {
    let f = rand_fragment();
    assert!(!f.is_empty() && f.len() <= 5);
    assert!(f.chars().all(|c| c.is_ascii_hexdigit() && !c.is_ascii_uppercase()));
}

#[test]
fn invalid_utf8_is_skipped_silently() {
    let body: Vec<u8> = vec![0xff, 0xfe, 0x00];
    assert_eq!(decode_message(&body).unwrap_err(), DecodeError::Utf8);
    match handle_message(&body, 1).unwrap() {
        Handled::Skipped(DecodeError::Utf8) => {}
        other => panic!("expected a UTF-8 skip, got {:?}", decode_kind(&other)),
    }
}

#[test]
fn invalid_json_is_skipped_with_a_report() {
    let body: Vec<u8> = b"not json at all".to_vec();
    assert_eq!(decode_message(&body).unwrap_err(), DecodeError::Syntax);
    match handle_message(&body, 1).unwrap() {
        Handled::Skipped(DecodeError::Syntax) => {}
        other => panic!("expected a syntax skip, got {:?}", decode_kind(&other)),
    }
}

#[test]
fn wrong_typed_field_is_skipped() {
    let body: Vec<u8> = b"{\"kind\": 5}".to_vec();
    assert_eq!(decode_message(&body).unwrap_err(), DecodeError::FieldType);
    match handle_message(&body, 1).unwrap() {
        Handled::Skipped(DecodeError::FieldType) => {}
        other => panic!("expected a field-type skip, got {:?}", decode_kind(&other)),
    }
}

#[test]
fn non_object_document_is_skipped() {
    for body in [&b"5"[..], b"[1]", b"\"record\"", b"true", b"null"] {
        let body = body.to_vec();
        assert_eq!(decode_message(&body).unwrap_err(), DecodeError::NotObject);
        match handle_message(&body, 1).unwrap() {
            Handled::Skipped(DecodeError::NotObject) => {}
            other => panic!("expected a non-object skip, got {:?}", decode_kind(&other)),
        }
    }
}

#[test]
fn every_decodable_message_is_emitted() {
    let body = b"{\"kind\":\"motion\"}".to_vec();
    match handle_message(&body, 0).unwrap() {
        Handled::Emitted(line) => assert!(line.starts_with("{\"event_id\":\"voevt_0_79bcd\"")),
        Handled::Skipped(e) => panic!("decodable body skipped as {:?}", e),
    }
}

#[test]
fn null_declared_field_is_skipped() {
    // JSON null is not a string: the default applies only to absent members.
    let body: Vec<u8> = b"{\"device_id\": null}".to_vec();
    assert_eq!(decode_message(&body).unwrap_err(), DecodeError::FieldType);
}

#[test]
fn wellformed_message_still_processed_after_malformed_ones() {
    for bad in [&b"\xff\xff"[..], b"{", b"{\"zone_id\": []}", b"[\"not\",\"a\",\"record\"]"] {
        match handle_message(&bad.to_vec(), 7).unwrap() {
            Handled::Skipped(_) => {}
            Handled::Emitted(line) => panic!("malformed body emitted {}", line),
        }
    }
    let good = b"{\"device_id\":\"d9\",\"kind\":\"motion\",\"payload\":[true]}".to_vec();
    match handle_message(&good, 7).unwrap() {
        Handled::Emitted(line) => {
            assert_eq!(
                line,
                "{\"event_id\":\"voevt_7_79bca\",\"ts_unix_ms\":7,\"device_id\":\"d9\",\
                 \"zone_id\":\"\",\"category\":\"motion\",\"fields\":[true]}"
            );
        }
        Handled::Skipped(e) => panic!("well-formed body skipped as {:?}", e),
    }
}

#[test]
fn emitted_line_matches_reference_encoding() {
    let body =
        b"{\"device_id\":\"d \\\"q\\\"\",\"zone_id\":\"z\\\\1\",\"kind\":\"k\\n2\",\"payload\":{\"x\":[1,\"y\"]}}"
            .to_vec();
    let line = match handle_message(&body, 123456789).unwrap() {
        Handled::Emitted(line) => line,
        Handled::Skipped(e) => panic!("skipped as {:?}", e),
    };
    // The line must parse back to exactly the canonical record.
    let v: serde_json::Value = serde_json::from_str(&line).unwrap();
    assert_eq!(v["event_id"], "voevt_123456789_c56d8");
    assert_eq!(v["ts_unix_ms"], 123456789u64);
    assert_eq!(v["device_id"], "d \"q\"");
    assert_eq!(v["zone_id"], "z\\1");
    assert_eq!(v["category"], "k\n2");
    let fields: serde_json::Value = serde_json::from_str("{\"x\":[1,\"y\"]}").unwrap();
    assert_eq!(v["fields"], fields);
    // And byte for byte it is the expected compact rendering, fields in the
    // canonical record's order.
    assert_eq!(
        line,
        "{\"event_id\":\"voevt_123456789_c56d8\",\"ts_unix_ms\":123456789,\
         \"device_id\":\"d \\\"q\\\"\",\"zone_id\":\"z\\\\1\",\"category\":\"k\\n2\",\
         \"fields\":{\"x\":[1,\"y\"]}}"
    );
}

#[test]
fn control_characters_are_escaped_as_serde_json_escapes_them() {
    let body = b"{\"device_id\":\"a\\u0001b\\tc\"}".to_vec();
    let line = match handle_message(&body, 0).unwrap() {
        Handled::Emitted(line) => line,
        Handled::Skipped(e) => panic!("skipped as {:?}", e),
    };
    let expected_field =
        serde_json::to_string(&serde_json::Value::String("a\u{1}b\tc".to_string())).unwrap();
    assert!(line.contains(&format!("\"device_id\":{}", expected_field)));
    let v: serde_json::Value = serde_json::from_str(&line).unwrap();
    assert_eq!(v["device_id"], "a\u{1}b\tc");
}

#[test]
fn topic_filter_has_one_wildcard_segment() {
    assert_eq!(topic_filter("analytics", "events"), "analytics/+/events");
}

#[test]
fn normalize_keeps_explicit_payload_null() {
    let raw = RawAnalyticsEvent {
        device_id: String::new(),
        zone_id: String::new(),
        kind: String::new(),
        payload: null_value(),
    };
    let ev = normalize_event(raw);
    assert_eq!(ev.category, "analytics");
    assert_eq!(ev.fields, serde_json::Value::Null);
}

fn decode_kind(h: &Handled) -> String {
    match h {
        Handled::Emitted(line) => format!("Emitted({})", line),
        Handled::Skipped(e) => format!("Skipped({:?})", e),
    }
}
