//! Rendering one canonical event as a single compact JSON line for the
//! sink, with the string-escaping rules of the JSON grammar.

use vstd::prelude::*;
use vstd::string::{StrSliceExecFns, StringExecFns};

use crate::event::{GatewayError, VirtualObjectEvent};
use crate::json::{error_message, json_text, value_to_json};
use crate::text::{digit_char, digit_of, push_char, push_dec, spec_dec};

verus! {

/// The JSON escaping of one character: quote and backslash escaped, control
/// characters by their short escapes or `\u00` followed by two lowercase
/// hexadecimal digits, every other character unchanged.
pub open spec fn escape_char(c: char) -> Seq<char> {
    if c == '"' {
        seq!['\\', '"']
    } else if c == '\\' {
        seq!['\\', '\\']
    } else if c == '\u{08}' {
        seq!['\\', 'b']
    } else if c == '\t' {
        seq!['\\', 't']
    } else if c == '\n' {
        seq!['\\', 'n']
    } else if c == '\u{0c}' {
        seq!['\\', 'f']
    } else if c == '\r' {
        seq!['\\', 'r']
    } else if (c as u32) < 0x20 {
        seq![
            '\\',
            'u',
            '0',
            '0',
            digit_char(((c as u32) / 16) as nat),
            digit_char(((c as u32) % 16) as nat),
        ]
    } else {
        seq![c]
    }
}

/// The JSON escaping of a text, character by character.
pub open spec fn escape_text(s: Seq<char>) -> Seq<char>
    decreases s.len(),
{
    if s.len() == 0 {
        Seq::empty()
    } else {
        escape_text(s.drop_last()) + escape_char(s.last())
    }
}

/// Appends the JSON escaping of one character to `out`.
fn push_escaped_char(out: &mut String, c: char)
    ensures
        final(out)@ == old(out)@ + escape_char(c),
{
    if c == '"' {
        push_char(out, '\\');
        push_char(out, '"');
    } else if c == '\\' {
        push_char(out, '\\');
        push_char(out, '\\');
    } else if c == '\u{08}' {
        push_char(out, '\\');
        push_char(out, 'b');
    } else if c == '\t' {
        push_char(out, '\\');
        push_char(out, 't');
    } else if c == '\n' {
        push_char(out, '\\');
        push_char(out, 'n');
    } else if c == '\u{0c}' {
        push_char(out, '\\');
        push_char(out, 'f');
    } else if c == '\r' {
        push_char(out, '\\');
        push_char(out, 'r');
    } else if (c as u32) < 0x20 {
        let code = c as u32;
        push_char(out, '\\');
        push_char(out, 'u');
        push_char(out, '0');
        push_char(out, '0');
        push_char(out, digit_of((code / 16) as u64));
        push_char(out, digit_of((code % 16) as u64));
    } else {
        push_char(out, c);
    }
    proof {
        assert(final(out)@ =~= old(out)@ + escape_char(c));
    }
}

/// Appends the JSON escaping of a text to `out`.
fn push_escaped(out: &mut String, s: &str)
    ensures
        final(out)@ == old(out)@ + escape_text(s@),
{
    let n = s.unicode_len();
    let mut i: usize = 0;
    while i < n
        invariant
            n == s@.len(),
            i <= n,
            out@ == old(out)@ + escape_text(s@.subrange(0, i as int)),
        decreases n - i,
    {
        let c = s.get_char(i);
        push_escaped_char(out, c);
        proof {
            assert(s@.subrange(0, (i + 1) as int).drop_last() =~= s@.subrange(0, i as int));
            assert(s@.subrange(0, (i + 1) as int).last() == s@[i as int]);
            assert(out@ =~= old(out)@ + escape_text(s@.subrange(0, (i + 1) as int)));
        }
        i = i + 1;
    }
    proof {
        assert(s@.subrange(0, n as int) =~= s@);
    }
}

/// The outbound canonical record as one compact JSON line, over the already
/// rendered text of the `fields` value.
pub open spec fn spec_event_line(
    event_id: Seq<char>,
    ts: u64,
    device_id: Seq<char>,
    zone_id: Seq<char>,
    category: Seq<char>,
    fields_text: Seq<char>,
) -> Seq<char> {
    "{\"event_id\":\""@ + escape_text(event_id) + "\",\"ts_unix_ms\":"@ + spec_dec(ts as nat)
        + ",\"device_id\":\""@ + escape_text(device_id) + "\",\"zone_id\":\""@ + escape_text(
        zone_id,
    ) + "\",\"category\":\""@ + escape_text(category) + "\",\"fields\":"@ + fields_text + "}"@
}

/// Serializes one canonical event for emission; this always succeeds. The
/// error path stays for the loop's taxonomy — a failure to render the
/// `fields` value would be a defect condition, fatal to the ingestion loop
/// — but the renderer is total on JSON values.
pub fn serialize_event(ev: &VirtualObjectEvent) -> (r: Result<String, GatewayError>)
    ensures
        r is Ok,
        match r {
            Ok(line) => line@ == spec_event_line(
                ev.event_id@,
                ev.ts_unix_ms,
                ev.device_id@,
                ev.zone_id@,
                ev.category@,
                json_text(ev.fields),
            ),
            Err(e) => e is Encode,
        },
{
    let fields_text = match value_to_json(&ev.fields) {
        Ok(s) => s,
        Err(e) => {
            return Err(GatewayError::Encode(error_message(&e)));
        },
    };
    let mut out = "{\"event_id\":\"".to_owned();
    push_escaped(&mut out, ev.event_id.as_str());
    out.append("\",\"ts_unix_ms\":");
    push_dec(&mut out, ev.ts_unix_ms);
    out.append(",\"device_id\":\"");
    push_escaped(&mut out, ev.device_id.as_str());
    out.append("\",\"zone_id\":\"");
    push_escaped(&mut out, ev.zone_id.as_str());
    out.append("\",\"category\":\"");
    push_escaped(&mut out, ev.category.as_str());
    out.append("\",\"fields\":");
    out.append(fields_text.as_str());
    out.append("}");
    proof {
        assert(out@ =~= spec_event_line(
            ev.event_id@,
            ev.ts_unix_ms,
            ev.device_id@,
            ev.zone_id@,
            ev.category@,
            json_text(ev.fields),
        ));
    }
    Ok(out)
}

} // verus!
