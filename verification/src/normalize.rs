//! The normalizer: raw record to canonical virtual-object event, including
//! identifier and timestamp synthesis, and the proof that identifiers
//! determine the timestamp they were minted at.

use std::time::{Duration, SystemTime, UNIX_EPOCH};
use vstd::prelude::*;

use crate::event::{RawAnalyticsEvent, VirtualObjectEvent};
use crate::text::{
    is_dec_digit, lemma_dec_digits, lemma_dec_injective, push_char, push_dec, push_hex, spec_dec,
    spec_hex,
};

verus! {

/// The fixed constant XOR-mixed into the timestamp for the identifier
/// fragment.
pub const FRAGMENT_MIX: u64 = 0x5f37_9bcd;

/// The mask keeping the low 20 bits of the mixed timestamp.
pub const FRAGMENT_MASK: u64 = 0xfffff;

/// The category an event falls back to when the raw record's `kind` is
/// empty.
pub open spec fn spec_category(kind: Seq<char>) -> Seq<char> {
    if kind.len() == 0 {
        "analytics"@
    } else {
        kind
    }
}

/// The identifier fragment value minted at clock reading `ts`.
pub open spec fn spec_fragment_val(ts: u64) -> u64 {
    (ts ^ FRAGMENT_MIX) & FRAGMENT_MASK
}

/// The identifier fragment text minted at clock reading `ts`.
pub open spec fn spec_fragment(ts: u64) -> Seq<char> {
    spec_hex(spec_fragment_val(ts) as nat)
}

/// The full event identifier minted at clock reading `ts`.
pub open spec fn spec_event_id(ts: u64) -> Seq<char> {
    "voevt_"@ + spec_dec(ts as nat) + "_"@ + spec_fragment(ts)
}

/// Every canonical event's category is non-empty: the fallback literal
/// steps in exactly when the raw record's `kind` is empty.
pub proof fn lemma_category_nonempty(kind: Seq<char>)
    ensures
        spec_category(kind).len() > 0,
{
    reveal_strlit("analytics");
}

/// Relies on `std::time::SystemTime::now`: milliseconds since the Unix
/// epoch by the system clock, 0 where the clock reads before the epoch.
/// The result depends on when the call is made, so nothing is promised of
/// it.
#[verifier::external_body]
pub fn now_ms() -> u64 {
    SystemTime::now()
        .duration_since(UNIX_EPOCH)
        .unwrap_or_else(|_| Duration::from_secs(0))
        .as_millis() as u64
}

/// The identifier fragment for the clock reading `ts`, as lowercase
/// hexadecimal text.
pub fn fragment_at(ts: u64) -> (r: String)
    ensures
        r@ == spec_fragment(ts),
{
    let mut s = String::new();
    push_hex(&mut s, (ts ^ FRAGMENT_MIX) & FRAGMENT_MASK);
    proof {
        assert(s@ =~= spec_fragment(ts));
    }
    s
}

/// A best-effort identifier fragment derived from the current clock
/// reading; a de-duplication aid, not a security property.
pub fn rand_fragment() -> (r: String)
    ensures
        exists|ts: u64| r@ == spec_fragment(ts),
{
    let ts = now_ms();
    let r = fragment_at(ts);
    proof {
        assert(r@ == spec_fragment(ts));
    }
    r
}

/// The full event identifier for the clock reading `ts`.
pub fn event_id_at(ts: u64) -> (r: String)
    ensures
        r@ == spec_event_id(ts),
{
    let mut s = "voevt_".to_owned();
    push_dec(&mut s, ts);
    push_char(&mut s, '_');
    push_hex(&mut s, (ts ^ FRAGMENT_MIX) & FRAGMENT_MASK);
    proof {
        reveal_strlit("_");
        assert(s@ =~= spec_event_id(ts));
    }
    s
}

/// Normalizes one raw record into a canonical event stamped with the clock
/// reading `ts`: the identifier is minted from `ts`, `category` falls back
/// to `"analytics"` exactly when the raw `kind` is empty, and the remaining
/// fields pass through unchanged.
pub fn normalize_event_at(raw: RawAnalyticsEvent, ts: u64) -> (ev: VirtualObjectEvent)
    ensures
        ev.event_id@ == spec_event_id(ts),
        ev.ts_unix_ms == ts,
        ev.device_id == raw.device_id,
        ev.zone_id == raw.zone_id,
        ev.category@ == spec_category(raw.kind@),
        ev.fields == raw.payload,
{
    let event_id = event_id_at(ts);
    let category = if raw.kind.as_str().is_empty() {
        "analytics".to_owned()
    } else {
        raw.kind
    };
    VirtualObjectEvent {
        event_id,
        ts_unix_ms: ts,
        device_id: raw.device_id,
        zone_id: raw.zone_id,
        category,
        fields: raw.payload,
    }
}

/// Normalizes one raw record at the current clock reading.
pub fn normalize_event(raw: RawAnalyticsEvent) -> (ev: VirtualObjectEvent)
    ensures
        ev.event_id@ == spec_event_id(ev.ts_unix_ms),
        ev.device_id == raw.device_id,
        ev.zone_id == raw.zone_id,
        ev.category@ == spec_category(raw.kind@),
        ev.fields == raw.payload,
{
    let ts = now_ms();
    normalize_event_at(raw, ts)
}

/// An event identifier determines the clock reading it was minted at: two
/// events normalized at distinct timestamps never share an identifier.
pub proof fn lemma_event_id_injective(ts1: u64, ts2: u64)
    requires
        spec_event_id(ts1) == spec_event_id(ts2),
    ensures
        ts1 == ts2,
{
    reveal_strlit("voevt_");
    reveal_strlit("_");
    let p = "voevt_"@;
    let u = "_"@;
    let d1 = spec_dec(ts1 as nat);
    let d2 = spec_dec(ts2 as nat);
    let s1 = spec_event_id(ts1);
    let s2 = spec_event_id(ts2);
    lemma_dec_digits(ts1 as nat);
    lemma_dec_digits(ts2 as nat);
    assert(p.len() == 6);
    assert(u.len() == 1);
    assert(u[0] == '_');
    let l1 = d1.len() as int;
    let l2 = d2.len() as int;
    if l1 < l2 {
        assert(s1[6 + l1] == u[0]);
        assert(s2[6 + l1] == d2[l1]);
        assert(is_dec_digit(d2[l1]));
        assert(false);
    }
    if l2 < l1 {
        assert(s2[6 + l2] == u[0]);
        assert(s1[6 + l2] == d1[l2]);
        assert(is_dec_digit(d1[l2]));
        assert(false);
    }
    assert(d1 =~= d2) by {
        assert forall|i: int| 0 <= i < l1 implies d1[i] == d2[i] by {
            assert(s1[6 + i] == d1[i]);
            assert(s2[6 + i] == d2[i]);
        }
    }
    lemma_dec_injective(ts1 as nat, ts2 as nat);
}

} // verus!
