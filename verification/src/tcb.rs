//! TCB info documents: an event log that leads from a measurement register
//! to the description of the application, and the two images that the
//! description names.
//!
//! A TCB info is a JSON object. Its member `event_log` is an array of events;
//! each event is an object with the members `imr` and `event_type` (unsigned
//! integers), `digest` (48 bytes in hexadecimal), `event` (a text) and
//! `event_payload` (bytes in hexadecimal). Its member `app_compose` is a
//! text: the description of the application.
//!
//! The register 3 starts as 48 zero bytes, and each event with `imr` 3
//! replaces it by the SHA-384 digest of the register followed by the event's
//! digest. The digest of an event is the SHA-384 digest of its type as four
//! little-endian bytes, a colon, its name, a colon and its payload. The event
//! called `compose-hash` has the SHA-256 digest of the description as its
//! payload. In the description each image is named by `@sha256:` and the 64
//! lower-case hexadecimal digits of its digest; the image of the API comes
//! first, that of the application second.

use crate::digest::{sha256, sha256_digest, sha384, sha384_digest};
use crate::errors::ParseError;
use crate::hexcode::{decode_hex, encode_hex, hex_decoded, hex_encoded, is_hex_text};
use crate::json::{json_document, member_of, Json, JsonValue};
use crate::text::{joined, same_bytes, same_text};
use vstd::bytes::{spec_u32_to_le_bytes, u32_to_le_bytes};
use vstd::prelude::*;
use vstd::utf8::encode_utf8;

verus! {

/// An event of the log.
pub struct Event {
    /// The register that the event was measured into.
    pub imr: u64,
    pub event_type: u32,
    pub digest: Vec<u8>,
    pub event: String,
    pub payload: Vec<u8>,
}

/// What an [`Event`] holds.
pub ghost struct EventView {
    pub imr: u64,
    pub event_type: u32,
    pub digest: Seq<u8>,
    pub event: Seq<char>,
    pub payload: Seq<u8>,
}

impl View for Event {
    type V = EventView;

    open spec fn view(&self) -> EventView {
        EventView {
            imr: self.imr,
            event_type: self.event_type,
            digest: self.digest@,
            event: self.event@,
            payload: self.payload@,
        }
    }
}

/// The event that a JSON value stands for; `None` where it stands for none.
pub open spec fn event_of(json: JsonValue) -> Option<EventView> {
    match (
        member_of(json, "imr"@),
        member_of(json, "event_type"@),
        member_of(json, "digest"@),
        member_of(json, "event"@),
        member_of(json, "event_payload"@),
    ) {
        (
            Some(JsonValue::Number(Some(imr))),
            Some(JsonValue::Number(Some(event_type))),
            Some(JsonValue::Text(digest)),
            Some(JsonValue::Text(event)),
            Some(JsonValue::Text(payload)),
        ) => if event_type <= u32::MAX && is_hex_text(digest) && hex_decoded(digest).len() == 48
            && is_hex_text(payload) {
            Some(
                EventView {
                    imr,
                    event_type: event_type as u32,
                    digest: hex_decoded(digest),
                    event,
                    payload: hex_decoded(payload),
                },
            )
        } else {
            None
        },
        _ => None,
    }
}

/// The events that the items of an array stand for; `None` where one of them
/// stands for none.
pub open spec fn events_of(items: Seq<JsonValue>) -> Option<Seq<EventView>> {
    if forall|i: int| 0 <= i < items.len() ==> (#[trigger] event_of(items[i])).is_some() {
        Some(Seq::new(items.len(), |i: int| event_of(items[i]).unwrap()))
    } else {
        None
    }
}

/// The register 3 after the first `count` events.
pub open spec fn replayed(events: Seq<EventView>, count: int) -> Seq<u8>
    decreases count,
{
    if count <= 0 {
        Seq::new(48, |i: int| 0u8)
    } else {
        let before = replayed(events, count - 1);
        if events[count - 1].imr == 3 {
            sha384_digest(before + events[count - 1].digest)
        } else {
            before
        }
    }
}

/// The digest of an event with this type, name and payload.
pub open spec fn event_digest(event_type: u32, event: Seq<char>, payload: Seq<u8>) -> Seq<u8> {
    sha384_digest(
        spec_u32_to_le_bytes(event_type) + seq![58u8] + encode_utf8(event) + seq![58u8] + payload,
    )
}

/// Whether `e` is an event of register 3, called `compose-hash`, whose
/// payload is `compose_hash` and whose digest is that of its content.
pub open spec fn announces(e: EventView, compose_hash: Seq<u8>) -> bool {
    &&& e.imr == 3
    &&& e.event == "compose-hash"@
    &&& e.payload == compose_hash
    &&& e.digest == event_digest(e.event_type, e.event, e.payload)
}

/// Whether one of the first `count` events announces `compose_hash`.
pub open spec fn announced(events: Seq<EventView>, compose_hash: Seq<u8>, count: int) -> bool {
    exists|i: int| 0 <= i < count && i < events.len() && announces(#[trigger] events[i], compose_hash)
}

/// The bytes of `@sha256:`.
pub open spec fn marker() -> Seq<u8> {
    seq![64u8, 115u8, 104u8, 97u8, 50u8, 53u8, 54u8, 58u8]
}

/// Whether the marker stands in `text` at the index `at`.
pub open spec fn marker_at(text: Seq<u8>, at: int) -> bool {
    &&& 0 <= at
    &&& at + 8 <= text.len()
    &&& text.subrange(at, at + 8) == marker()
}

/// The first index from `from` on at which the marker stands in `text`.
pub open spec fn next_marker(text: Seq<u8>, from: int) -> Option<int>
    decreases text.len() - from,
{
    if from < 0 || from + 8 > text.len() {
        None
    } else if marker_at(text, from) {
        Some(from)
    } else {
        next_marker(text, from + 1)
    }
}

/// The value of a lower-case hexadecimal digit; `None` for any other byte.
pub open spec fn lower_hex_value(b: u8) -> Option<u8> {
    if 48 <= b && b <= 57 {
        Some((b - 48) as u8)
    } else if 97 <= b && b <= 102 {
        Some((b - 87) as u8)
    } else {
        None
    }
}

/// The 32 bytes that the 64 lower-case hexadecimal digits at `at` stand for;
/// `None` where no such digits stand there.
pub open spec fn digest_at(text: Seq<u8>, at: int) -> Option<Seq<u8>> {
    if 0 <= at && at + 64 <= text.len() && forall|i: int|
        at <= i < at + 64 ==> (#[trigger] lower_hex_value(text[i])).is_some() {
        Some(
            Seq::new(
                32,
                |i: int|
                    (lower_hex_value(text[at + 2 * i]).unwrap() * 16 + lower_hex_value(
                        text[at + 2 * i + 1],
                    ).unwrap()) as u8,
            ),
        )
    } else {
        None
    }
}

/// The digest behind the first marker from `from` on, and the index behind it.
pub open spec fn image_after(text: Seq<u8>, from: int) -> Option<(Seq<u8>, int)> {
    match next_marker(text, from) {
        None => None,
        Some(at) => match digest_at(text, at + 8) {
            None => None,
            Some(digest) => Some((digest, at + 72)),
        },
    }
}

/// The digests of the first two images that `text` names.
pub open spec fn images_in(text: Seq<u8>) -> Option<(Seq<u8>, Seq<u8>)> {
    match image_after(text, 0) {
        None => None,
        Some((api, next)) => match image_after(text, next) {
            None => None,
            Some((app, _)) => Some((api, app)),
        },
    }
}

/// What a TCB info gives for a measurement: the image of the API and that of
/// the application, both in hexadecimal.
pub open spec fn tcb_images(doc: JsonValue, measurement: Seq<char>) -> Result<
    (Seq<char>, Seq<char>),
    ParseError,
> {
    match (member_of(doc, "app_compose"@), member_of(doc, "event_log"@)) {
        (Some(JsonValue::Text(compose)), Some(JsonValue::Array(items))) => match events_of(items) {
            None => Err(ParseError::MalformedCollateral),
            Some(events) => {
                if hex_encoded(replayed(events, events.len() as int)) != measurement {
                    Err(ParseError::MeasurementNotFound)
                } else if !announced(
                    events,
                    sha256_digest(encode_utf8(compose)),
                    events.len() as int,
                ) {
                    Err(ParseError::MeasurementNotFound)
                } else {
                    match images_in(encode_utf8(compose)) {
                        None => Err(ParseError::MalformedCollateral),
                        Some((api, app)) => Ok((hex_encoded(api), hex_encoded(app))),
                    }
                }
            },
        },
        _ => Err(ParseError::MalformedCollateral),
    }
}

/// What the text of a TCB info gives for a measurement.
pub open spec fn tcb_images_of_text(raw: Seq<char>, measurement: Seq<char>) -> Result<
    (Seq<char>, Seq<char>),
    ParseError,
> {
    match json_document(raw) {
        None => Err(ParseError::MalformedCollateral),
        Some(doc) => tcb_images(doc, measurement),
    }
}

/// The views of a list of events.
pub open spec fn event_views(events: Seq<Event>) -> Seq<EventView> {
    events.map_values(|e: Event| e@)
}

/// The values of a list of JSON values.
pub open spec fn values(items: Seq<Json>) -> Seq<JsonValue> {
    items.map_values(|j: Json| j@)
}

fn lower_hex(b: u8) -> (r: Option<u8>)
    ensures
        r == lower_hex_value(b),
{
    if 48 <= b && b <= 57 {
        Some(b - 48)
    } else if 97 <= b && b <= 102 {
        Some(b - 87)
    } else {
        None
    }
}

fn read_digest(text: &[u8], at: usize) -> (r: Option<Vec<u8>>)
    ensures
        match r {
            Some(digest) => digest_at(text@, at as int) == Some(digest@),
            None => digest_at(text@, at as int).is_none(),
        },
{
    if text.len() < 64 || at > text.len() - 64 {
        return None;
    }
    let mut digest: Vec<u8> = Vec::new();
    let mut i: usize = 0;
    while i < 32
        invariant
            i <= 32,
            at + 64 <= text.len(),
            digest@.len() == i,
            forall|j: int| at <= j < at + 2 * i ==> (#[trigger] lower_hex_value(text@[j])).is_some(),
            forall|k: int|
                0 <= k < i ==> #[trigger] digest@[k] == (lower_hex_value(
                    text@[at + 2 * k],
                ).unwrap() * 16 + lower_hex_value(text@[at + 2 * k + 1]).unwrap()) as u8,
        decreases 32 - i,
    {
        let high = lower_hex(text[at + 2 * i]);
        let low = lower_hex(text[at + 2 * i + 1]);
        match (high, low) {
            (Some(h), Some(l)) => {
                digest.push(h * 16 + l);
            },
            _ => {
                return None;
            },
        }
        i += 1;
    }
    assert(digest@ =~= digest_at(text@, at as int).unwrap());
    Some(digest)
}

fn has_marker_at(text: &[u8], at: usize) -> (r: bool)
    requires
        at + 8 <= text.len(),
    ensures
        r == marker_at(text@, at as int),
{
    let found = text[at] == 64 && text[at + 1] == 115 && text[at + 2] == 104 && text[at + 3] == 97
        && text[at + 4] == 50 && text[at + 5] == 53 && text[at + 6] == 54 && text[at + 7] == 58;
    proof {
        let part = text@.subrange(at as int, at + 8);
        if found {
            assert(part =~= marker());
        } else {
            assert(part[0] == text@[at as int]);
            assert(part[1] == text@[at + 1]);
            assert(part[2] == text@[at + 2]);
            assert(part[3] == text@[at + 3]);
            assert(part[4] == text@[at + 4]);
            assert(part[5] == text@[at + 5]);
            assert(part[6] == text@[at + 6]);
            assert(part[7] == text@[at + 7]);
        }
    }
    found
}

fn find_marker(text: &[u8], from: usize) -> (r: Option<usize>)
    ensures
        match r {
            Some(at) => next_marker(text@, from as int) == Some(at as int) && at + 8 <= text.len(),
            None => next_marker(text@, from as int).is_none(),
        },
{
    if text.len() < 8 {
        return None;
    }
    let mut at: usize = from;
    while at <= text.len() - 8
        invariant
            from <= at,
            text.len() >= 8,
            next_marker(text@, from as int) == next_marker(text@, at as int),
        decreases text.len() - at,
    {
        if has_marker_at(text, at) {
            return Some(at);
        }
        at += 1;
    }
    None
}

fn find_image(text: &[u8], from: usize) -> (r: Option<(Vec<u8>, usize)>)
    ensures
        match r {
            Some((digest, next)) => image_after(text@, from as int) == Some((digest@, next as int)),
            None => image_after(text@, from as int).is_none(),
        },
{
    match find_marker(text, from) {
        None => None,
        Some(at) => match read_digest(text, at + 8) {
            None => None,
            Some(digest) => Some((digest, at + 72)),
        },
    }
}

/// The digests of the first two images that `text` names.
pub fn find_images(text: &[u8]) -> (r: Option<(Vec<u8>, Vec<u8>)>)
    ensures
        match r {
            Some((api, app)) => images_in(text@) == Some((api@, app@)),
            None => images_in(text@).is_none(),
        },
{
    match find_image(text, 0) {
        None => None,
        Some((api, next)) => match find_image(text, next) {
            None => None,
            Some((app, _)) => Some((api, app)),
        },
    }
}

/// Reads an event.
pub fn read_event(json: &Json) -> (r: Option<Event>)
    ensures
        match r {
            Some(e) => event_of(json@) == Some(e@),
            None => event_of(json@).is_none(),
        },
{
    let imr = match json.member("imr") {
        Some(found) => match found.as_number() {
            Some(n) => n,
            None => { return None; },
        },
        None => { return None; },
    };
    let event_type = match json.member("event_type") {
        Some(found) => match found.as_number() {
            Some(n) => n,
            None => { return None; },
        },
        None => { return None; },
    };
    let digest_text = match json.member("digest") {
        Some(found) => match found.as_text() {
            Some(s) => s,
            None => { return None; },
        },
        None => { return None; },
    };
    let event = match json.member("event") {
        Some(found) => match found.as_text() {
            Some(s) => s,
            None => { return None; },
        },
        None => { return None; },
    };
    let payload_text = match json.member("event_payload") {
        Some(found) => match found.as_text() {
            Some(s) => s,
            None => { return None; },
        },
        None => { return None; },
    };
    if event_type > 0xffff_ffff {
        return None;
    }
    let digest = match decode_hex(digest_text) {
        Some(bytes) => bytes,
        None => { return None; },
    };
    if digest.len() != 48 {
        return None;
    }
    let payload = match decode_hex(payload_text) {
        Some(bytes) => bytes,
        None => { return None; },
    };
    Some(Event { imr, event_type: event_type as u32, digest, event: String::from_str(event), payload })
}

/// Reads the events of a log.
pub fn read_events(items: &Vec<Json>) -> (r: Option<Vec<Event>>)
    ensures
        match r {
            Some(events) => events_of(values(items@)) == Some(event_views(events@)),
            None => events_of(values(items@)).is_none(),
        },
{
    let mut events: Vec<Event> = Vec::new();
    let mut i: usize = 0;
    while i < items.len()
        invariant
            i <= items.len(),
            events@.len() == i,
            forall|j: int| 0 <= j < i ==> event_of(#[trigger] values(items@)[j]) == Some(events@[j]@),
        decreases items.len() - i,
    {
        match read_event(&items[i]) {
            Some(e) => {
                events.push(e);
            },
            None => {
                assert(event_of(values(items@)[i as int]).is_none());
                return None;
            },
        }
        i += 1;
    }
    assert(event_views(events@) =~= events_of(values(items@)).unwrap());
    Some(events)
}

/// The register 3 after all the events.
pub fn replay_measurement(events: &Vec<Event>) -> (r: Vec<u8>)
    ensures
        r@ == replayed(event_views(events@), events@.len() as int),
{
    let mut register: Vec<u8> = Vec::new();
    let mut k: usize = 0;
    while k < 48
        invariant
            k <= 48,
            register@.len() == k,
            forall|j: int| 0 <= j < k ==> register@[j] == 0u8,
        decreases 48 - k,
    {
        register.push(0u8);
        k += 1;
    }
    assert(register@ =~= replayed(event_views(events@), 0));
    let mut i: usize = 0;
    while i < events.len()
        invariant
            i <= events.len(),
            register@ == replayed(event_views(events@), i as int),
        decreases events.len() - i,
    {
        if events[i].imr == 3 {
            let input = joined(register.as_slice(), events[i].digest.as_slice());
            register = sha384(input.as_slice());
        }
        i += 1;
    }
    register
}

/// Whether `e` announces `compose_hash`.
pub fn event_announces(e: &Event, compose_hash: &[u8]) -> (r: bool)
    ensures
        r == announces(e@, compose_hash@),
{
    if e.imr != 3 || !same_text(e.event.as_str(), "compose-hash") || !same_bytes(
        e.payload.as_slice(),
        compose_hash,
    ) {
        return false;
    }
    let kind = u32_to_le_bytes(e.event_type);
    let mut content = kind;
    content.push(58u8);
    let content = joined(content.as_slice(), e.event.as_str().as_bytes());
    let mut content = content;
    content.push(58u8);
    let content = joined(content.as_slice(), e.payload.as_slice());
    assert(content@ =~= spec_u32_to_le_bytes(e.event_type) + seq![58u8] + encode_utf8(e.event@)
        + seq![58u8] + e.payload@);
    let digest = sha384(content.as_slice());
    same_bytes(digest.as_slice(), e.digest.as_slice())
}

/// Whether one of the events announces `compose_hash`.
pub fn log_announces(events: &Vec<Event>, compose_hash: &[u8]) -> (r: bool)
    ensures
        r == announced(event_views(events@), compose_hash@, events@.len() as int),
{
    let mut i: usize = 0;
    while i < events.len()
        invariant
            i <= events.len(),
            !announced(event_views(events@), compose_hash@, i as int),
        decreases events.len() - i,
    {
        if event_announces(&events[i], compose_hash) {
            assert(announces(event_views(events@)[i as int], compose_hash@));
            return true;
        }
        i += 1;
    }
    false
}

/// The two images that a TCB info gives for a measurement.
pub fn images_of_document(doc: &Json, measurement: &str) -> (r: Result<(String, String), ParseError>)
    ensures
        match r {
            Ok((api, app)) => tcb_images(doc@, measurement@) == Ok::<
                (Seq<char>, Seq<char>),
                ParseError,
            >((api@, app@)),
            Err(e) => tcb_images(doc@, measurement@) == Err::<(Seq<char>, Seq<char>), ParseError>(
                e,
            ),
        },
{
    let compose = match doc.member("app_compose") {
        Some(found) => match found.as_text() {
            Some(s) => s,
            None => { return Err(ParseError::MalformedCollateral); },
        },
        None => { return Err(ParseError::MalformedCollateral); },
    };
    let items = match doc.member("event_log") {
        Some(found) => match found.as_items() {
            Some(items) => items,
            None => { return Err(ParseError::MalformedCollateral); },
        },
        None => { return Err(ParseError::MalformedCollateral); },
    };
    let events = match read_events(items) {
        Some(events) => events,
        None => { return Err(ParseError::MalformedCollateral); },
    };
    let register = replay_measurement(&events);
    if !same_text(encode_hex(register.as_slice()).as_str(), measurement) {
        return Err(ParseError::MeasurementNotFound);
    }
    let compose_hash = sha256(compose.as_bytes());
    if !log_announces(&events, compose_hash.as_slice()) {
        return Err(ParseError::MeasurementNotFound);
    }
    match find_images(compose.as_bytes()) {
        None => Err(ParseError::MalformedCollateral),
        Some((api, app)) => Ok((encode_hex(api.as_slice()), encode_hex(app.as_slice()))),
    }
}

/// Reads a TCB info and gives the two images that it names for
/// `measurement`: that of the API and that of the application.
pub fn parse_tcb_info(raw: &str, measurement: &str) -> (r: Result<(String, String), ParseError>)
    ensures
        match r {
            Ok((api, app)) => tcb_images_of_text(raw@, measurement@) == Ok::<
                (Seq<char>, Seq<char>),
                ParseError,
            >((api@, app@)),
            Err(e) => tcb_images_of_text(raw@, measurement@) == Err::<
                (Seq<char>, Seq<char>),
                ParseError,
            >(e),
        },
{
    match Json::parse(raw) {
        None => Err(ParseError::MalformedCollateral),
        Some(doc) => images_of_document(&doc, measurement),
    }
}

} // verus!
