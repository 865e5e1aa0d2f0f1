//! Webhook verification and event construction: header-supplied signature
//! and timestamp checks over the raw payload bytes, followed by decoding of
//! the event envelope. This is the only path that yields a trusted
//! `WebhookEvent`.

use vstd::prelude::*;
use vstd::string::StringExecFns;
use crate::errors::LinktorError;
use crate::headers::{lookup, HeaderMap};
use crate::parse::{parse_i64, spec_parse_i64};
use crate::signature::{signature_valid, verify_signature};
pub use crate::signature::compute_signature;

verus! {

/// Clock-skew tolerance applied when a caller supplies none, in seconds.
pub const DEFAULT_TOLERANCE_SECONDS: i64 = 300;

/// The event names the platform currently emits. An event whose name is not
/// in this set still parses; it is reported as unrecognized instead of
/// failing.
#[derive(Clone, Copy, Debug, PartialEq, Eq, Structural)]
pub enum EventType {
    MessageReceived,
    MessageSent,
    MessageDelivered,
    MessageRead,
    MessageFailed,
    ConversationCreated,
    ConversationUpdated,
    ConversationResolved,
    ConversationAssigned,
    ContactCreated,
    ContactUpdated,
    ContactDeleted,
    ChannelConnected,
    ChannelDisconnected,
    ChannelError,
    BotStarted,
    BotStopped,
    FlowStarted,
    FlowCompleted,
    FlowFailed,
}

/// The known event type named by `s`, if any.
pub open spec fn spec_event_type_of(s: Seq<char>) -> Option<EventType> {
    if s == "message.received"@ {
        Some(EventType::MessageReceived)
    } else if s == "message.sent"@ {
        Some(EventType::MessageSent)
    } else if s == "message.delivered"@ {
        Some(EventType::MessageDelivered)
    } else if s == "message.read"@ {
        Some(EventType::MessageRead)
    } else if s == "message.failed"@ {
        Some(EventType::MessageFailed)
    } else if s == "conversation.created"@ {
        Some(EventType::ConversationCreated)
    } else if s == "conversation.updated"@ {
        Some(EventType::ConversationUpdated)
    } else if s == "conversation.resolved"@ {
        Some(EventType::ConversationResolved)
    } else if s == "conversation.assigned"@ {
        Some(EventType::ConversationAssigned)
    } else if s == "contact.created"@ {
        Some(EventType::ContactCreated)
    } else if s == "contact.updated"@ {
        Some(EventType::ContactUpdated)
    } else if s == "contact.deleted"@ {
        Some(EventType::ContactDeleted)
    } else if s == "channel.connected"@ {
        Some(EventType::ChannelConnected)
    } else if s == "channel.disconnected"@ {
        Some(EventType::ChannelDisconnected)
    } else if s == "channel.error"@ {
        Some(EventType::ChannelError)
    } else if s == "bot.started"@ {
        Some(EventType::BotStarted)
    } else if s == "bot.stopped"@ {
        Some(EventType::BotStopped)
    } else if s == "flow.started"@ {
        Some(EventType::FlowStarted)
    } else if s == "flow.completed"@ {
        Some(EventType::FlowCompleted)
    } else if s == "flow.failed"@ {
        Some(EventType::FlowFailed)
    } else {
        None
    }
}

/// The fields of a decoded webhook event, as mathematical values. The
/// timestamp is in epoch seconds; `data` holds the JSON text of the
/// free-form data object when one was attached.
pub struct WebhookEventView {
    pub id: Seq<char>,
    pub event_type: Seq<char>,
    pub timestamp: int,
    pub tenant_id: Seq<char>,
    pub data: Option<Seq<char>>,
}

/// A verified, decoded webhook event. Only `construct_event` builds one, so
/// holding a value of this type means the signature and timestamp checks
/// passed.
#[derive(Clone, Debug)]
pub struct WebhookEvent {
    pub id: String,
    pub event_type: String,
    /// Event time in epoch seconds.
    pub timestamp: i64,
    pub tenant_id: String,
    /// JSON text of the event's free-form data object, when present.
    pub data: Option<String>,
}

impl View for WebhookEvent {
    type V = WebhookEventView;

    open spec fn view(&self) -> WebhookEventView {
        WebhookEventView {
            id: self.id@,
            event_type: self.event_type@,
            timestamp: self.timestamp as int,
            tenant_id: self.tenant_id@,
            data: match self.data {
                Some(ref d) => Some(d@),
                None => None,
            },
        }
    }
}

impl WebhookEvent {
    /// The known event type this event names, or `None` for an
    /// unrecognized name.
    pub fn get_event_type(&self) -> (r: Option<EventType>)
        ensures
            r == spec_event_type_of(self.event_type@),
    {
        let s = self.event_type.as_str();
        if crate::text::str_eq(s, "message.received") {
            Some(EventType::MessageReceived)
        } else if crate::text::str_eq(s, "message.sent") {
            Some(EventType::MessageSent)
        } else if crate::text::str_eq(s, "message.delivered") {
            Some(EventType::MessageDelivered)
        } else if crate::text::str_eq(s, "message.read") {
            Some(EventType::MessageRead)
        } else if crate::text::str_eq(s, "message.failed") {
            Some(EventType::MessageFailed)
        } else if crate::text::str_eq(s, "conversation.created") {
            Some(EventType::ConversationCreated)
        } else if crate::text::str_eq(s, "conversation.updated") {
            Some(EventType::ConversationUpdated)
        } else if crate::text::str_eq(s, "conversation.resolved") {
            Some(EventType::ConversationResolved)
        } else if crate::text::str_eq(s, "conversation.assigned") {
            Some(EventType::ConversationAssigned)
        } else if crate::text::str_eq(s, "contact.created") {
            Some(EventType::ContactCreated)
        } else if crate::text::str_eq(s, "contact.updated") {
            Some(EventType::ContactUpdated)
        } else if crate::text::str_eq(s, "contact.deleted") {
            Some(EventType::ContactDeleted)
        } else if crate::text::str_eq(s, "channel.connected") {
            Some(EventType::ChannelConnected)
        } else if crate::text::str_eq(s, "channel.disconnected") {
            Some(EventType::ChannelDisconnected)
        } else if crate::text::str_eq(s, "channel.error") {
            Some(EventType::ChannelError)
        } else if crate::text::str_eq(s, "bot.started") {
            Some(EventType::BotStarted)
        } else if crate::text::str_eq(s, "bot.stopped") {
            Some(EventType::BotStopped)
        } else if crate::text::str_eq(s, "flow.started") {
            Some(EventType::FlowStarted)
        } else if crate::text::str_eq(s, "flow.completed") {
            Some(EventType::FlowCompleted)
        } else if crate::text::str_eq(s, "flow.failed") {
            Some(EventType::FlowFailed)
        } else {
            None
        }
    }
}

/// A webhook endpoint registration.
#[derive(Clone, Debug)]
pub struct WebhookConfig {
    pub url: String,
    pub secret: String,
    pub events: Vec<String>,
    pub enabled: bool,
    pub headers: Option<HeaderMap>,
}

/// The raw fields of a decoded event envelope, its timestamp still the
/// RFC 3339 text the sender supplied.
pub struct RawEventView {
    pub id: Seq<char>,
    pub event_type: Seq<char>,
    pub timestamp: Seq<char>,
    pub tenant_id: Seq<char>,
    pub data: Option<Seq<char>>,
}

struct RawEvent {
    id: String,
    event_type: String,
    timestamp: String,
    tenant_id: String,
    data: Option<String>,
}

impl View for RawEvent {
    type V = RawEventView;

    closed spec fn view(&self) -> RawEventView {
        RawEventView {
            id: self.id@,
            event_type: self.event_type@,
            timestamp: self.timestamp@,
            tenant_id: self.tenant_id@,
            data: match self.data {
                Some(ref d) => Some(d@),
                None => None,
            },
        }
    }
}

/// The fields the payload decodes to when it is valid event JSON: an object
/// with string `id`, `type`, `tenantId` and `timestamp` members and an
/// optional `data` object. A pure function of the payload bytes; this names
/// its value.
pub uninterp spec fn event_fields_of(payload: Seq<u8>) -> Option<RawEventView>;

/// Relies on serde_json::from_slice to decode the event envelope;
/// `event_fields_of` names the decoded fields.
#[verifier::external_body]
fn decode_event_fields(payload: &[u8]) -> (r: Result<RawEvent, String>)
    ensures
        r matches Ok(e) ==> event_fields_of(payload@) == Some(e@),
        r is Err ==> event_fields_of(payload@) is None,
{
    let v: serde_json::Value = serde_json::from_slice(payload).map_err(|e| e.to_string())?;
    let s = |k: &str| v.get(k).and_then(serde_json::Value::as_str).map(str::to_owned);
    let d = v.get("data");
    let shape_ok = d.map_or(true, |x| x.is_object() || x.is_null());
    match (s("id"), s("type"), s("tenantId"), s("timestamp")) {
        (Some(id), Some(event_type), Some(tenant_id), Some(timestamp)) if shape_ok => {
            let data = d.and_then(|x| if x.is_object() { Some(x.to_string()) } else { None });
            Ok(RawEvent { id, event_type, timestamp, tenant_id, data })
        }
        _ => Err("missing or malformed event field".to_owned()),
    }
}

/// The epoch seconds an RFC 3339 instant denotes, when the text is one. A
/// pure function of the text; this names its value.
pub uninterp spec fn rfc3339_seconds_of(s: Seq<char>) -> Option<int>;

/// Relies on chrono's `DateTime::parse_from_rfc3339` and `timestamp`;
/// `rfc3339_seconds_of` names the instant read from the text.
#[verifier::external_body]
fn parse_rfc3339_seconds(s: &str) -> (r: Option<i64>)
    ensures
        r matches Some(t) ==> rfc3339_seconds_of(s@) == Some(t as int),
        r is None ==> rfc3339_seconds_of(s@) is None,
{
    match chrono::DateTime::parse_from_rfc3339(s) {
        Ok(t) => Some(t.timestamp()),
        Err(_) => None,
    }
}

/// The event the payload decodes to: its raw fields with the timestamp text
/// read as an instant, or nothing when either decoding step fails.
pub open spec fn event_decode_of(payload: Seq<u8>) -> Option<WebhookEventView> {
    match event_fields_of(payload) {
        Some(f) => match rfc3339_seconds_of(f.timestamp) {
            Some(t) => Some(
                WebhookEventView {
                    id: f.id,
                    event_type: f.event_type,
                    timestamp: t,
                    tenant_id: f.tenant_id,
                    data: f.data,
                },
            ),
            None => None,
        },
        None => None,
    }
}

/// Decodes the payload as a webhook event, reading the timestamp text as an
/// instant.
fn decode_event(payload: &[u8]) -> (r: Result<WebhookEvent, String>)
    ensures
        r matches Ok(e) ==> event_decode_of(payload@) == Some(e@),
        r is Err ==> event_decode_of(payload@) is None,
{
    let raw = match decode_event_fields(payload) {
        Ok(raw) => raw,
        Err(reason) => {
            return Err(reason);
        },
    };
    let timestamp = match parse_rfc3339_seconds(raw.timestamp.as_str()) {
        Some(t) => t,
        None => {
            return Err("timestamp is not an RFC 3339 instant".to_owned());
        },
    };
    Ok(
        WebhookEvent {
            id: raw.id,
            event_type: raw.event_type,
            timestamp,
            tenant_id: raw.tenant_id,
            data: raw.data,
        },
    )
}

/// Relies on chrono's `Utc::now().timestamp()`: the current wall-clock time
/// in epoch seconds. Nothing is assumed of the reading; callers state what
/// holds whatever value comes back.
#[verifier::external_body]
fn now_unix_seconds() -> i64 {
    chrono::Utc::now().timestamp()
}

/// The supplied signature, looked up under the canonical header name and
/// then under its all-lowercase spelling.
pub open spec fn signature_header_of(h: Seq<(Seq<char>, Seq<char>)>) -> Option<Seq<char>> {
    match lookup(h, "X-Linktor-Signature"@) {
        Some(v) => Some(v),
        None => lookup(h, "x-linktor-signature"@),
    }
}

/// The supplied timestamp string, looked up like the signature.
pub open spec fn timestamp_header_of(h: Seq<(Seq<char>, Seq<char>)>) -> Option<Seq<char>> {
    match lookup(h, "X-Linktor-Timestamp"@) {
        Some(v) => Some(v),
        None => lookup(h, "x-linktor-timestamp"@),
    }
}

/// The headers carry a non-empty signature that equals the payload's digest
/// under `secret`.
pub open spec fn header_signature_valid(
    payload: Seq<u8>,
    h: Seq<(Seq<char>, Seq<char>)>,
    secret: Seq<char>,
) -> bool {
    match signature_header_of(h) {
        Some(sig) => signature_valid(payload, sig, secret),
        None => false,
    }
}

pub open spec fn timestamp_within(ts: int, now: int, tolerance: int) -> bool {
    (if now >= ts {
        now - ts
    } else {
        ts - now
    }) <= tolerance
}

/// The timestamp check: absent header passes, unparseable fails, parseable
/// passes exactly when within `tolerance` of `now` (boundary inclusive).
pub open spec fn timestamp_acceptable(
    h: Seq<(Seq<char>, Seq<char>)>,
    tolerance: int,
    now: int,
) -> bool {
    match timestamp_header_of(h) {
        None => true,
        Some(ts_str) => match spec_parse_i64(ts_str) {
            Some(ts) => timestamp_within(ts, now, tolerance),
            None => false,
        },
    }
}

/// What `verify` decides when the clock reads `now`.
pub open spec fn verify_spec(
    payload: Seq<u8>,
    h: Seq<(Seq<char>, Seq<char>)>,
    secret: Seq<char>,
    tolerance: int,
    now: int,
) -> bool {
    header_signature_valid(payload, h, secret) && timestamp_acceptable(h, tolerance, now)
}

/// The tolerance the verifier applies: the caller's value, with an absent
/// value and a supplied value of exactly 0 both meaning the default. Zero
/// never means a zero-width window, mirroring the higher-level constructor
/// that never allows one.
pub open spec fn effective_tolerance(tolerance_seconds: Option<i64>) -> int {
    match tolerance_seconds {
        Some(t) => if t == 0 {
            DEFAULT_TOLERANCE_SECONDS as int
        } else {
            t as int
        },
        None => DEFAULT_TOLERANCE_SECONDS as int,
    }
}

fn get_either<'a>(headers: &'a HeaderMap, primary: &str, fallback: &str) -> (r: Option<
    &'a String,
>)
    ensures
        match r {
            Some(v) => (match lookup(headers@, primary@) {
                Some(x) => Some(x),
                None => lookup(headers@, fallback@),
            }) == Some(v@),
            None => lookup(headers@, primary@) is None && lookup(headers@, fallback@) is None,
        },
{
    match headers.get(primary) {
        Some(v) => Some(v),
        None => headers.get(fallback),
    }
}

/// Signature and timestamp validation against an explicit clock reading.
pub fn verify_at(
    payload: &[u8],
    headers: &HeaderMap,
    secret: &str,
    tolerance_seconds: Option<i64>,
    now: i64,
) -> (r: bool)
    ensures
        r == verify_spec(
            payload@,
            headers@,
            secret@,
            effective_tolerance(tolerance_seconds),
            now as int,
        ),
{
    let tolerance: i64 = match tolerance_seconds {
        Some(t) => if t == 0 {
            DEFAULT_TOLERANCE_SECONDS
        } else {
            t
        },
        None => DEFAULT_TOLERANCE_SECONDS,
    };
    let signature: String = match get_either(headers, "X-Linktor-Signature", "x-linktor-signature") {
        Some(s) => s.clone(),
        None => {
            return false;
        },
    };
    if signature.as_str().is_empty() {
        return false;
    }
    match get_either(headers, "X-Linktor-Timestamp", "x-linktor-timestamp") {
        Some(ts_str) => {
            match parse_i64(ts_str.as_str()) {
                Some(ts) => {
                    let diff: i128 = now as i128 - ts as i128;
                    let adiff: i128 = if diff >= 0 {
                        diff
                    } else {
                        -diff
                    };
                    if adiff > tolerance as i128 {
                        return false;
                    }
                },
                None => {
                    return false;
                },
            }
        },
        None => {},
    }
    verify_signature(payload, signature.as_str(), secret)
}

/// Signature and timestamp validation against the current wall clock. The
/// clauses that do not depend on the clock are stated directly; the full
/// decision is `verify_spec` at the clock reading the call observed.
pub fn verify(
    payload: &[u8],
    headers: &HeaderMap,
    secret: &str,
    tolerance_seconds: Option<i64>,
) -> (r: bool)
    ensures
        exists|now: int|
            r == verify_spec(
                payload@,
                headers@,
                secret@,
                effective_tolerance(tolerance_seconds),
                now,
            ),
        !header_signature_valid(payload@, headers@, secret@) ==> !r,
        timestamp_header_of(headers@) matches Some(t) && spec_parse_i64(t) is None ==> !r,
        timestamp_header_of(headers@) is None ==> r == header_signature_valid(
            payload@,
            headers@,
            secret@,
        ),
{
    let now = now_unix_seconds();
    let r = verify_at(payload, headers, secret, tolerance_seconds, now);
    proof {
        assert(r == verify_spec(
            payload@,
            headers@,
            secret@,
            effective_tolerance(tolerance_seconds),
            now as int,
        ));
    }
    r
}

/// A decoded event acceptable to `construct_event`: the payload is valid
/// event JSON and carries a non-empty id and event-type.
pub open spec fn event_acceptable(payload: Seq<u8>) -> bool {
    match event_decode_of(payload) {
        Some(f) => f.id.len() > 0 && f.event_type.len() > 0,
        None => false,
    }
}

/// Verifies the payload against the headers and secret, then decodes it as
/// a `WebhookEvent`, rejecting events with an empty id or event-type. Every
/// failure is a `WebhookVerification` error; this is the only way a caller
/// obtains a trusted event.
pub fn construct_event(
    payload: &[u8],
    headers: &HeaderMap,
    secret: &str,
    tolerance_seconds: Option<i64>,
) -> (r: Result<WebhookEvent, LinktorError>)
    ensures
        r matches Ok(e) ==> event_decode_of(payload@) == Some(e@) && e@.id.len() > 0
            && e@.event_type.len() > 0,
        r matches Err(er) ==> er matches LinktorError::WebhookVerification { .. },
        exists|now: int|
            (r is Ok <==> verify_spec(
                payload@,
                headers@,
                secret@,
                effective_tolerance(tolerance_seconds),
                now,
            ) && event_acceptable(payload@)),
        !event_acceptable(payload@) ==> r is Err,
        !header_signature_valid(payload@, headers@, secret@) ==> r is Err,
        timestamp_header_of(headers@) is None ==> (r is Ok <==> header_signature_valid(
            payload@,
            headers@,
            secret@,
        ) && event_acceptable(payload@)),
{
    let now = now_unix_seconds();
    let ghost tol = effective_tolerance(tolerance_seconds);
    let verified = verify_at(payload, headers, secret, tolerance_seconds, now);
    let r: Result<WebhookEvent, LinktorError> = if !verified {
        Err(LinktorError::WebhookVerification {
            message: "Webhook signature verification failed".to_owned(),
        })
    } else {
        match decode_event(payload) {
            Err(reason) => Err(LinktorError::WebhookVerification {
                message: "Failed to parse webhook event: ".to_owned().concat(reason.as_str()),
            }),
            Ok(event) => {
                if event.id.as_str().is_empty() || event.event_type.as_str().is_empty() {
                    Err(LinktorError::WebhookVerification {
                        message: "Invalid webhook event structure".to_owned(),
                    })
                } else {
                    Ok(event)
                }
            },
        }
    };
    proof {
        assert(r is Ok <==> verify_spec(payload@, headers@, secret@, tol, now as int)
            && event_acceptable(payload@));
    }
    r
}

/// A webhook whose signature header is absent, empty, or wrong is rejected,
/// whatever the timestamp says and whatever the clock reads.
pub proof fn lemma_verify_needs_signature(
    payload: Seq<u8>,
    h: Seq<(Seq<char>, Seq<char>)>,
    secret: Seq<char>,
    tolerance: int,
    now: int,
)
    requires
        !header_signature_valid(payload, h, secret),
    ensures
        !verify_spec(payload, h, secret, tolerance, now),
{
}

/// When no timestamp header is present, the decision does not depend on the
/// clock: timestamp checking is skipped entirely.
pub proof fn lemma_verify_ignores_clock_without_timestamp(
    payload: Seq<u8>,
    h: Seq<(Seq<char>, Seq<char>)>,
    secret: Seq<char>,
    tolerance: int,
    now1: int,
    now2: int,
)
    requires
        timestamp_header_of(h) is None,
    ensures
        verify_spec(payload, h, secret, tolerance, now1) == verify_spec(
            payload,
            h,
            secret,
            tolerance,
            now2,
        ),
{
}

/// An event whose non-empty type names none of the known event types is
/// still acceptable to `construct_event`: the closed name set affects only
/// `get_event_type`, never whether construction succeeds.
pub proof fn lemma_unrecognized_event_type_accepted(payload: Seq<u8>)
    requires
        event_decode_of(payload) matches Some(f) && f.id.len() > 0 && f.event_type.len() > 0
            && spec_event_type_of(f.event_type) is None,
    ensures
        event_acceptable(payload),
{
}

/// A parseable timestamp farther from the clock than the tolerance is
/// rejected, even when the signature is valid; at exactly the tolerance it
/// is accepted, so the window boundary is inclusive.
pub proof fn lemma_verify_rejects_stale_timestamp(
    payload: Seq<u8>,
    h: Seq<(Seq<char>, Seq<char>)>,
    secret: Seq<char>,
    tolerance: int,
    now: int,
    ts: int,
)
    requires
        timestamp_header_of(h) matches Some(t) && spec_parse_i64(t) == Some(ts),
    ensures
        (if now >= ts {
            now - ts
        } else {
            ts - now
        }) > tolerance ==> !verify_spec(payload, h, secret, tolerance, now),
        (if now >= ts {
            now - ts
        } else {
            ts - now
        }) <= tolerance ==> verify_spec(payload, h, secret, tolerance, now)
            == header_signature_valid(payload, h, secret),
{
}

} // verus!
