//! The retry, backoff, envelope-unwrapping and error-translation decisions
//! of the request orchestrator, as pure functions of the per-call retry
//! state and the observed response. Transport code performs the HTTP call
//! and the sleep, and feeds each response's status and headers back in.

use vstd::prelude::*;
use vstd::arithmetic::power2::pow2;
use vstd::bits::{lemma_u64_pow2_no_overflow, lemma_u64_shl_is_mul};
use crate::errors::LinktorError;
use crate::parse::{parse_u64, spec_parse_u64};

verus! {

/// Attempts made so far for one logical call, against the configured
/// ceiling. Lives only for the duration of that call.
#[derive(Clone, Copy, Debug, PartialEq, Eq, Structural)]
pub struct RetryState {
    /// Number of the attempt whose response is being examined; the first
    /// attempt is 1.
    pub attempt: u32,
    /// Configured maximum number of attempts.
    pub max_retries: u32,
}

impl RetryState {
    pub fn new(max_retries: u32) -> (s: Self)
        ensures
            s.attempt == 1,
            s.max_retries == max_retries,
    {
        RetryState { attempt: 1, max_retries }
    }
}

/// What to do with one attempt's response.
#[derive(Clone, Debug, PartialEq, Eq)]
pub enum ResponseAction {
    /// 2xx: decode the body as the caller's result.
    Decode,
    /// Sleep this many seconds, then send the next attempt.
    Retry { delay_seconds: u64 },
    /// Translate the response into a typed error; no attempts remain for
    /// this status.
    Fail,
}

/// The rate-limit delay: the parsed `Retry-After` header, or 60 seconds
/// when the header is absent or unparseable.
pub open spec fn spec_rate_limit_delay(header: Option<Seq<char>>) -> int {
    match header {
        Some(s) => match spec_parse_u64(s) {
            Some(v) => v,
            None => 60,
        },
        None => 60,
    }
}

pub fn rate_limit_delay(header: Option<&String>) -> (r: u64)
    ensures
        match header {
            Some(s) => r == spec_rate_limit_delay(Some(s@)),
            None => r == 60,
        },
{
    match header {
        Some(s) => match parse_u64(s.as_str()) {
            Some(v) => v,
            None => 60,
        },
        None => 60,
    }
}

/// The exponential server-error backoff: 2^attempt seconds, so 2 s after
/// the first attempt, 4 s after the second, doubling from there.
pub fn backoff_delay(attempt: u32) -> (r: u64)
    requires
        attempt < 64,
    ensures
        r == pow2(attempt as nat),
{
    proof {
        lemma_u64_pow2_no_overflow(attempt as nat);
        lemma_u64_shl_is_mul(1u64, attempt as u64);
    }
    1u64 << (attempt as u64)
}

/// Decides what one attempt's response means for the call, and advances the
/// attempt counter when a retry is due. Exactly the rate-limited (429) and
/// server-error (5xx) statuses are retried, and only while attempts below
/// the ceiling have been made; 2xx decodes; everything else fails.
pub fn next_action(state: &mut RetryState, status: u16, retry_after: Option<&String>) -> (r:
    ResponseAction)
    requires
        old(state).attempt < 64,
    ensures
        final(state).max_retries == old(state).max_retries,
        200 <= status <= 299 ==> r == ResponseAction::Decode && *final(state) == *old(state),
        status == 429 && old(state).attempt < old(state).max_retries ==> r
            == (ResponseAction::Retry {
            delay_seconds: spec_rate_limit_delay(
                match retry_after {
                    Some(s) => Some(s@),
                    None => None,
                },
            ) as u64,
        }) && final(state).attempt == old(state).attempt + 1,
        500 <= status <= 599 && old(state).attempt < old(state).max_retries ==> r
            == (ResponseAction::Retry { delay_seconds: pow2(old(state).attempt as nat) as u64 })
            && final(state).attempt == old(state).attempt + 1,
        !(200 <= status <= 299) && !((status == 429 || 500 <= status <= 599) && old(state).attempt
            < old(state).max_retries) ==> r == ResponseAction::Fail && *final(state) == *old(state),
{
    if 200 <= status && status <= 299 {
        return ResponseAction::Decode;
    }
    if status == 429 && state.attempt < state.max_retries {
        let delay = rate_limit_delay(retry_after);
        state.attempt = state.attempt + 1;
        return ResponseAction::Retry { delay_seconds: delay };
    }
    if 500 <= status && status <= 599 && state.attempt < state.max_retries {
        let delay = backoff_delay(state.attempt);
        state.attempt = state.attempt + 1;
        return ResponseAction::Retry { delay_seconds: delay };
    }
    ResponseAction::Fail
}

/// How a successful (2xx) body is decoded.
#[derive(Clone, Debug, PartialEq, Eq)]
pub enum SuccessBody {
    /// The body was empty: the caller's result is the null value.
    Null,
    /// The body was a response envelope marking success with a data
    /// payload: decode the carried JSON text, falling back to the raw body
    /// if that text does not fit the caller's type.
    Data(String),
    /// Anything else: decode the raw body directly.
    Raw,
}

/// The JSON text of the `data` member when `body` is a response envelope —
/// a JSON object whose `success` member is `true` and whose `data` member
/// is present and non-null — and nothing otherwise. A pure function of the
/// body text; this names its value.
pub uninterp spec fn envelope_data_of(body: Seq<char>) -> Option<Seq<char>>;

/// Relies on serde_json::from_str to read the envelope form
/// `{success, data?, error?}`; `envelope_data_of` names the extracted data
/// text.
#[verifier::external_body]
fn extract_envelope_data(body: &str) -> (r: Option<String>)
    ensures
        r matches Some(d) ==> envelope_data_of(body@) == Some(d@),
        r is None ==> envelope_data_of(body@) is None,
{
    let v: serde_json::Value = serde_json::from_str(body).ok()?;
    if v.get("success")?.as_bool()? {
        match v.get("data") {
            Some(d) if !d.is_null() => Some(d.to_string()),
            _ => None,
        }
    } else {
        None
    }
}

/// Chooses the decoding path for a 2xx body: empty bodies decode to null,
/// an envelope marking success with data hands out that data, and
/// everything else is decoded as-is. Callers need not know which shape the
/// server used.
pub fn classify_success_body(body: &str) -> (r: SuccessBody)
    ensures
        body@.len() == 0 ==> r == SuccessBody::Null,
        body@.len() > 0 ==> match envelope_data_of(body@) {
            Some(d) => r matches SuccessBody::Data(t) && t@ == d,
            None => r == SuccessBody::Raw,
        },
{
    if body.is_empty() {
        return SuccessBody::Null;
    }
    match extract_envelope_data(body) {
        Some(d) => SuccessBody::Data(d),
        None => SuccessBody::Raw,
    }
}

/// The message a structured API error body `{code, message, details?}`
/// carries, and nothing when the body is not one. A pure function of the
/// body text; this names its value.
pub uninterp spec fn api_error_message_of(body: Seq<char>) -> Option<Seq<char>>;

/// Relies on serde_json::from_str to read the structured error body;
/// `api_error_message_of` names the extracted message.
#[verifier::external_body]
fn parse_api_error_message(body: &str) -> (r: Option<String>)
    ensures
        r matches Some(m) ==> api_error_message_of(body@) == Some(m@),
        r is None ==> api_error_message_of(body@) is None,
{
    let v: serde_json::Value = serde_json::from_str(body).ok()?;
    v.get("code")?.as_str()?;
    Some(v.get("message")?.as_str()?.to_owned())
}

/// The human-readable message for an error response: the structured body's
/// message when it parses, the raw body text otherwise.
pub open spec fn error_message_of(body: Seq<char>) -> Seq<char> {
    match api_error_message_of(body) {
        Some(m) => m,
        None => body,
    }
}

/// Whether `e` is the error the taxonomy assigns to `status`, carrying
/// message `msg` and correlation id `rid`.
pub open spec fn is_status_error(
    e: LinktorError,
    status: u16,
    msg: Seq<char>,
    rid: Option<Seq<char>>,
) -> bool {
    match e {
        LinktorError::Validation { message, request_id } => status == 400 && message@ == msg
            && opt_view(request_id) == rid,
        LinktorError::Authentication { message, request_id } => status == 401 && message@ == msg
            && opt_view(request_id) == rid,
        LinktorError::Authorization { message, request_id } => status == 403 && message@ == msg
            && opt_view(request_id) == rid,
        LinktorError::NotFound { message, request_id } => status == 404 && message@ == msg
            && opt_view(request_id) == rid,
        LinktorError::RateLimit { retry_after, message, request_id } => status == 429
            && retry_after == 60 && message@ == msg && opt_view(request_id) == rid,
        LinktorError::Server { message, request_id } => 500 <= status <= 599 && message@ == msg
            && opt_view(request_id) == rid,
        LinktorError::Unknown { message, status_code } => !(status == 400 || status == 401
            || status == 403 || status == 404 || status == 429 || 500 <= status <= 599)
            && message@ == msg && status_code == Some(status),
        _ => false,
    }
}

pub open spec fn opt_view(o: Option<String>) -> Option<Seq<char>> {
    match o {
        Some(s) => Some(s@),
        None => None,
    }
}

/// Translates an exhausted or non-retryable response into the typed error
/// for its status, extracting the message from the structured error body
/// when the body is one and falling back to the raw text.
pub fn translate_error(status: u16, body: &str, request_id: Option<String>) -> (e: LinktorError)
    ensures
        is_status_error(e, status, error_message_of(body@), opt_view(request_id)),
{
    let message: String = match parse_api_error_message(body) {
        Some(m) => m,
        None => body.to_owned(),
    };
    LinktorError::from_status(status, message, request_id)
}

/// Server-error backoff strictly doubles from one retry to the next.
pub proof fn lemma_backoff_doubles(attempt: nat)
    ensures
        pow2(attempt + 1) == 2 * pow2(attempt),
{
    vstd::arithmetic::power2::lemma_pow2_unfold(attempt + 1);
}

/// Once the attempt counter has reached the ceiling, no retryable status is
/// retried any further: the call fails with the status's own error class,
/// exactly as it would without retries.
pub proof fn lemma_retries_exhausted(s: RetryState, status: u16)
    requires
        s.attempt >= s.max_retries,
        !(200 <= status <= 299),
    ensures
        !((status == 429 || 500 <= status <= 599) && s.attempt < s.max_retries),
{
}

} // verus!
