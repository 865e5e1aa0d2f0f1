//! Typed errors for every failure the SDK core can report, and the mapping
//! from HTTP status codes to error variants used by the request orchestrator.

use vstd::prelude::*;

verus! {

/// Every failure surfaced by the SDK. Status-derived variants carry the
/// message extracted from the response body and the correlation id echoed by
/// the server, when one was present.
#[derive(Clone, Debug)]
pub enum LinktorError {
    Authentication { message: String, request_id: Option<String> },
    Authorization { message: String, request_id: Option<String> },
    NotFound { message: String, request_id: Option<String> },
    Validation { message: String, request_id: Option<String> },
    RateLimit { retry_after: u64, message: String, request_id: Option<String> },
    Server { message: String, request_id: Option<String> },
    Network { message: String },
    Serialization { message: String },
    WebhookVerification { message: String },
    WebSocket { message: String },
    Unknown { message: String, status_code: Option<u16> },
}

impl LinktorError {
    /// Translates a non-success HTTP status into the error taxonomy:
    /// 400 Validation, 401 Authentication, 403 Authorization, 404 NotFound,
    /// 429 RateLimit, 500-599 Server, anything else Unknown with the raw
    /// status attached.
    pub fn from_status(status: u16, message: String, request_id: Option<String>) -> (e: Self)
        ensures
            status == 400 ==> e == (LinktorError::Validation { message, request_id }),
            status == 401 ==> e == (LinktorError::Authentication { message, request_id }),
            status == 403 ==> e == (LinktorError::Authorization { message, request_id }),
            status == 404 ==> e == (LinktorError::NotFound { message, request_id }),
            status == 429 ==> e == (LinktorError::RateLimit {
                retry_after: 60u64,
                message,
                request_id,
            }),
            500 <= status <= 599 ==> e == (LinktorError::Server { message, request_id }),
            !(status == 400 || status == 401 || status == 403 || status == 404 || status == 429
                || 500 <= status <= 599) ==> e == (LinktorError::Unknown {
                message,
                status_code: Some(status),
            }),
    {
        if status == 400 {
            LinktorError::Validation { message, request_id }
        } else if status == 401 {
            LinktorError::Authentication { message, request_id }
        } else if status == 403 {
            LinktorError::Authorization { message, request_id }
        } else if status == 404 {
            LinktorError::NotFound { message, request_id }
        } else if status == 429 {
            LinktorError::RateLimit { retry_after: 60, message, request_id }
        } else if 500 <= status && status <= 599 {
            LinktorError::Server { message, request_id }
        } else {
            LinktorError::Unknown { message, status_code: Some(status) }
        }
    }

    /// The correlation id carried by this error, for the variants that are
    /// derived from an HTTP status.
    pub open spec fn spec_request_id(&self) -> Option<Seq<char>> {
        match *self {
            LinktorError::Authentication { request_id: Some(ref r), .. } => Some(r@),
            LinktorError::Authorization { request_id: Some(ref r), .. } => Some(r@),
            LinktorError::NotFound { request_id: Some(ref r), .. } => Some(r@),
            LinktorError::Validation { request_id: Some(ref r), .. } => Some(r@),
            LinktorError::RateLimit { request_id: Some(ref r), .. } => Some(r@),
            LinktorError::Server { request_id: Some(ref r), .. } => Some(r@),
            _ => None,
        }
    }

    pub fn request_id(&self) -> (r: Option<&str>)
        ensures
            r matches Some(s) ==> self.spec_request_id() == Some(s@),
            r is None ==> self.spec_request_id() is None,
    {
        match self {
            LinktorError::Authentication { request_id: Some(r), .. } => Some(r.as_str()),
            LinktorError::Authorization { request_id: Some(r), .. } => Some(r.as_str()),
            LinktorError::NotFound { request_id: Some(r), .. } => Some(r.as_str()),
            LinktorError::Validation { request_id: Some(r), .. } => Some(r.as_str()),
            LinktorError::RateLimit { request_id: Some(r), .. } => Some(r.as_str()),
            LinktorError::Server { request_id: Some(r), .. } => Some(r.as_str()),
            _ => None,
        }
    }
}

pub type Result<T> = core::result::Result<T, LinktorError>;

} // verus!
