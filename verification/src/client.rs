//! Client configuration: the builder callers assemble a client from, and
//! the validated configuration the transport layer consumes. Defaults are
//! applied and the base URL is normalized here; constructing the HTTP
//! transport itself is the embedding application's job.

use vstd::prelude::*;
use vstd::string::StringExecFns;
use crate::text::{spec_trim_trailing_slashes, trim_trailing_slashes};

verus! {

/// The URL one call is sent to: the configured base followed by the path.
pub fn request_url(base_url: &str, path: &str) -> (r: String)
    ensures
        r@ == base_url@ + path@,
{
    base_url.to_owned().concat(path)
}

/// The configuration surface of one client: base URL, optional static API
/// key, optional initial bearer token, request timeout and the retry
/// ceiling.
pub struct LinktorClientBuilder {
    pub base_url: Option<String>,
    pub api_key: Option<String>,
    pub access_token: Option<String>,
    pub timeout_secs: Option<u64>,
    pub max_retries: Option<u32>,
}

/// A validated client configuration: every default applied, base URL free
/// of trailing slashes.
pub struct ClientConfig {
    pub base_url: String,
    pub api_key: Option<String>,
    pub access_token: Option<String>,
    pub timeout_secs: u64,
    pub max_retries: u32,
}

impl LinktorClientBuilder {
    pub fn new() -> (b: Self)
        ensures
            b.base_url is None,
            b.api_key is None,
            b.access_token is None,
            b.timeout_secs is None,
            b.max_retries is None,
    {
        LinktorClientBuilder {
            base_url: None,
            api_key: None,
            access_token: None,
            timeout_secs: None,
            max_retries: None,
        }
    }

    pub fn base_url(self, url: &str) -> (b: Self)
        ensures
            b.base_url matches Some(u) && u@ == url@,
            b.api_key == self.api_key,
            b.access_token == self.access_token,
            b.timeout_secs == self.timeout_secs,
            b.max_retries == self.max_retries,
    {
        LinktorClientBuilder { base_url: Some(url.to_owned()), ..self }
    }

    pub fn api_key(self, key: &str) -> (b: Self)
        ensures
            b.api_key matches Some(k) && k@ == key@,
            b.base_url == self.base_url,
            b.access_token == self.access_token,
            b.timeout_secs == self.timeout_secs,
            b.max_retries == self.max_retries,
    {
        LinktorClientBuilder { api_key: Some(key.to_owned()), ..self }
    }

    pub fn access_token(self, token: &str) -> (b: Self)
        ensures
            b.access_token matches Some(t) && t@ == token@,
            b.base_url == self.base_url,
            b.api_key == self.api_key,
            b.timeout_secs == self.timeout_secs,
            b.max_retries == self.max_retries,
    {
        LinktorClientBuilder { access_token: Some(token.to_owned()), ..self }
    }

    pub fn timeout(self, secs: u64) -> (b: Self)
        ensures
            b.timeout_secs == Some(secs),
            b.base_url == self.base_url,
            b.api_key == self.api_key,
            b.access_token == self.access_token,
            b.max_retries == self.max_retries,
    {
        LinktorClientBuilder { timeout_secs: Some(secs), ..self }
    }

    pub fn max_retries(self, retries: u32) -> (b: Self)
        ensures
            b.max_retries == Some(retries),
            b.base_url == self.base_url,
            b.api_key == self.api_key,
            b.access_token == self.access_token,
            b.timeout_secs == self.timeout_secs,
    {
        LinktorClientBuilder { max_retries: Some(retries), ..self }
    }

    /// Validates the configuration: the base URL defaults to the platform
    /// endpoint and loses any trailing slashes, the timeout defaults to 30
    /// seconds, and the retry ceiling defaults to 3 attempts.
    pub fn build(self) -> (cfg: ClientConfig)
        ensures
            cfg.base_url@ == spec_trim_trailing_slashes(
                match self.base_url {
                    Some(u) => u@,
                    None => "https://api.linktor.io"@,
                },
            ),
            cfg.api_key == self.api_key,
            cfg.access_token == self.access_token,
            cfg.timeout_secs == (match self.timeout_secs {
                Some(t) => t,
                None => 30u64,
            }),
            cfg.max_retries == (match self.max_retries {
                Some(m) => m,
                None => 3u32,
            }),
    {
        let raw_base: String = match self.base_url {
            Some(u) => u,
            None => "https://api.linktor.io".to_owned(),
        };
        let base_url = trim_trailing_slashes(raw_base.as_str());
        let timeout_secs: u64 = match self.timeout_secs {
            Some(t) => t,
            None => 30,
        };
        let max_retries: u32 = match self.max_retries {
            Some(m) => m,
            None => 3,
        };
        ClientConfig {
            base_url,
            api_key: self.api_key,
            access_token: self.access_token,
            timeout_secs,
            max_retries,
        }
    }
}

} // verus!
