//! The credential store and the choice of authentication for an outgoing
//! request. The store holds the current bearer token behind a verified
//! reader-writer lock: readers see a stored `Option<String>` in full and
//! writers replace it wholesale, so a reader never observes a torn value.

use vstd::prelude::*;
use vstd::rwlock::RwLock;
use vstd::string::StringExecFns;

verus! {

/// The Authorization header value carrying a bearer token.
pub fn bearer_header_value(token: &str) -> (r: String)
    ensures
        r@ == "Bearer "@ + token@,
{
    "Bearer ".to_owned().concat(token)
}

/// The mutable bearer token shared by every concurrent call of one client.
/// Reads are non-exclusive; a login, refresh or logout replaces the whole
/// value, last writer wins.
pub struct CredentialStore {
    token: RwLock<Option<String>, spec_fn(Option<String>) -> bool>,
}

impl CredentialStore {
    /// Any whole `Option<String>` may be stored.
    #[verifier::type_invariant]
    spec fn wf(self) -> bool {
        forall|v: Option<String>| self.token.inv(v)
    }

    pub fn new(initial: Option<String>) -> (s: Self) {
        let token = RwLock::new(initial, Ghost(|v: Option<String>| true));
        proof {
            assert(forall|v: Option<String>| token.inv(v));
        }
        CredentialStore { token }
    }

    /// The bearer token currently stored, cloned in full under a read lock.
    pub fn read(&self) -> (t: Option<String>) {
        let handle = self.token.acquire_read();
        let t = match handle.borrow() {
            Some(s) => Some(s.clone()),
            None => None,
        };
        handle.release_read();
        t
    }

    /// Replaces the stored token wholesale under a write lock.
    pub fn replace(&self, token: Option<String>) {
        proof {
            use_type_invariant(self);
        }
        let (_previous, write_handle) = self.token.acquire_write();
        write_handle.release_write(token);
    }
}

/// The authentication attached to one outgoing request. At most one of the
/// two header forms is ever chosen, by construction.
#[derive(Clone, Debug, PartialEq, Eq)]
pub enum AuthChoice {
    /// Send the static API key in its dedicated header.
    ApiKey(String),
    /// Send the bearer token in an Authorization header.
    Bearer(String),
    /// Send the request unauthenticated.
    Anonymous,
}

/// Picks the authentication for a request: a configured API key takes
/// precedence; otherwise the current bearer token is used when present;
/// otherwise the request goes out unauthenticated. Never both headers.
pub fn select_auth(api_key: &Option<String>, bearer: &Option<String>) -> (c: AuthChoice)
    ensures
        api_key matches Some(k) ==> c matches AuthChoice::ApiKey(s) && s@ == k@,
        api_key is None ==> (bearer matches Some(t) ==> c matches AuthChoice::Bearer(s) && s@
            == t@),
        api_key is None && bearer is None ==> c == AuthChoice::Anonymous,
{
    match api_key {
        Some(k) => AuthChoice::ApiKey(k.clone()),
        None => match bearer {
            Some(t) => AuthChoice::Bearer(t.clone()),
            None => AuthChoice::Anonymous,
        },
    }
}

impl CredentialStore {
    /// The authentication for a request issued now: the configured API key,
    /// else whatever token the store holds at this moment.
    pub fn auth_for_request(&self, api_key: &Option<String>) -> (c: AuthChoice)
        ensures
            api_key matches Some(k) ==> c matches AuthChoice::ApiKey(s) && s@ == k@,
            api_key is None ==> !(c matches AuthChoice::ApiKey(_)),
    {
        let bearer = self.read();
        select_auth(api_key, &bearer)
    }
}

} // verus!
