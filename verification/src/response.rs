//! Response types returned to the transport layer.

use vstd::prelude::*;
use vstd::string::StringExecFns;

use crate::internal::SessionData;

verus! {

/// Response for token generation.
#[derive(Debug, Clone)]
pub struct PotResponse {
    /// The minted token.
    pub po_token: String,
    /// The content binding the token is bound to.
    pub content_binding: String,
    /// Expiration, as a unix timestamp in seconds.
    pub expires_at: i64,
}

impl PotResponse {
    /// Creates a response.
    pub fn new(po_token: String, content_binding: String, expires_at: i64) -> (r: PotResponse)
        ensures
            r.po_token == po_token,
            r.content_binding == content_binding,
            r.expires_at == expires_at,
    {
        PotResponse { po_token, content_binding, expires_at }
    }

    /// Builds a response from a cached session row, copying its fields.
    pub fn from_session_data(data: &SessionData) -> (r: PotResponse)
        ensures
            r.po_token == data.po_token,
            r.content_binding == data.content_binding,
            r.expires_at == data.expires_at,
    {
        PotResponse {
            po_token: data.po_token.clone(),
            content_binding: data.content_binding.clone(),
            expires_at: data.expires_at,
        }
    }

    /// Whether the token is expired at the given time: only strictly past
    /// the expiry instant; at the instant itself it still counts as live.
    pub open spec fn spec_is_expired(&self, now_unix: int) -> bool {
        now_unix > self.expires_at
    }

    /// Whether the token is expired at the given time.
    pub fn is_expired(&self, now_unix: i64) -> (r: bool)
        ensures
            r == self.spec_is_expired(now_unix as int),
    {
        now_unix > self.expires_at
    }

    /// Signed seconds until expiry at the given time; negative once the row
    /// is past its expiry.
    pub fn time_until_expiry(&self, now_unix: i64) -> (r: i64)
        requires
            now_unix >= 0,
            i64::MIN + now_unix <= self.expires_at,
        ensures
            r == self.expires_at - now_unix,
    {
        self.expires_at - now_unix
    }
}

/// Health check response.
#[derive(Debug, Clone)]
pub struct PingResponse {
    /// Server uptime in seconds.
    pub server_uptime: u64,
    /// Server version string.
    pub version: String,
}

impl PingResponse {
    /// Creates a health check response.
    pub fn new(server_uptime: u64, version: &str) -> (r: PingResponse)
        ensures
            r.server_uptime == server_uptime,
            r.version@ == version@,
    {
        PingResponse { server_uptime, version: String::from_str(version) }
    }
}

/// Error response for the transport layer.
#[derive(Debug, Clone)]
pub struct ErrorResponse {
    /// Error message.
    pub error: String,
}

impl ErrorResponse {
    /// Creates an error response.
    pub fn new(error: &str) -> (r: ErrorResponse)
        ensures
            r.error@ == error@,
    {
        ErrorResponse { error: String::from_str(error) }
    }
}

/// Diagnostic listing of minter cache keys.
#[derive(Debug, Clone)]
pub struct MinterCacheResponse {
    /// The cache keys.
    pub cache_keys: Vec<String>,
}

impl MinterCacheResponse {
    /// Creates a listing from the given keys.
    pub fn new(cache_keys: Vec<String>) -> (r: MinterCacheResponse)
        ensures
            r.cache_keys == cache_keys,
    {
        MinterCacheResponse { cache_keys }
    }

    /// Creates an empty listing.
    pub fn empty() -> (r: MinterCacheResponse)
        ensures
            r.cache_keys@.len() == 0,
    {
        MinterCacheResponse { cache_keys: Vec::new() }
    }

    /// Appends a key.
    pub fn add_key(&mut self, key: &str)
        ensures
            final(self).cache_keys@.len() == old(self).cache_keys@.len() + 1,
            forall|i: int|
                0 <= i < old(self).cache_keys@.len() ==> final(self).cache_keys@[i] == old(
                    self,
                ).cache_keys@[i],
            final(self).cache_keys@.last()@ == key@,
    {
        self.cache_keys.push(String::from_str(key));
    }

    /// The number of keys.
    pub fn len(&self) -> (r: usize)
        ensures
            r == self.cache_keys@.len(),
    {
        self.cache_keys.len()
    }

    /// Whether the listing holds no keys.
    pub fn is_empty(&self) -> (r: bool)
        ensures
            r == (self.cache_keys@.len() == 0),
    {
        self.cache_keys.len() == 0
    }
}

} // verus!
