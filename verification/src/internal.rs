//! Internal data types: cached session rows, challenge material and client hints.
//!
//! Times are unix timestamps in seconds; the embedding application supplies
//! the current time, so expiry checks are deterministic functions of state.

use vstd::prelude::*;

verus! {

/// A cached, finished token bound to one content binding.
#[derive(Debug, Clone)]
pub struct SessionData {
    /// The minted token.
    pub po_token: String,
    /// The content binding the token is bound to.
    pub content_binding: String,
    /// Expiration, as a unix timestamp in seconds.
    pub expires_at: i64,
}

impl SessionData {
    /// Creates a session row.
    pub fn new(po_token: String, content_binding: String, expires_at: i64) -> (r: SessionData)
        ensures
            r.po_token == po_token,
            r.content_binding == content_binding,
            r.expires_at == expires_at,
    {
        SessionData { po_token, content_binding, expires_at }
    }

    /// Whether the row is expired at the given time: only strictly past the
    /// expiry instant; at the instant itself the row still counts as live.
    pub open spec fn spec_is_expired(&self, now_unix: int) -> bool {
        now_unix > self.expires_at
    }

    /// Whether the row is expired at the given time.
    pub fn is_expired(&self, now_unix: i64) -> (r: bool)
        ensures
            r == self.spec_is_expired(now_unix as int),
    {
        now_unix > self.expires_at
    }

    /// Signed seconds until expiry at the given time; negative once the row
    /// is past its expiry.
    pub fn time_until_expiry(&self, now_unix: i64) -> (r: i64)
        requires
            now_unix >= 0,
            i64::MIN + now_unix <= self.expires_at,
        ensures
            r == self.expires_at - now_unix,
    {
        self.expires_at - now_unix
    }

    /// Copy of the row; field-by-field, so the result is known to be equal.
    pub fn duplicate(&self) -> (r: SessionData)
        ensures
            r == *self,
    {
        SessionData {
            po_token: self.po_token.clone(),
            content_binding: self.content_binding.clone(),
            expires_at: self.expires_at,
        }
    }
}

/// Challenge data normalized from either challenge endpoint.
#[derive(Debug, Clone)]
pub struct ChallengeData {
    /// Where the interpreter script lives.
    pub interpreter_url: TrustedResourceUrl,
    /// Hash of the interpreter script.
    pub interpreter_hash: String,
    /// Challenge program, base64-encoded.
    pub program: String,
    /// Global scope name for the sandbox instance.
    pub global_name: String,
    /// Client experiments state blob, if the endpoint sent one.
    pub client_experiments_state_blob: Option<String>,
}

/// Wrapper carrying a vetted resource URL.
#[derive(Debug, Clone)]
pub struct TrustedResourceUrl {
    /// The wrapped URL value, under the vendor's private field naming convention.
    pub private_do_not_access_or_else_trusted_resource_url_wrapped_value: String,
}

impl TrustedResourceUrl {
    /// Wraps a URL.
    pub fn new(url: &str) -> (r: TrustedResourceUrl)
        ensures
            r.private_do_not_access_or_else_trusted_resource_url_wrapped_value@ == url@,
    {
        TrustedResourceUrl {
            private_do_not_access_or_else_trusted_resource_url_wrapped_value: String::from_str(url),
        }
    }

    /// The wrapped URL value.
    pub fn url(&self) -> (r: &str)
        ensures
            r@ == self.private_do_not_access_or_else_trusted_resource_url_wrapped_value@,
    {
        self.private_do_not_access_or_else_trusted_resource_url_wrapped_value.as_str()
    }
}

/// A challenge as handed to the sandbox, with its interpreter script.
#[derive(Debug, Clone)]
pub struct DescrambledChallenge {
    /// Message id, if the endpoint sent one.
    pub message_id: Option<String>,
    /// The interpreter script.
    pub interpreter_javascript: TrustedScript,
    /// Hash of the interpreter script.
    pub interpreter_hash: String,
    /// Challenge program, base64-encoded.
    pub program: String,
    /// Global scope name for the sandbox instance.
    pub global_name: String,
    /// Client experiments state blob, if the endpoint sent one.
    pub client_experiments_state_blob: Option<String>,
}

impl DescrambledChallenge {
    /// The program bytes, decoded from the base64 blob the endpoint sent.
    /// A blob that is not a canonical encoding is a protocol error.
    pub fn program_bytes(&self) -> (r: Result<Vec<u8>, crate::error::Error>)
        ensures
            r is Ok <==> crate::base64::b64_valid(self.program@),
            r matches Ok(b) ==> b@ == crate::base64::b64_decode_seq(self.program@),
    {
        crate::base64::base64_decode(self.program.as_str())
    }
}

/// Wrapper carrying script text bound to its source URL.
#[derive(Debug, Clone)]
pub struct TrustedScript {
    /// The wrapped script content, under the vendor's private field naming convention.
    pub private_do_not_access_or_else_safe_script_wrapped_value: String,
    /// The URL the script came from, under the vendor's private field naming convention.
    pub private_do_not_access_or_else_trusted_resource_url_wrapped_value: String,
}

impl TrustedScript {
    /// Wraps script text with its source URL.
    pub fn new(script: &str, url: &str) -> (r: TrustedScript)
        ensures
            r.private_do_not_access_or_else_safe_script_wrapped_value@ == script@,
            r.private_do_not_access_or_else_trusted_resource_url_wrapped_value@ == url@,
    {
        TrustedScript {
            private_do_not_access_or_else_safe_script_wrapped_value: String::from_str(script),
            private_do_not_access_or_else_trusted_resource_url_wrapped_value: String::from_str(url),
        }
    }

    /// The script content.
    pub fn script(&self) -> (r: &str)
        ensures
            r@ == self.private_do_not_access_or_else_safe_script_wrapped_value@,
    {
        self.private_do_not_access_or_else_safe_script_wrapped_value.as_str()
    }

    /// The URL the script came from.
    pub fn url(&self) -> (r: &str)
        ensures
            r@ == self.private_do_not_access_or_else_trusted_resource_url_wrapped_value@,
    {
        self.private_do_not_access_or_else_trusted_resource_url_wrapped_value.as_str()
    }
}

/// A cached minter with its owning credential, keyed by network context.
#[derive(Debug, Clone)]
pub struct TokenMinterEntry {
    /// Expiry, as a unix timestamp in seconds. Forced to zero by integrity
    /// token invalidation, without removing the row.
    pub expiry: i64,
    /// The integrity credential this minter was derived from.
    pub integrity_token: String,
    /// Estimated credential lifetime in seconds.
    pub estimated_ttl_secs: u32,
    /// Threshold in seconds below which a refresh is advised.
    pub mint_refresh_threshold: u32,
    /// Web-safe fallback token, if the exchange sent one.
    pub websafe_fallback_token: Option<String>,
    /// The bound minter.
    pub minter: crate::webpo_minter::WebPoMinter,
}

impl TokenMinterEntry {
    /// Creates a minter cache row.
    pub fn new(
        expiry: i64,
        integrity_token: String,
        estimated_ttl_secs: u32,
        mint_refresh_threshold: u32,
        websafe_fallback_token: Option<String>,
        minter: crate::webpo_minter::WebPoMinter,
    ) -> (r: TokenMinterEntry)
        ensures
            r == (TokenMinterEntry {
                expiry,
                integrity_token,
                estimated_ttl_secs,
                mint_refresh_threshold,
                websafe_fallback_token,
                minter,
            }),
    {
        TokenMinterEntry {
            expiry,
            integrity_token,
            estimated_ttl_secs,
            mint_refresh_threshold,
            websafe_fallback_token,
            minter,
        }
    }

    /// Whether the minter is expired at the given time: only strictly past
    /// the expiry instant; at the instant itself it still counts as live.
    pub open spec fn spec_is_expired(&self, now_unix: int) -> bool {
        now_unix > self.expiry
    }

    /// Whether the minter is expired at the given time.
    pub fn is_expired(&self, now_unix: i64) -> (r: bool)
        ensures
            r == self.spec_is_expired(now_unix as int),
    {
        now_unix > self.expiry
    }

    /// Signed seconds until expiry at the given time; negative once the
    /// minter is past its expiry.
    pub fn time_until_expiry(&self, now_unix: i64) -> (r: i64)
        requires
            now_unix >= 0,
            i64::MIN + now_unix <= self.expiry,
        ensures
            r == self.expiry - now_unix,
    {
        self.expiry - now_unix
    }

    /// Copy of the row; field-by-field, so the result is known to be equal.
    pub fn duplicate(&self) -> (r: TokenMinterEntry)
        ensures
            r == *self,
    {
        TokenMinterEntry {
            expiry: self.expiry,
            integrity_token: self.integrity_token.clone(),
            estimated_ttl_secs: self.estimated_ttl_secs,
            mint_refresh_threshold: self.mint_refresh_threshold,
            websafe_fallback_token: crate::botguard::clone_opt_string(
                &self.websafe_fallback_token,
            ),
            minter: self.minter.duplicate(),
        }
    }
}

/// Structured client hint for the authenticated endpoint.
#[derive(Debug, Clone)]
pub struct InnertubeContext {
    /// Client information.
    pub client: ClientInfo,
}

impl InnertubeContext {
    /// Creates a context around the given client information.
    pub fn new(client: ClientInfo) -> (r: InnertubeContext)
        ensures
            r.client == client,
    {
        InnertubeContext { client }
    }
}

impl Default for InnertubeContext {
    /// A context with empty client information.
    fn default() -> (r: InnertubeContext)
        ensures
            r.client.remote_host is None,
            r.client.visitor_data is None,
    {
        InnertubeContext::new(ClientInfo::new())
    }
}

/// Client information carried in a request context.
#[derive(Debug, Clone)]
pub struct ClientInfo {
    /// Remote host hint, used in the minter cache key.
    pub remote_host: Option<String>,
    /// Visitor data carried by the client.
    pub visitor_data: Option<String>,
}

impl ClientInfo {
    /// Creates empty client information.
    pub fn new() -> (r: ClientInfo)
        ensures
            r.remote_host is None,
            r.visitor_data is None,
    {
        ClientInfo { remote_host: None, visitor_data: None }
    }

    /// Sets the remote host hint.
    pub fn with_remote_host(self, remote_host: &str) -> (r: ClientInfo)
        ensures
            r.remote_host matches Some(h) && h@ == remote_host@,
            r.visitor_data == self.visitor_data,
    {
        ClientInfo { remote_host: Some(String::from_str(remote_host)), ..self }
    }

    /// Sets the visitor data.
    pub fn with_visitor_data(self, visitor_data: &str) -> (r: ClientInfo)
        ensures
            r.visitor_data matches Some(v) && v@ == visitor_data@,
            r.remote_host == self.remote_host,
    {
        ClientInfo { visitor_data: Some(String::from_str(visitor_data)), ..self }
    }
}

impl Default for ClientInfo {
    /// Empty client information.
    fn default() -> (r: ClientInfo)
        ensures
            r.remote_host is None,
            r.visitor_data is None,
    {
        ClientInfo::new()
    }
}

} // verus!
