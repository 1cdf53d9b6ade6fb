//! Session manager: the orchestrator's verified decision layer.
//!
//! One `generate_token` run resolves the content binding, consults the
//! session cache, and on a miss drives the challenge, sandbox and credential
//! exchange before minting and caching the result. The suspension points —
//! network calls and the engine — belong to the embedding application, which
//! drives them between the step functions here. Every decision between those
//! points is verified: cache lookups, key construction, expiry, insertion,
//! and both invalidation operations, each against the map views of the two
//! caches.
//!
//! Invariants: cache keys are content-addressed — a session row is keyed by
//! its own content binding — and a fresh expiry is always strictly later
//! than its creation time, because the configured TTL is positive.

use vstd::prelude::*;
use vstd::string::StrSliceExecFns;
use vstd::string::StringExecFns;

use crate::base64::push_char;
use crate::botguard::{clone_opt_string, BotGuardClient, MintJob};
use crate::cache::{MinterCache, SessionCache};
use crate::config::Settings;
use crate::error::Error;
use crate::internal::{SessionData, TokenMinterEntry};
use crate::request::PotRequest;
use crate::response::PotResponse;
use crate::rpc::Credential;
use crate::webpo_minter::WebPoMinter;

verus! {

/// The largest value the fixed-width credential counters can carry.
pub const TTL_FIELD_MAX: u32 = 0xffff_ffff;

/// Outbound connection parameters that define a network context.
#[derive(Debug, Clone)]
pub struct ProxySpec {
    /// Proxy URL, if any.
    pub proxy: Option<String>,
    /// Source address to bind, if any.
    pub source_address: Option<String>,
    /// Whether TLS certificate verification is disabled.
    pub disable_tls_verification: bool,
}

/// An optional character sequence, or empty when absent.
pub open spec fn opt_or_empty(o: Option<Seq<char>>) -> Seq<char> {
    match o {
        Some(s) => s,
        None => Seq::empty(),
    }
}

/// The decimal numeral of a number, most significant digit first.
pub open spec fn spec_dec_repr(n: nat) -> Seq<char>
    decreases n,
{
    if n < 10 {
        seq![((48 + n) as u8) as char]
    } else {
        spec_dec_repr(n / 10) + seq![((48 + n % 10) as u8) as char]
    }
}

/// The minter cache key for a network context: the proxy URL's length as a
/// decimal prefix, then the proxy URL and the remote host hint, separated by
/// colons. Proxy URLs contain colons themselves, so the length prefix keeps
/// the encoding unambiguous: different egress identities must never share a
/// credential, and `lemma_cache_key_injective` proves distinct identities
/// never share a key.
pub open spec fn spec_cache_key(proxy: Option<Seq<char>>, remote_host: Option<Seq<char>>) -> Seq<
    char,
> {
    spec_dec_repr(opt_or_empty(proxy).len()) + seq![':'] + opt_or_empty(proxy) + seq![':']
        + opt_or_empty(remote_host)
}

/// The view of an optional string.
pub open spec fn spec_opt_view(o: Option<String>) -> Option<Seq<char>> {
    match o {
        Some(s) => Some(s@),
        None => None,
    }
}

/// The proxy a request resolves to: its own, else the environment's.
pub open spec fn spec_effective_proxy(request: &PotRequest, env_proxy: Option<Seq<char>>)
    -> Option<Seq<char>> {
    match request.proxy {
        Some(p) => Some(p@),
        None => env_proxy,
    }
}

/// The minter cache key a request resolves to under an environment proxy.
pub open spec fn spec_request_cache_key(request: &PotRequest, env_proxy: Option<Seq<char>>)
    -> Seq<char> {
    spec_cache_key(spec_effective_proxy(request, env_proxy), request.spec_remote_host())
}

impl ProxySpec {
    /// An empty specification: no proxy, no source address, TLS verified.
    pub fn new() -> (r: ProxySpec)
        ensures
            r.proxy is None,
            r.source_address is None,
            !r.disable_tls_verification,
    {
        ProxySpec { proxy: None, source_address: None, disable_tls_verification: false }
    }

    /// Sets the proxy URL.
    pub fn with_proxy(self, proxy: &str) -> (r: ProxySpec)
        ensures
            r.proxy matches Some(p) && p@ == proxy@,
            r.source_address == self.source_address,
            r.disable_tls_verification == self.disable_tls_verification,
    {
        ProxySpec { proxy: Some(String::from_str(proxy)), ..self }
    }

    /// Sets the source address.
    pub fn with_source_address(self, source_address: &str) -> (r: ProxySpec)
        ensures
            r.source_address matches Some(a) && a@ == source_address@,
            r.proxy == self.proxy,
            r.disable_tls_verification == self.disable_tls_verification,
    {
        ProxySpec { source_address: Some(String::from_str(source_address)), ..self }
    }

    /// Sets the TLS verification flag.
    pub fn with_disable_tls_verification(self, disable: bool) -> (r: ProxySpec)
        ensures
            r == (ProxySpec { disable_tls_verification: disable, ..self }),
    {
        ProxySpec { disable_tls_verification: disable, ..self }
    }

    /// The minter cache key for this context and an optional remote host.
    pub fn cache_key(&self, remote_host: Option<&str>) -> (r: String)
        ensures
            r@ == spec_cache_key(
                spec_opt_view(self.proxy),
                match remote_host {
                    Some(h) => Some(h@),
                    None => None,
                },
            ),
    {
        let mut key = String::new();
        let proxy_len = match &self.proxy {
            Some(p) => p.as_str().unicode_len(),
            None => 0,
        };
        push_decimal(&mut key, proxy_len);
        push_char(&mut key, ':');
        let mut key = match &self.proxy {
            Some(p) => key.concat(p.as_str()),
            None => key,
        };
        push_char(&mut key, ':');
        let key = match remote_host {
            Some(h) => key.concat(h),
            None => key,
        };
        proof {
            assert(key@ =~= spec_cache_key(
                spec_opt_view(self.proxy),
                match remote_host {
                    Some(h) => Some(h@),
                    None => None::<Seq<char>>,
                },
            ));
        }
        key
    }
}

/// Appends the decimal numeral of `n` to the string.
fn push_decimal(out: &mut String, n: usize)
    ensures
        final(out)@ == old(out)@ + spec_dec_repr(n as nat),
    decreases n,
{
    if n < 10 {
        push_char(out, ((48 + n) as u8) as char);
        proof {
            assert(out@ =~= old(out)@ + spec_dec_repr(n as nat));
        }
    } else {
        push_decimal(out, n / 10);
        push_char(out, ((48 + n % 10) as u8) as char);
        proof {
            assert(out@ =~= old(out)@ + spec_dec_repr(n as nat));
        }
    }
}

/// Every character of a decimal numeral is a digit, never a colon.
proof fn lemma_dec_repr_digits(n: nat)
    ensures
        spec_dec_repr(n).len() >= 1,
        forall|i: int|
            0 <= i < spec_dec_repr(n).len() ==> 48 <= #[trigger] (spec_dec_repr(n)[i] as u32) <= 57,
    decreases n,
{
    if n < 10 {
    } else {
        lemma_dec_repr_digits(n / 10);
        assert forall|i: int| 0 <= i < spec_dec_repr(n).len() implies 48 <= #[trigger] (
        spec_dec_repr(n)[i] as u32) <= 57 by {
            if i < spec_dec_repr(n / 10).len() {
                assert(spec_dec_repr(n)[i] == spec_dec_repr(n / 10)[i]);
            }
        }
    }
}

/// Two numbers with the same decimal numeral are the same number.
proof fn lemma_dec_repr_injective(n1: nat, n2: nat)
    requires
        spec_dec_repr(n1) == spec_dec_repr(n2),
    ensures
        n1 == n2,
    decreases n1,
{
    lemma_dec_repr_digits(n1);
    lemma_dec_repr_digits(n2);
    if n1 < 10 && n2 < 10 {
        assert(spec_dec_repr(n1) == seq![((48 + n1) as u8) as char]);
        assert(spec_dec_repr(n2) == seq![((48 + n2) as u8) as char]);
        assert(seq![((48 + n1) as u8) as char][0] == ((48 + n1) as u8) as char);
        assert(seq![((48 + n2) as u8) as char][0] == ((48 + n2) as u8) as char);
        assert(((48 + n1) as u8) as char == ((48 + n2) as u8) as char);
        assert((((48 + n1) as u8) as char) as u32 == 48 + n1);
        assert((((48 + n2) as u8) as char) as u32 == 48 + n2);
    } else if n1 < 10 {
        assert(spec_dec_repr(n1).len() == 1);
        assert(spec_dec_repr(n2).len() == spec_dec_repr(n2 / 10).len() + 1);
    } else if n2 < 10 {
        assert(spec_dec_repr(n2).len() == 1);
        assert(spec_dec_repr(n1).len() == spec_dec_repr(n1 / 10).len() + 1);
    } else {
        let r1 = spec_dec_repr(n1);
        let r2 = spec_dec_repr(n2);
        assert(r1.last() == r2.last());
        assert((((48 + n1 % 10) as u8) as char) as u32 == 48 + n1 % 10);
        assert((((48 + n2 % 10) as u8) as char) as u32 == 48 + n2 % 10);
        assert(n1 % 10 == n2 % 10);
        assert(r1.drop_last() =~= spec_dec_repr(n1 / 10));
        assert(r2.drop_last() =~= spec_dec_repr(n2 / 10));
        lemma_dec_repr_injective(n1 / 10, n2 / 10);
        vstd::arithmetic::div_mod::lemma_fundamental_div_mod(n1 as int, 10);
        vstd::arithmetic::div_mod::lemma_fundamental_div_mod(n2 as int, 10);
    }
}

/// Law: the minter cache key is injective — two network contexts that yield
/// the same key have the same proxy URL and the same remote host, so
/// distinct egress identities never share a credential row.
pub proof fn lemma_cache_key_injective(
    p1: Option<Seq<char>>,
    h1: Option<Seq<char>>,
    p2: Option<Seq<char>>,
    h2: Option<Seq<char>>,
)
    requires
        spec_cache_key(p1, h1) == spec_cache_key(p2, h2),
    ensures
        opt_or_empty(p1) == opt_or_empty(p2),
        opt_or_empty(h1) == opt_or_empty(h2),
{
    let a1 = opt_or_empty(p1);
    let b1 = opt_or_empty(h1);
    let a2 = opt_or_empty(p2);
    let b2 = opt_or_empty(h2);
    let r1 = spec_dec_repr(a1.len());
    let r2 = spec_dec_repr(a2.len());
    let k = spec_cache_key(p1, h1);
    lemma_dec_repr_digits(a1.len());
    lemma_dec_repr_digits(a2.len());
    // the first colon ends the digit prefix, so the prefixes have one length
    assert(forall|i: int| 0 <= i < r1.len() ==> #[trigger] k[i] == r1[i]);
    assert(k[r1.len() as int] == ':');
    assert(forall|i: int| 0 <= i < r2.len() ==> #[trigger] k[i] == r2[i]);
    assert(k[r2.len() as int] == ':');
    if r1.len() < r2.len() {
        assert(k[r1.len() as int] == r2[r1.len() as int]);
        assert((':' as u32) == 58);
        assert(false);
    }
    if r2.len() < r1.len() {
        assert(k[r2.len() as int] == r1[r2.len() as int]);
        assert((':' as u32) == 58);
        assert(false);
    }
    assert forall|i: int| 0 <= i < r1.len() implies r1[i] == r2[i] by {
        assert(k[i] == r1[i]);
        assert(k[i] == r2[i]);
    }
    assert(r1 =~= r2);
    lemma_dec_repr_injective(a1.len(), a2.len());
    // equal lengths make the two splits line up piece by piece
    let off = r1.len() + 1;
    assert forall|i: int| 0 <= i < a1.len() implies a1[i] == a2[i] by {
        assert(k[off + i] == a1[i]);
        assert(k[off + i] == a2[i]);
    }
    assert(a1 =~= a2);
    assert(k.len() == r1.len() + 1 + a1.len() + 1 + b1.len());
    assert(k.len() == r2.len() + 1 + a2.len() + 1 + b2.len());
    let hoff = r1.len() + 1 + a1.len() + 1;
    assert forall|i: int| 0 <= i < b1.len() implies b1[i] == b2[i] by {
        assert(k[hoff + i] == b1[i]);
        assert(k[hoff + i] == b2[i]);
    }
    assert(b1 =~= b2);
}

/// The outcome of beginning a token generation run: either a finished
/// response from the session cache, or the suspending work the caller must
/// perform next.
#[derive(Debug)]
pub enum TokenFlow {
    /// The request gave no content binding: obtain visitor data first.
    NeedsContentBinding,
    /// A live cached token was returned; the run is finished.
    CachedToken(PotResponse),
    /// No live minter exists for this network context: run the challenge,
    /// sandbox and credential exchange, then mint and `complete_mint`.
    NeedsMinter {
        /// The resolved content binding.
        content_binding: String,
        /// The network-context key to cache the new minter under.
        cache_key: String,
    },
    /// A live minter exists for this network context: mint with it, then
    /// `complete_mint`.
    HasMinter {
        /// The resolved content binding.
        content_binding: String,
        /// The network-context key the minter is cached under.
        cache_key: String,
        /// The live cached minter.
        minter: TokenMinterEntry,
    },
}

/// The session manager: configuration, the two caches, and the sandbox
/// client, with every cache decision verified against the map views.
#[derive(Debug)]
pub struct SessionManager {
    settings: Settings,
    session_data_caches: SessionCache,
    minter_cache: MinterCache,
    request_key: String,
    token_ttl_hours: u64,
    botguard_client: BotGuardClient,
}

impl SessionManager {
    /// The session cache as a map from content binding to cached row.
    pub closed spec fn sessions(&self) -> Map<Seq<char>, SessionData> {
        self.session_data_caches@
    }

    /// The minter cache as a map from network-context key to cached row.
    pub closed spec fn minters(&self) -> Map<Seq<char>, TokenMinterEntry> {
        self.minter_cache@
    }

    /// The configured settings.
    pub closed spec fn spec_settings(&self) -> Settings {
        self.settings
    }

    /// The token TTL in hours.
    pub closed spec fn spec_ttl_hours(&self) -> u64 {
        self.token_ttl_hours
    }

    /// The token TTL in seconds.
    pub open spec fn spec_ttl_secs(&self) -> int {
        self.spec_ttl_hours() * 3600
    }

    /// The request key sent to both remote RPCs.
    pub closed spec fn spec_request_key(&self) -> Seq<char> {
        self.request_key@
    }

    /// The sandbox client.
    pub closed spec fn spec_botguard(&self) -> BotGuardClient {
        self.botguard_client
    }

    /// Well-formedness: the caches are well-formed, the session cache is
    /// content-addressed (every row is keyed by its own content binding),
    /// and the TTL is positive and bounded.
    pub open spec fn wf(&self) -> bool {
        &&& self.session_data_caches_wf()
        &&& 1 <= self.spec_ttl_hours() <= crate::config::MAX_TOKEN_TTL_HOURS
    }

    /// The cache parts of well-formedness.
    pub closed spec fn session_data_caches_wf(&self) -> bool {
        &&& self.session_data_caches.wf()
        &&& self.minter_cache.wf()
        &&& forall|k: Seq<char>|
            #[trigger] self.sessions().contains_key(k) ==> self.sessions()[k].content_binding@
                == k
    }

    /// Creates a manager with empty caches. The TTL comes from validated
    /// settings; settings that fail validation fall back to the default TTL.
    pub fn new(settings: Settings) -> (r: SessionManager)
        ensures
            r.wf(),
            r.sessions() =~= Map::<Seq<char>, SessionData>::empty(),
            r.minters() =~= Map::<Seq<char>, TokenMinterEntry>::empty(),
            r.spec_ttl_hours() == if settings.spec_valid() {
                settings.token.ttl_hours
            } else {
                crate::config::DEFAULT_TOKEN_TTL_HOURS
            },
            r.spec_request_key() == "O43z0dpjhgX20SCx4KAo"@,
            r.spec_settings() == settings,
            !r.spec_botguard().spec_initialized(),
            r.spec_botguard().user_agent == settings.botguard.user_agent,
            r.spec_botguard().snapshot_path == if settings.botguard.disable_snapshot {
                None::<String>
            } else {
                settings.botguard.snapshot_path
            },
    {
        let token_ttl_hours: u64 = match settings.validate() {
            Ok(()) => settings.token.ttl_hours,
            Err(_) => crate::config::DEFAULT_TOKEN_TTL_HOURS,
        };
        let snapshot_path = if settings.botguard.disable_snapshot {
            None
        } else {
            clone_opt_string(&settings.botguard.snapshot_path)
        };
        let botguard_client = BotGuardClient::new(
            snapshot_path,
            clone_opt_string(&settings.botguard.user_agent),
        );
        SessionManager {
            settings,
            session_data_caches: SessionCache::new(),
            minter_cache: MinterCache::new(),
            request_key: String::from_str("O43z0dpjhgX20SCx4KAo"),
            token_ttl_hours,
            botguard_client,
        }
    }

    /// The content binding to use: the request's explicit one, or nothing,
    /// in which case the caller must obtain visitor data first.
    pub fn get_content_binding(&self, request: &PotRequest) -> (r: Option<String>)
        ensures
            r is Some <==> request.content_binding is Some,
            r matches Some(b) ==> b == request.content_binding->0,
    {
        match &request.content_binding {
            Some(b) => Some(b.clone()),
            None => None,
        }
    }

    /// Accepts or rejects visitor data fetched by the collaborator: empty or
    /// implausibly short values are a visitor-data error, anything else is
    /// returned unchanged.
    pub fn validate_visitor_data(&self, visitor_data: String) -> (r: Result<String, Error>)
        ensures
            visitor_data@.len() < 10 ==> (r matches Err(e) && e is VisitorData),
            visitor_data@.len() >= 10 ==> r == Ok::<String, Error>(visitor_data),
    {
        if visitor_data.as_str().unicode_len() < 10 {
            return Err(Error::visitor_data(String::from_str("generated visitor data is too short")));
        }
        Ok(visitor_data)
    }

    /// Accepts what the visitor-data collaborator fetched: an absent value
    /// is a hard visitor-data error, never a silent default, and a present
    /// value passes the same validation as `validate_visitor_data`.
    pub fn resolve_visitor_data(&self, fetched: Option<String>) -> (r: Result<String, Error>)
        ensures
            fetched is None ==> (r matches Err(e) && e is VisitorData),
            (fetched matches Some(v) && v@.len() < 10) ==> (r matches Err(e) && e is VisitorData),
            (fetched matches Some(v) && v@.len() >= 10) ==> r == Ok::<String, Error>(fetched->0),
    {
        match fetched {
            Some(v) => self.validate_visitor_data(v),
            None => Err(
                Error::visitor_data(String::from_str("visitor data not found in response")),
            ),
        }
    }

    /// Builds the outbound context from the request: its proxy if given,
    /// else the proxy the environment supplied; the request's source address
    /// and TLS flag.
    pub fn create_proxy_spec(&self, request: &PotRequest, env_proxy: Option<&str>) -> (r:
        ProxySpec)
        ensures
            request.proxy is Some ==> (r.proxy matches Some(q) && q@ == request.proxy->0@),
            (request.proxy is None && env_proxy is Some) ==> (r.proxy matches Some(q) && q@
                == env_proxy->0@),
            (request.proxy is None && env_proxy is None) ==> r.proxy is None,
            r.source_address is Some <==> request.source_address is Some,
            r.source_address matches Some(a) ==> a@ == request.source_address->0@,
            r.disable_tls_verification == (request.disable_tls_verification == Some(true)),
    {
        let mut spec = ProxySpec::new();
        match &request.proxy {
            Some(p) => {
                spec = spec.with_proxy(p.as_str());
            },
            None => {
                if let Some(p) = env_proxy {
                    spec = spec.with_proxy(p);
                }
            },
        }
        if let Some(a) = &request.source_address {
            spec = spec.with_source_address(a.as_str());
        }
        let disable = match &request.disable_tls_verification {
            Some(d) => *d,
            None => false,
        };
        spec.with_disable_tls_verification(disable)
    }

    /// The minter cache key for a request under an outbound context.
    pub fn create_cache_key(&self, proxy_spec: &ProxySpec, request: &PotRequest) -> (r: String)
        ensures
            r@ == spec_cache_key(spec_opt_view(proxy_spec.proxy), request.spec_remote_host()),
    {
        let remote_host: Option<&str> = match &request.innertube_context {
            Some(ctx) => match &ctx.client.remote_host {
                Some(h) => Some(h.as_str()),
                None => None,
            },
            None => None,
        };
        proxy_spec.cache_key(remote_host)
    }

    /// The cached response a request would get: nothing when the cache is
    /// bypassed, else the live session row at the binding, if any.
    pub open spec fn spec_cached_response(
        &self,
        binding: Seq<char>,
        bypass_cache: bool,
        now_unix: int,
    ) -> Option<PotResponse> {
        if bypass_cache {
            None
        } else if self.sessions().contains_key(binding) && self.sessions()[binding].expires_at
            > now_unix {
            let d = self.sessions()[binding];
            Some(
                PotResponse {
                    po_token: d.po_token,
                    content_binding: d.content_binding,
                    expires_at: d.expires_at,
                },
            )
        } else {
            None
        }
    }

    /// Consults the session cache: with `bypass_cache` no lookup happens and
    /// a fresh mint always follows; otherwise a live row for this binding is
    /// returned as-is.
    pub fn check_session_cache(
        &self,
        content_binding: &String,
        bypass_cache: bool,
        now_unix: i64,
    ) -> (r: Option<PotResponse>)
        requires
            self.wf(),
        ensures
            r == self.spec_cached_response(content_binding@, bypass_cache, now_unix as int),
    {
        if bypass_cache {
            return None;
        }
        match self.session_data_caches.get(content_binding) {
            Some(data) => {
                if data.expires_at > now_unix {
                    Some(PotResponse::from_session_data(data))
                } else {
                    None
                }
            },
            None => None,
        }
    }

    /// Drops every expired session row; live rows and the minter cache are
    /// untouched.
    pub fn cleanup_caches(&mut self, now_unix: i64)
        requires
            old(self).wf(),
        ensures
            final(self).wf(),
            final(self).config_unchanged(*old(self)),
            final(self).minters() == old(self).minters(),
            forall|k: Seq<char>|
                #[trigger] final(self).sessions().contains_key(k) <==> (old(
                    self,
                ).sessions().contains_key(k) && old(self).sessions()[k].expires_at > now_unix),
            forall|k: Seq<char>|
                #[trigger] final(self).sessions().contains_key(k) ==> final(self).sessions()[k]
                    == old(self).sessions()[k],
    {
        self.session_data_caches.purge_expired(now_unix);
        proof {
            assert forall|k: Seq<char>| #[trigger] self.sessions().contains_key(
                k,
            ) implies self.sessions()[k].content_binding@ == k by {
                assert(old(self).sessions().contains_key(k));
            }
        }
    }

    /// Everything outside the two caches is unchanged.
    pub open spec fn config_unchanged(&self, other: SessionManager) -> bool {
        &&& self.spec_settings() == other.spec_settings()
        &&& self.spec_ttl_hours() == other.spec_ttl_hours()
        &&& self.spec_request_key() == other.spec_request_key()
        &&& self.spec_botguard() == other.spec_botguard()
    }

    /// The live minter at a cache key, if any; an absent or expired row
    /// means the caller must regenerate a minter for this context.
    pub fn get_cached_minter(&self, cache_key: &String, now_unix: i64) -> (r: Option<
        TokenMinterEntry,
    >)
        requires
            self.wf(),
        ensures
            r matches Some(e) ==> self.minters().contains_key(cache_key@) && e == self.minters()[
                cache_key@
            ] && !e.spec_is_expired(now_unix as int),
            r is None ==> !self.minters().contains_key(cache_key@) || self.minters()[
                cache_key@
            ].spec_is_expired(now_unix as int),
    {
        match self.minter_cache.get_live(cache_key, now_unix) {
            Some(e) => Some(e.duplicate()),
            None => None,
        }
    }

    /// Builds the minter cache row for a freshly exchanged credential: it
    /// expires one TTL after now, carries the credential's metadata with the
    /// counters saturated to their field width, and binds the minter.
    pub fn build_minter_entry(&self, credential: Credential, minter: WebPoMinter, now_unix: i64)
        -> (r: TokenMinterEntry)
        requires
            self.wf(),
            0 <= now_unix,
            now_unix + self.spec_ttl_secs() <= i64::MAX,
        ensures
            r.expiry == now_unix + self.spec_ttl_secs(),
            r.expiry > now_unix,
            r.integrity_token == credential.integrity_token,
            r.estimated_ttl_secs == if credential.estimated_ttl_secs <= TTL_FIELD_MAX {
                credential.estimated_ttl_secs as u32
            } else {
                TTL_FIELD_MAX
            },
            r.mint_refresh_threshold == if credential.mint_refresh_threshold_secs
                <= TTL_FIELD_MAX {
                credential.mint_refresh_threshold_secs as u32
            } else {
                TTL_FIELD_MAX
            },
            r.websafe_fallback_token == credential.websafe_fallback_token,
            r.minter == minter,
    {
        let expiry = now_unix + (self.token_ttl_hours as i64) * 3600;
        let estimated_ttl_secs: u32 = if credential.estimated_ttl_secs <= TTL_FIELD_MAX as u64 {
            credential.estimated_ttl_secs as u32
        } else {
            TTL_FIELD_MAX
        };
        let mint_refresh_threshold: u32 = if credential.mint_refresh_threshold_secs
            <= TTL_FIELD_MAX as u64 {
            credential.mint_refresh_threshold_secs as u32
        } else {
            TTL_FIELD_MAX
        };
        TokenMinterEntry::new(
            expiry,
            credential.integrity_token,
            estimated_ttl_secs,
            mint_refresh_threshold,
            credential.websafe_fallback_token,
            minter,
        )
    }

    /// Caches a regenerated minter under its network-context key. Racing
    /// regenerations for one key are tolerated: the last writer wins.
    pub fn store_minter(&mut self, cache_key: &String, entry: TokenMinterEntry)
        requires
            old(self).wf(),
        ensures
            final(self).wf(),
            final(self).config_unchanged(*old(self)),
            final(self).minters() =~= old(self).minters().insert(cache_key@, entry),
            final(self).sessions() == old(self).sessions(),
    {
        self.minter_cache.insert(cache_key, entry);
        proof {
            assert(self.sessions() == old(self).sessions());
        }
    }

    /// Completes a mint: wraps the token as a session row expiring one TTL
    /// after now, caches it under its content binding, and returns the
    /// response. The response carries the requested binding and an expiry
    /// strictly in the future; callers establish that the token is not empty
    /// (`accept_minted_token`), so no empty token is ever cached or returned.
    pub fn complete_mint(&mut self, content_binding: String, po_token: String, now_unix: i64)
        -> (r: PotResponse)
        requires
            old(self).wf(),
            po_token@.len() > 0,
            0 <= now_unix,
            now_unix + old(self).spec_ttl_secs() <= i64::MAX,
        ensures
            final(self).wf(),
            final(self).config_unchanged(*old(self)),
            r.po_token == po_token,
            r.po_token@.len() > 0,
            r.content_binding == content_binding,
            r.expires_at == now_unix + old(self).spec_ttl_secs(),
            r.expires_at > now_unix,
            final(self).sessions() =~= old(self).sessions().insert(
                content_binding@,
                SessionData {
                    po_token: r.po_token,
                    content_binding: r.content_binding,
                    expires_at: r.expires_at,
                },
            ),
            final(self).minters() == old(self).minters(),
    {
        let expires_at = now_unix + (self.token_ttl_hours as i64) * 3600;
        let data = SessionData::new(po_token, content_binding, expires_at);
        let response = PotResponse::from_session_data(&data);
        let key = data.content_binding.clone();
        self.session_data_caches.insert(&key, data);
        proof {
            assert forall|k: Seq<char>| #[trigger] self.sessions().contains_key(
                k,
            ) implies self.sessions()[k].content_binding@ == k by {
                if k != key@ {
                    assert(old(self).sessions().contains_key(k));
                }
            }
        }
        response
    }

    /// Drops every cached token and minter from both caches.
    pub fn invalidate_caches(&mut self) -> (r: Result<(), Error>)
        requires
            old(self).wf(),
        ensures
            final(self).wf(),
            final(self).config_unchanged(*old(self)),
            final(self).sessions() =~= Map::<Seq<char>, SessionData>::empty(),
            final(self).minters() =~= Map::<Seq<char>, TokenMinterEntry>::empty(),
            r is Ok,
    {
        self.session_data_caches.clear();
        self.minter_cache.clear();
        proof {
            assert(self.sessions() =~= Map::<Seq<char>, SessionData>::empty());
        }
        Ok(())
    }

    /// Forces every cached integrity token to report as expired, by moving
    /// its expiry to the epoch; no key is removed and no other field changes.
    pub fn invalidate_integrity_tokens(&mut self) -> (r: Result<(), Error>)
        requires
            old(self).wf(),
        ensures
            final(self).wf(),
            final(self).config_unchanged(*old(self)),
            final(self).sessions() == old(self).sessions(),
            final(self).minters().dom() =~= old(self).minters().dom(),
            forall|k: Seq<char>|
                #[trigger] old(self).minters().contains_key(k) ==> final(self).minters()[k]
                    == crate::cache::spec_expire_entry(old(self).minters()[k]),
            r is Ok,
    {
        self.minter_cache.expire_all();
        proof {
            assert(self.sessions() == old(self).sessions());
        }
        Ok(())
    }

    /// The minter cache keys, for diagnostics: every key exactly once.
    pub fn get_minter_cache_keys(&self) -> (r: Result<Vec<String>, Error>)
        requires
            self.wf(),
        ensures
            r matches Ok(keys) && {
                &&& forall|i: int|
                    0 <= i < keys@.len() ==> self.minters().contains_key(#[trigger] keys@[i]@)
                &&& forall|k: Seq<char>|
                    #[trigger] self.minters().contains_key(k) ==> exists|i: int|
                        0 <= i < keys@.len() && keys@[i]@ == k
                &&& forall|i: int, j: int| 0 <= i < j < keys@.len() ==> keys@[i]@ != keys@[j]@
            },
    {
        Ok(self.minter_cache.keys())
    }

    /// Replaces the session cache wholesale, as script mode does after
    /// loading a file cache. The rows must be keyed by their own bindings.
    pub fn set_session_data_caches(&mut self, caches: SessionCache)
        requires
            old(self).wf(),
            caches.wf(),
            forall|k: Seq<char>|
                #[trigger] caches@.contains_key(k) ==> caches@[k].content_binding@ == k,
        ensures
            final(self).wf(),
            final(self).config_unchanged(*old(self)),
            final(self).sessions() == caches@,
            final(self).minters() == old(self).minters(),
    {
        self.session_data_caches = caches;
    }

    /// A copy of the session cache, purged of expired rows first when asked:
    /// with cleanup the result and the cache hold exactly the previously
    /// cached rows that are still live, unchanged; without it, everything.
    pub fn get_session_data_caches(&mut self, cleanup: bool, now_unix: i64) -> (r: SessionCache)
        requires
            old(self).wf(),
        ensures
            final(self).wf(),
            final(self).config_unchanged(*old(self)),
            r.wf(),
            r@ == final(self).sessions(),
            !cleanup ==> final(self).sessions() == old(self).sessions(),
            cleanup ==> forall|k: Seq<char>|
                #[trigger] final(self).sessions().contains_key(k) <==> (old(
                    self,
                ).sessions().contains_key(k) && old(self).sessions()[k].expires_at > now_unix),
            cleanup ==> forall|k: Seq<char>|
                #[trigger] final(self).sessions().contains_key(k) ==> final(self).sessions()[k]
                    == old(self).sessions()[k],
            final(self).minters() == old(self).minters(),
    {
        if cleanup {
            self.cleanup_caches(now_unix);
        }
        self.session_data_caches.duplicate()
    }

    /// Marks the sandbox client as initialized.
    pub fn initialize_botguard(&mut self) -> (r: Result<(), Error>)
        requires
            old(self).wf(),
        ensures
            final(self).wf(),
            final(self).spec_botguard().spec_initialized(),
            final(self).sessions() == old(self).sessions(),
            final(self).minters() == old(self).minters(),
            final(self).spec_settings() == old(self).spec_settings(),
            final(self).spec_ttl_hours() == old(self).spec_ttl_hours(),
            final(self).spec_request_key() == old(self).spec_request_key(),
            r is Ok,
    {
        let r = self.botguard_client.initialize();
        proof {
            assert(self.sessions() == old(self).sessions());
        }
        r
    }

    /// Builds the engine work order for one identifier; refused until the
    /// sandbox client is initialized, and always refused with a session
    /// error for an empty identifier.
    pub fn generate_po_token(&self, identifier: &str) -> (r: Result<MintJob, Error>)
        requires
            self.wf(),
        ensures
            !self.spec_botguard().spec_initialized() ==> (r matches Err(e) && e is Sandbox),
            (self.spec_botguard().spec_initialized() && identifier@.len() == 0) ==> (r matches Err(
                e,
            ) && e is Session),
            (self.spec_botguard().spec_initialized() && identifier@.len() > 0) ==> (r matches Ok(
                job,
            ) && job.identifier@ == identifier@ && job.snapshot_path
                == self.spec_botguard().snapshot_path && job.user_agent
                == self.spec_botguard().user_agent),
    {
        self.botguard_client.prepare_mint(identifier)
    }

    /// Begins one token generation run: purges expired session rows,
    /// resolves the content binding, consults the session cache, and on a
    /// miss resolves the network context and looks for a live minter. The
    /// suspending work the outcome calls for — visitor data, the challenge
    /// pipeline, the mint itself — is the caller's; `complete_mint` finishes
    /// the run.
    pub fn begin_pot_token(&mut self, request: &PotRequest, env_proxy: Option<&str>, now_unix: i64)
        -> (r: TokenFlow)
        requires
            old(self).wf(),
        ensures
            final(self).wf(),
            final(self).config_unchanged(*old(self)),
            final(self).minters() == old(self).minters(),
            forall|k: Seq<char>|
                #[trigger] final(self).sessions().contains_key(k) <==> (old(
                    self,
                ).sessions().contains_key(k) && old(self).sessions()[k].expires_at > now_unix),
            forall|k: Seq<char>|
                #[trigger] final(self).sessions().contains_key(k) ==> final(self).sessions()[k]
                    == old(self).sessions()[k],
            r is NeedsContentBinding <==> request.content_binding is None,
            match r {
                TokenFlow::NeedsContentBinding => true,
                TokenFlow::CachedToken(resp) => request.content_binding matches Some(b)
                    && final(self).spec_cached_response(
                    b@,
                    request.bypass_cache == Some(true),
                    now_unix as int,
                ) == Some(resp),
                TokenFlow::NeedsMinter { content_binding, cache_key } => {
                    &&& request.content_binding matches Some(b) && content_binding == b
                    &&& final(self).spec_cached_response(
                        content_binding@,
                        request.bypass_cache == Some(true),
                        now_unix as int,
                    ) is None
                    &&& cache_key@ == spec_request_cache_key(
                        request,
                        match env_proxy {
                            Some(p) => Some(p@),
                            None => None,
                        },
                    )
                    &&& !final(self).minters().contains_key(cache_key@) || final(self).minters()[
                        cache_key@
                    ].spec_is_expired(now_unix as int)
                },
                TokenFlow::HasMinter { content_binding, cache_key, minter } => {
                    &&& request.content_binding matches Some(b) && content_binding == b
                    &&& final(self).spec_cached_response(
                        content_binding@,
                        request.bypass_cache == Some(true),
                        now_unix as int,
                    ) is None
                    &&& cache_key@ == spec_request_cache_key(
                        request,
                        match env_proxy {
                            Some(p) => Some(p@),
                            None => None,
                        },
                    )
                    &&& final(self).minters().contains_key(cache_key@)
                    &&& minter == final(self).minters()[cache_key@]
                    &&& !minter.spec_is_expired(now_unix as int)
                },
            },
    {
        self.cleanup_caches(now_unix);
        let content_binding = match self.get_content_binding(request) {
            Some(binding) => binding,
            None => {
                return TokenFlow::NeedsContentBinding;
            },
        };
        let bypass_cache = match &request.bypass_cache {
            Some(b) => *b,
            None => false,
        };
        if let Some(cached) = self.check_session_cache(&content_binding, bypass_cache, now_unix) {
            return TokenFlow::CachedToken(cached);
        }
        let proxy_spec = self.create_proxy_spec(request, env_proxy);
        let cache_key = self.create_cache_key(&proxy_spec, request);
        proof {
            assert(cache_key@ =~= spec_request_cache_key(
                request,
                match env_proxy {
                    Some(p) => Some(p@),
                    None => None::<Seq<char>>,
                },
            ));
        }
        match self.get_cached_minter(&cache_key, now_unix) {
            Some(minter) => TokenFlow::HasMinter { content_binding, cache_key, minter },
            None => TokenFlow::NeedsMinter { content_binding, cache_key },
        }
    }

    /// The request key and configured host, for diagnostics.
    pub fn get_diagnostic_info(&self) -> (r: (String, String))
        ensures
            r.0@ == self.spec_request_key(),
            r.1@ == self.spec_settings().server.host@,
    {
        (self.request_key.clone(), self.settings.server.host.clone())
    }
}

/// Law: for every non-empty content binding, a generated response carries
/// that binding and an expiry strictly in the future — on the cache-hit path
/// because the session cache is content-addressed and only live rows are
/// returned, and on the fresh-mint path because the expiry is one positive
/// TTL after now.
pub proof fn lemma_token_binding_and_freshness(
    m: &SessionManager,
    binding: Seq<char>,
    bypass_cache: bool,
    now_unix: int,
)
    requires
        m.wf(),
        binding.len() > 0,
    ensures
        m.spec_cached_response(binding, bypass_cache, now_unix) matches Some(r)
            ==> r.content_binding@ == binding && r.expires_at > now_unix,
        now_unix + m.spec_ttl_secs() > now_unix,
{
}

/// Law: while a cached row is live, every non-bypassing call for its binding
/// returns the identical token and expiry — in particular, two calls within
/// the TTL window yield byte-identical results.
pub proof fn lemma_repeat_within_ttl_is_identical(
    m: &SessionManager,
    binding: Seq<char>,
    now1: int,
    now2: int,
)
    requires
        m.wf(),
        m.sessions().contains_key(binding),
        m.sessions()[binding].expires_at > now1,
        m.sessions()[binding].expires_at > now2,
    ensures
        m.spec_cached_response(binding, false, now1) is Some,
        m.spec_cached_response(binding, false, now1) == m.spec_cached_response(
            binding,
            false,
            now2,
        ),
        m.spec_cached_response(binding, false, now1)->0.po_token == m.sessions()[
            binding
        ].po_token,
        m.spec_cached_response(binding, false, now1)->0.expires_at == m.sessions()[
            binding
        ].expires_at,
{
}

/// Law: a call with the cache bypassed never short-circuits on the session
/// cache — whatever the state, the binding and the time, no cached response
/// is produced, so a fresh mint always follows.
pub proof fn lemma_bypass_always_mints(m: &SessionManager, binding: Seq<char>, now_unix: int)
    ensures
        m.spec_cached_response(binding, true, now_unix) is None,
{
}

/// Law: a key listing of an empty minter cache is empty; with
/// `invalidate_caches` emptying both caches, the listing afterward is `[]`.
pub proof fn lemma_empty_minters_list_no_keys(m: &SessionManager, keys: Seq<String>)
    requires
        m.minters().dom() =~= Set::<Seq<char>>::empty(),
        forall|i: int| 0 <= i < keys.len() ==> m.minters().contains_key(#[trigger] keys[i]@),
    ensures
        keys.len() == 0,
{
    if keys.len() > 0 {
        assert(m.minters().contains_key(keys[0]@));
        assert(m.minters().dom().contains(keys[0]@));
    }
}

/// Law: invalidating integrity tokens preserves the set of minter cache
/// keys, and afterward every entry reports as expired at any positive time,
/// its expiry having been forced to the epoch.
pub proof fn lemma_invalidated_minters_expired(m: &SessionManager, k: Seq<char>, now_unix: int)
    requires
        m.minters().contains_key(k),
        m.minters()[k].expiry == 0,
        now_unix >= 1,
    ensures
        m.minters()[k].spec_is_expired(now_unix),
{
}

} // verus!
