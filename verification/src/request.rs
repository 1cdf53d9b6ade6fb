//! Request types for token generation and cache invalidation.

use vstd::prelude::*;
use vstd::string::StrSliceExecFns;
use vstd::string::StringExecFns;

use crate::base64::push_char;
use crate::error::Error;
use crate::internal::{ClientInfo, InnertubeContext};

verus! {

/// A challenge supplied by the caller: either an opaque string or structured data.
#[derive(Debug, Clone)]
pub enum Challenge {
    /// Challenge as an opaque string, as parsed out of a web page.
    Text(String),
    /// Challenge as structured data from the remote API.
    Data(ChallengeData),
}

/// Structured challenge data supplied with a request.
#[derive(Debug, Clone)]
pub struct ChallengeData {
    /// Interpreter URL wrapper.
    pub interpreter_url: InterpreterUrl,
    /// Hash of the interpreter script.
    pub interpreter_hash: String,
    /// Challenge program, base64-encoded.
    pub program: String,
    /// Global scope name for the sandbox instance.
    pub global_name: String,
    /// Client experiments state blob.
    pub client_experiments_state_blob: String,
}

/// Wrapper carrying an interpreter URL.
#[derive(Debug, Clone)]
pub struct InterpreterUrl {
    /// The wrapped URL value, under the vendor's private field naming convention.
    pub private_do_not_access_or_else_trusted_resource_url_wrapped_value: String,
}

/// Request for token generation.
#[derive(Debug, Clone)]
pub struct PotRequest {
    /// Content binding for the token (resource identifier, visitor data, ...).
    pub content_binding: Option<String>,
    /// Proxy URL for outbound requests.
    pub proxy: Option<String>,
    /// Whether to skip the session cache and mint a fresh token.
    pub bypass_cache: Option<bool>,
    /// Challenge supplied by the caller instead of fetching one.
    pub challenge: Option<Challenge>,
    /// Whether to disable the authenticated challenge endpoint.
    pub disable_innertube: Option<bool>,
    /// Whether to disable TLS certificate verification.
    pub disable_tls_verification: Option<bool>,
    /// Structured client hint, carrying for example a remote host.
    pub innertube_context: Option<InnertubeContext>,
    /// Source IP address to bind outbound connections to.
    pub source_address: Option<String>,
}

impl PotRequest {
    /// The default request: no binding, no proxy, caching enabled.
    pub open spec fn spec_default() -> PotRequest {
        PotRequest {
            content_binding: None,
            proxy: None,
            bypass_cache: Some(false),
            challenge: None,
            disable_innertube: Some(false),
            disable_tls_verification: Some(false),
            innertube_context: None,
            source_address: None,
        }
    }

    /// Creates a request with default values.
    pub fn new() -> (r: PotRequest)
        ensures
            r == PotRequest::spec_default(),
    {
        PotRequest {
            content_binding: None,
            proxy: None,
            bypass_cache: Some(false),
            challenge: None,
            disable_innertube: Some(false),
            disable_tls_verification: Some(false),
            innertube_context: None,
            source_address: None,
        }
    }

    /// Sets the content binding.
    pub fn with_content_binding(self, content_binding: &str) -> (r: PotRequest)
        ensures
            r == (PotRequest { content_binding: r.content_binding, ..self }),
            r.content_binding matches Some(b) && b@ == content_binding@,
    {
        PotRequest { content_binding: Some(String::from_str(content_binding)), ..self }
    }

    /// Sets the proxy URL.
    pub fn with_proxy(self, proxy: &str) -> (r: PotRequest)
        ensures
            r == (PotRequest { proxy: r.proxy, ..self }),
            r.proxy matches Some(p) && p@ == proxy@,
    {
        PotRequest { proxy: Some(String::from_str(proxy)), ..self }
    }

    /// Sets the cache-bypass flag.
    pub fn with_bypass_cache(self, bypass_cache: bool) -> (r: PotRequest)
        ensures
            r == (PotRequest { bypass_cache: Some(bypass_cache), ..self }),
    {
        PotRequest { bypass_cache: Some(bypass_cache), ..self }
    }

    /// Sets the source address.
    pub fn with_source_address(self, source_address: &str) -> (r: PotRequest)
        ensures
            r == (PotRequest { source_address: r.source_address, ..self }),
            r.source_address matches Some(a) && a@ == source_address@,
    {
        PotRequest { source_address: Some(String::from_str(source_address)), ..self }
    }

    /// Sets the TLS verification flag.
    pub fn with_disable_tls_verification(self, disable: bool) -> (r: PotRequest)
        ensures
            r == (PotRequest { disable_tls_verification: Some(disable), ..self }),
    {
        PotRequest { disable_tls_verification: Some(disable), ..self }
    }

    /// Sets a challenge given as an opaque string.
    pub fn with_challenge(self, challenge: &str) -> (r: PotRequest)
        ensures
            r == (PotRequest { challenge: r.challenge, ..self }),
            r.challenge matches Some(c) && c matches Challenge::Text(t) && t@ == challenge@,
    {
        PotRequest { challenge: Some(Challenge::Text(String::from_str(challenge))), ..self }
    }

    /// Sets a challenge given as structured data.
    pub fn with_challenge_data(self, challenge: ChallengeData) -> (r: PotRequest)
        ensures
            r == (PotRequest { challenge: Some(Challenge::Data(challenge)), ..self }),
    {
        PotRequest { challenge: Some(Challenge::Data(challenge)), ..self }
    }

    /// Sets the flag disabling the authenticated challenge endpoint.
    pub fn with_disable_innertube(self, disable: bool) -> (r: PotRequest)
        ensures
            r == (PotRequest { disable_innertube: Some(disable), ..self }),
    {
        PotRequest { disable_innertube: Some(disable), ..self }
    }

    /// Sets the structured client hint.
    pub fn with_innertube_context(self, context: InnertubeContext) -> (r: PotRequest)
        ensures
            r == (PotRequest { innertube_context: Some(context), ..self }),
    {
        PotRequest { innertube_context: Some(context), ..self }
    }

    /// The remote host hint carried by the request's client context, if any.
    pub open spec fn spec_remote_host(&self) -> Option<Seq<char>> {
        match self.innertube_context {
            Some(ctx) => match ctx.client.remote_host {
                Some(h) => Some(h@),
                None => None,
            },
            None => None,
        }
    }

    /// Builds a request from plain command-line values. The authenticated
    /// challenge endpoint is always disabled in one-shot script mode.
    pub fn build_pot_request(
        content_binding: Option<&str>,
        proxy: Option<&str>,
        bypass_cache: bool,
        source_address: Option<&str>,
        disable_tls_verification: bool,
    ) -> (r: PotRequest)
        ensures
            r.content_binding matches Some(b) ==> content_binding matches Some(c) && b@ == c@,
            content_binding is Some ==> r.content_binding is Some,
            r.proxy matches Some(p) ==> proxy matches Some(q) && p@ == q@,
            proxy is Some ==> r.proxy is Some,
            r.bypass_cache == Some(bypass_cache) || (!bypass_cache && r.bypass_cache == Some(false)),
            r.source_address matches Some(a) ==> source_address matches Some(s) && a@ == s@,
            source_address is Some ==> r.source_address is Some,
            r.disable_tls_verification == Some(disable_tls_verification) || (!disable_tls_verification
                && r.disable_tls_verification == Some(false)),
            r.disable_innertube == Some(true),
    {
        let mut request = PotRequest::new();
        if let Some(binding) = content_binding {
            request = request.with_content_binding(binding);
        }
        if let Some(p) = proxy {
            request = request.with_proxy(p);
        }
        if bypass_cache {
            request = request.with_bypass_cache(true);
        }
        if let Some(addr) = source_address {
            request = request.with_source_address(addr);
        }
        if disable_tls_verification {
            request = request.with_disable_tls_verification(true);
        }
        request.with_disable_innertube(true)
    }
}

impl Default for PotRequest {
    /// The default request: see `spec_default`.
    fn default() -> (r: PotRequest)
        ensures
            r == PotRequest::spec_default(),
    {
        PotRequest::new()
    }
}

/// A boolean request field in one of the shapes different clients send:
/// a JSON boolean, an integer, or a numeral or boolean word as a string.
#[derive(Debug, Clone)]
pub enum FlexibleBool {
    /// A plain boolean.
    Truth(bool),
    /// An integer: positive is true, zero and negative are false.
    Integer(i64),
    /// A string: `"true"`, `"false"`, `"1"` or `"0"`, case-insensitively and
    /// ignoring surrounding whitespace; anything else is rejected.
    Text(String),
}

/// Whether the character is ASCII whitespace trimmed around boolean words.
pub open spec fn spec_is_ws(c: char) -> bool {
    c == ' ' || c == '\t' || c == '\n' || c == '\r'
}

/// The sequence without its leading whitespace.
pub open spec fn spec_trim_front(s: Seq<char>) -> Seq<char>
    decreases s.len(),
{
    if s.len() > 0 && spec_is_ws(s[0]) {
        spec_trim_front(s.skip(1))
    } else {
        s
    }
}

/// The sequence without its trailing whitespace.
pub open spec fn spec_trim_back(s: Seq<char>) -> Seq<char>
    decreases s.len(),
{
    if s.len() > 0 && spec_is_ws(s.last()) {
        spec_trim_back(s.drop_last())
    } else {
        s
    }
}

/// The ASCII lowercase of one character.
pub open spec fn spec_lower_char(c: char) -> char {
    if 'A' <= c <= 'Z' {
        ((c as u32 + 32) as u8) as char
    } else {
        c
    }
}

/// The ASCII lowercase of a sequence.
pub open spec fn spec_lower(s: Seq<char>) -> Seq<char>
    decreases s.len(),
{
    if s.len() == 0 {
        Seq::empty()
    } else {
        seq![spec_lower_char(s[0])] + spec_lower(s.skip(1))
    }
}

/// The boolean-word key a string reduces to: its ASCII lowercase, with
/// surrounding ASCII whitespace removed.
pub open spec fn spec_bool_key(s: Seq<char>) -> Seq<char> {
    spec_lower(spec_trim_back(spec_trim_front(s)))
}

/// The boolean a flexible value means: a boolean itself, the sign of an
/// integer, or one of the four accepted boolean words; any other string has
/// no meaning and is rejected.
pub open spec fn spec_flexible_bool(value: FlexibleBool) -> Option<bool> {
    match value {
        FlexibleBool::Truth(b) => Some(b),
        FlexibleBool::Integer(i) => Some(i > 0),
        FlexibleBool::Text(s) => {
            let key = spec_bool_key(s@);
            if key == seq!['t', 'r', 'u', 'e'] || key == seq!['1'] {
                Some(true)
            } else if key == seq!['f', 'a', 'l', 's', 'e'] || key == seq!['0'] {
                Some(false)
            } else {
                None
            }
        },
    }
}

/// Interprets a boolean request field sent in any of the tolerated shapes.
/// A string that is not an accepted boolean word is a configuration error.
pub fn interpret_flexible_bool(value: &FlexibleBool) -> (r: Result<bool, Error>)
    ensures
        match spec_flexible_bool(*value) {
            Some(b) => r == Ok::<bool, Error>(b),
            None => r matches Err(e) && e is Config,
        },
{
    match value {
        FlexibleBool::Truth(b) => Ok(*b),
        FlexibleBool::Integer(i) => Ok(*i > 0),
        FlexibleBool::Text(s) => {
            let key = bool_key(s.as_str());
            proof {
                reveal_strlit("true");
                reveal_strlit("false");
                reveal_strlit("1");
                reveal_strlit("0");
                assert("true"@ =~= seq!['t', 'r', 'u', 'e']);
                assert("false"@ =~= seq!['f', 'a', 'l', 's', 'e']);
                assert("1"@ =~= seq!['1']);
                assert("0"@ =~= seq!['0']);
            }
            if key == String::from_str("true") || key == String::from_str("1") {
                Ok(true)
            } else if key == String::from_str("false") || key == String::from_str("0") {
                Ok(false)
            } else {
                Err(Error::config(String::from_str("invalid boolean string")))
            }
        },
    }
}

/// Trimming leading whitespace is the same from any all-whitespace prefix.
proof fn lemma_trim_front_skip(s: Seq<char>, i: int)
    requires
        0 <= i <= s.len(),
        forall|j: int| 0 <= j < i ==> spec_is_ws(s[j]),
    ensures
        spec_trim_front(s) == spec_trim_front(s.skip(i)),
    decreases i,
{
    if i > 0 {
        assert(spec_is_ws(s[0]));
        assert(s.skip(1).skip(i - 1) =~= s.skip(i));
        assert(forall|j: int| 0 <= j < i - 1 ==> spec_is_ws(#[trigger] s.skip(1)[j]));
        lemma_trim_front_skip(s.skip(1), i - 1);
    } else {
        assert(s.skip(0) =~= s);
    }
}

/// Trimming trailing whitespace is the same from any all-whitespace suffix.
proof fn lemma_trim_back_take(s: Seq<char>, m: int)
    requires
        0 <= m <= s.len(),
        forall|j: int| m <= j < s.len() ==> spec_is_ws(s[j]),
    ensures
        spec_trim_back(s) == spec_trim_back(s.take(m)),
    decreases s.len() - m,
{
    if m < s.len() {
        assert(spec_is_ws(s.last()));
        assert(s.drop_last() =~= s.take(s.len() - 1));
        assert(s.take(s.len() - 1).take(m) =~= s.take(m));
        lemma_trim_back_take(s.take(s.len() - 1), m);
    } else {
        assert(s.take(m) =~= s);
    }
}

/// The boolean-word key of a string: its ASCII lowercase with surrounding
/// ASCII whitespace removed.
fn bool_key(s: &str) -> (r: String)
    ensures
        r@ == spec_bool_key(s@),
{
    let n = s.unicode_len();
    let mut start: usize = 0;
    while start < n
        invariant
            s@.len() == n,
            start <= n,
            forall|j: int| 0 <= j < start ==> spec_is_ws(s@[j]),
        ensures
            start <= n,
            forall|j: int| 0 <= j < start ==> spec_is_ws(s@[j]),
            start < n ==> !spec_is_ws(s@[start as int]),
        decreases n - start,
    {
        let c = s.get_char(start);
        if !(c == ' ' || c == '\t' || c == '\n' || c == '\r') {
            break ;
        }
        start = start + 1;
    }
    proof {
        lemma_trim_front_skip(s@, start as int);
        if start < n {
            assert(s@.skip(start as int)[0] == s@[start as int]);
        } else {
            assert(s@.skip(start as int) =~= Seq::<char>::empty());
        }
        assert(spec_trim_front(s@) == s@.skip(start as int));
    }
    let ghost t = s@.skip(start as int);
    let mut end: usize = n;
    while end > start
        invariant
            s@.len() == n,
            start <= end <= n,
            t == s@.skip(start as int),
            forall|j: int| end <= j < n ==> spec_is_ws(s@[j]),
        ensures
            start <= end <= n,
            forall|j: int| end <= j < n ==> spec_is_ws(s@[j]),
            end > start ==> !spec_is_ws(s@[end - 1]),
        decreases end,
    {
        let c = s.get_char(end - 1);
        if !(c == ' ' || c == '\t' || c == '\n' || c == '\r') {
            break ;
        }
        end = end - 1;
    }
    proof {
        assert(forall|j: int| end - start <= j < t.len() ==> spec_is_ws(#[trigger] t[j]));
        lemma_trim_back_take(t, end - start);
        if end > start {
            assert(t.take(end - start).last() == s@[end - 1]);
            assert(spec_trim_back(t.take(end - start)) == t.take(end - start));
        } else {
            assert(t.take(0) =~= Seq::<char>::empty());
        }
        assert(spec_trim_back(t) == t.take(end - start));
    }
    let ghost w = t.take(end - start);
    let mut out = String::new();
    let mut i: usize = start;
    proof {
        assert(w.skip(0) =~= w);
        assert(Seq::<char>::empty() + spec_lower(w) =~= spec_lower(w));
    }
    while i < end
        invariant
            s@.len() == n,
            start <= i <= end <= n,
            w == s@.skip(start as int).take(end - start),
            out@ + spec_lower(w.skip(i - start)) == spec_lower(w),
        decreases end - i,
    {
        let c = s.get_char(i);
        proof {
            assert(w.skip(i - start)[0] == s@[i as int]);
            assert(w.skip(i - start).skip(1) =~= w.skip(i + 1 - start));
        }
        let ghost prev = out@;
        let u = c as u32;
        if 65 <= u && u <= 90 {
            push_char(&mut out, ((u + 32) as u8) as char);
        } else {
            push_char(&mut out, c);
        }
        proof {
            assert(out@ =~= prev + seq![spec_lower_char(c)]);
            assert(prev + (seq![spec_lower_char(c)] + spec_lower(w.skip(i + 1 - start))) =~= out@
                + spec_lower(w.skip(i + 1 - start)));
        }
        i = i + 1;
    }
    proof {
        assert(w.skip(end - start) =~= Seq::<char>::empty());
        assert(out@ + spec_lower(w.skip(end - start)) =~= out@);
    }
    out
}

/// Cache invalidation request.
#[derive(Debug, Clone)]
pub struct InvalidateRequest {
    /// Which caches to invalidate.
    pub invalidate_type: InvalidationType,
}

/// Kind of invalidation operation.
#[derive(Debug, Clone, PartialEq, Eq, Structural)]
pub enum InvalidationType {
    /// Drop every cached token and minter.
    Caches,
    /// Force every cached integrity token to report as expired.
    IntegrityToken,
}

impl InvalidateRequest {
    /// Creates an invalidation request of the given kind.
    pub fn new(invalidate_type: InvalidationType) -> (r: InvalidateRequest)
        ensures
            r.invalidate_type == invalidate_type,
    {
        InvalidateRequest { invalidate_type }
    }

    /// Creates a full cache invalidation request.
    pub fn caches() -> (r: InvalidateRequest)
        ensures
            r.invalidate_type == InvalidationType::Caches,
    {
        InvalidateRequest::new(InvalidationType::Caches)
    }

    /// Creates an integrity token invalidation request.
    pub fn integrity_token() -> (r: InvalidateRequest)
        ensures
            r.invalidate_type == InvalidationType::IntegrityToken,
    {
        InvalidateRequest::new(InvalidationType::IntegrityToken)
    }
}

} // verus!
