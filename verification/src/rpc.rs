//! Wire protocol of the two remote RPCs.
//!
//! Both endpoints speak positional JSON arrays. Outbound bodies are built
//! here character by character, so the exact shape is part of the contract;
//! inbound bodies are read through `serde_json` behind small trusted
//! wrappers, converted once into plain `RpcValue` items, and every decision
//! about them is made by verified code.

use vstd::prelude::*;
use vstd::string::StrSliceExecFns;
use vstd::string::StringExecFns;

use crate::base64::push_char;
use crate::error::{CredentialError, Error, ProtocolError};
use crate::internal::{DescrambledChallenge, TrustedScript};

verus! {

/// One element of a positional RPC array, reduced to plain values.
#[derive(Debug, Clone)]
pub enum RpcValue {
    /// A JSON string.
    Text(String),
    /// A JSON non-negative integer.
    Number(u64),
    /// A JSON boolean.
    Flag(bool),
    /// JSON null.
    Null,
    /// An array, object, or a number outside the non-negative integer range.
    Composite,
}

/// A whole RPC response body, reduced to plain values.
#[derive(Debug, Clone)]
pub enum RpcBody {
    /// The body was not a JSON array (or not JSON at all).
    NotArray,
    /// The body was an array with these elements.
    Items(Vec<RpcValue>),
}

/// An integrity credential with its TTL and refresh metadata.
#[derive(Debug, Clone)]
pub struct Credential {
    /// Opaque base64 credential token.
    pub integrity_token: String,
    /// Estimated lifetime in seconds; defaults to 3600 when the exchange
    /// omits it.
    pub estimated_ttl_secs: u64,
    /// Refresh threshold in seconds; defaults to 1800 when the exchange
    /// omits it.
    pub mint_refresh_threshold_secs: u64,
    /// Web-safe fallback token, if the exchange sent one.
    pub websafe_fallback_token: Option<String>,
}

/// Lifetime assumed for a credential whose response carried no TTL.
pub const DEFAULT_CREDENTIAL_TTL_SECS: u64 = 3600;

/// Refresh threshold assumed for a credential whose response carried none.
pub const DEFAULT_REFRESH_THRESHOLD_SECS: u64 = 1800;

/// How many leading elements a challenge response array must have.
pub const CHALLENGE_RESPONSE_MIN_FIELDS: usize = 5;

/// Parses the credential RPC response. The body must be an array; an empty
/// array is `CredentialError::Empty`; a first element that is not a string is
/// `CredentialError::InvalidFormat`; missing TTL and refresh threshold take
/// their defaults.
pub fn parse_credential_response(body: &RpcBody) -> (r: Result<Credential, Error>)
    ensures
        body is NotArray ==> r == Err::<Credential, Error>(
            Error::Credential(CredentialError::InvalidFormat),
        ),
        (body matches RpcBody::Items(items) && items@.len() == 0) ==> r == Err::<
            Credential,
            Error,
        >(Error::Credential(CredentialError::Empty)),
        (body matches RpcBody::Items(items) && items@.len() > 0 && !(items@[0] is Text)) ==> r
            == Err::<Credential, Error>(Error::Credential(CredentialError::InvalidFormat)),
        (body matches RpcBody::Items(items) && items@.len() > 0 && items@[0] is Text) ==> (r
            matches Ok(c) && {
            let items = body->Items_0;
            &&& c.integrity_token == items@[0]->Text_0
            &&& c.estimated_ttl_secs == (if items@.len() > 1 && items@[1] is Number {
                items@[1]->Number_0
            } else {
                DEFAULT_CREDENTIAL_TTL_SECS
            })
            &&& c.mint_refresh_threshold_secs == (if items@.len() > 2 && items@[2] is Number {
                items@[2]->Number_0
            } else {
                DEFAULT_REFRESH_THRESHOLD_SECS
            })
            &&& c.websafe_fallback_token == (if items@.len() > 3 && items@[3] is Text {
                Some(items@[3]->Text_0)
            } else {
                None::<String>
            })
        }),
{
    let items = match body {
        RpcBody::NotArray => {
            return Err(Error::Credential(CredentialError::InvalidFormat));
        },
        RpcBody::Items(items) => items,
    };
    if items.len() == 0 {
        return Err(Error::Credential(CredentialError::Empty));
    }
    let integrity_token = match &items[0] {
        RpcValue::Text(t) => t.clone(),
        _ => {
            return Err(Error::Credential(CredentialError::InvalidFormat));
        },
    };
    let estimated_ttl_secs: u64 = if items.len() > 1 {
        match &items[1] {
            RpcValue::Number(n) => *n,
            _ => DEFAULT_CREDENTIAL_TTL_SECS,
        }
    } else {
        DEFAULT_CREDENTIAL_TTL_SECS
    };
    let mint_refresh_threshold_secs: u64 = if items.len() > 2 {
        match &items[2] {
            RpcValue::Number(n) => *n,
            _ => DEFAULT_REFRESH_THRESHOLD_SECS,
        }
    } else {
        DEFAULT_REFRESH_THRESHOLD_SECS
    };
    let websafe_fallback_token: Option<String> = if items.len() > 3 {
        match &items[3] {
            RpcValue::Text(t) => Some(t.clone()),
            _ => None,
        }
    } else {
        None
    };
    Ok(
        Credential {
            integrity_token,
            estimated_ttl_secs,
            mint_refresh_threshold_secs,
            websafe_fallback_token,
        },
    )
}

/// Parses the challenge RPC response array into a descrambled challenge.
/// Fewer than five elements is `ProtocolError::InsufficientData`; a wrongly
/// typed required element is `ProtocolError::UnexpectedField`; a missing or
/// wrongly typed experiments blob (index five) is tolerated as absent.
pub fn parse_challenge_response(items: &Vec<RpcValue>) -> (r: Result<DescrambledChallenge, Error>)
    ensures
        items@.len() < CHALLENGE_RESPONSE_MIN_FIELDS ==> r == Err::<DescrambledChallenge, Error>(
            Error::Protocol(
                ProtocolError::InsufficientData {
                    expected: CHALLENGE_RESPONSE_MIN_FIELDS,
                    actual: items@.len() as usize,
                },
            ),
        ),
        r matches Ok(c) ==> {
            &&& items@.len() >= CHALLENGE_RESPONSE_MIN_FIELDS
            &&& c.message_id == (if items@[0] is Text {
                Some(items@[0]->Text_0)
            } else {
                None::<String>
            })
            &&& items@[1] is Text
                && c.interpreter_javascript.private_do_not_access_or_else_safe_script_wrapped_value@
                == items@[1]->Text_0@
            &&& items@[2] is Text && c.interpreter_hash == items@[2]->Text_0
            &&& items@[3] is Text && c.program == items@[3]->Text_0
            &&& items@[4] is Text && c.global_name == items@[4]->Text_0
            &&& c.client_experiments_state_blob == (if items@.len() > 5 && items@[5] is Text {
                Some(items@[5]->Text_0)
            } else {
                None::<String>
            })
        },
        (r is Err && items@.len() >= CHALLENGE_RESPONSE_MIN_FIELDS) ==> (!(items@[1] is Text) || !(
        items@[2] is Text) || !(items@[3] is Text) || !(items@[4] is Text)),
        (r is Err && items@.len() >= CHALLENGE_RESPONSE_MIN_FIELDS) ==> (r->Err_0
            matches Error::Protocol(p) && p is UnexpectedField),
{
    if items.len() < CHALLENGE_RESPONSE_MIN_FIELDS {
        return Err(
            Error::Protocol(
                ProtocolError::InsufficientData {
                    expected: CHALLENGE_RESPONSE_MIN_FIELDS,
                    actual: items.len(),
                },
            ),
        );
    }
    let message_id: Option<String> = match &items[0] {
        RpcValue::Text(m) => Some(m.clone()),
        _ => None,
    };
    let interpreter_js = match &items[1] {
        RpcValue::Text(js) => js.clone(),
        _ => {
            return Err(Error::Protocol(ProtocolError::UnexpectedField { index: 1 }));
        },
    };
    let interpreter_hash = match &items[2] {
        RpcValue::Text(h) => h.clone(),
        _ => {
            return Err(Error::Protocol(ProtocolError::UnexpectedField { index: 2 }));
        },
    };
    let program = match &items[3] {
        RpcValue::Text(p) => p.clone(),
        _ => {
            return Err(Error::Protocol(ProtocolError::UnexpectedField { index: 3 }));
        },
    };
    let global_name = match &items[4] {
        RpcValue::Text(g) => g.clone(),
        _ => {
            return Err(Error::Protocol(ProtocolError::UnexpectedField { index: 4 }));
        },
    };
    let client_experiments_state_blob: Option<String> = if items.len() > 5 {
        match &items[5] {
            RpcValue::Text(b) => Some(b.clone()),
            _ => None,
        }
    } else {
        None
    };
    Ok(
        DescrambledChallenge {
            message_id,
            interpreter_javascript: TrustedScript::new(interpreter_js.as_str(), ""),
            interpreter_hash,
            program,
            global_name,
            client_experiments_state_blob,
        },
    )
}

/// How a challenge is to be obtained for one request.
#[derive(Debug)]
pub enum ChallengePlan {
    /// Try the authenticated endpoint first; on any failure there, fall
    /// through to the caller-supplied challenge or the anonymous endpoint
    /// rather than propagating the error.
    TryPrimaryFirst,
    /// Use the challenge the caller supplied.
    UseProvided(crate::request::Challenge),
    /// Call the anonymous fallback endpoint.
    UseFallback,
}

/// Decides where the challenge comes from: the authenticated endpoint is
/// attempted only when it is not disabled and a client context was supplied;
/// otherwise a caller-supplied challenge wins, and the anonymous endpoint is
/// the last resort.
pub fn plan_challenge_retrieval(
    explicit_challenge: Option<crate::request::Challenge>,
    has_context: bool,
    disable_primary: bool,
) -> (r: ChallengePlan)
    ensures
        (!disable_primary && has_context) ==> r is TryPrimaryFirst,
        ((disable_primary || !has_context) && explicit_challenge is Some) ==> (r matches
            ChallengePlan::UseProvided(c) && c == explicit_challenge->0),
        ((disable_primary || !has_context) && explicit_challenge is None) ==> r is UseFallback,
{
    if !disable_primary && has_context {
        return ChallengePlan::TryPrimaryFirst;
    }
    match explicit_challenge {
        Some(challenge) => ChallengePlan::UseProvided(challenge),
        None => ChallengePlan::UseFallback,
    }
}

/// Accepts or rejects a downloaded interpreter script: a non-success status
/// or an empty body is a challenge error; anything else is the script text.
pub fn accept_interpreter_script(status_ok: bool, body: String) -> (r: Result<String, Error>)
    ensures
        (!status_ok || body@.len() == 0) ==> (r matches Err(e) && e is Challenge),
        (status_ok && body@.len() > 0) ==> r == Ok::<String, Error>(body),
{
    if !status_ok {
        return Err(Error::challenge(String::from_str("interpreter download failed")));
    }
    if body.as_str().unicode_len() == 0 {
        return Err(Error::challenge(String::from_str("interpreter download was empty")));
    }
    Ok(body)
}

/// Rewrites a protocol-relative interpreter URL (`//host/path`) to `https:`;
/// any other URL is returned unchanged.
pub fn normalize_interpreter_url(url: &str) -> (r: String)
    ensures
        url@.len() >= 2 && url@[0] == '/' && url@[1] == '/' ==> r@ == "https:"@ + url@,
        !(url@.len() >= 2 && url@[0] == '/' && url@[1] == '/') ==> r@ == url@,
{
    let n = url.unicode_len();
    if n >= 2 && url.get_char(0) == '/' && url.get_char(1) == '/' {
        String::from_str("https:").concat(url)
    } else {
        String::from_str(url)
    }
}

/// Hexadecimal digit for a value below sixteen.
pub open spec fn spec_hex_digit(v: int) -> char {
    if v < 10 {
        ((48 + v) as u8) as char
    } else {
        ((87 + v) as u8) as char
    }
}

/// JSON escape of one character inside a string literal.
pub open spec fn json_escaped_char(c: char) -> Seq<char> {
    if c == '"' {
        seq!['\\', '"']
    } else if c == '\\' {
        seq!['\\', '\\']
    } else if (c as u32) < 32 {
        seq!['\\', 'u', '0', '0', spec_hex_digit((c as u32) as int / 16), spec_hex_digit((c as u32) as int % 16)]
    } else {
        seq![c]
    }
}

/// JSON escape of a whole string body.
pub open spec fn json_escaped(s: Seq<char>) -> Seq<char>
    decreases s.len(),
{
    if s.len() == 0 {
        Seq::empty()
    } else {
        json_escaped_char(s[0]) + json_escaped(s.skip(1))
    }
}

/// A quoted JSON string literal.
pub open spec fn json_quoted(s: Seq<char>) -> Seq<char> {
    seq!['"'] + json_escaped(s) + seq!['"']
}

/// The tail of a JSON array: a comma and a string literal for each element.
pub open spec fn json_items_rest(items: Seq<Seq<char>>) -> Seq<char>
    decreases items.len(),
{
    if items.len() == 0 {
        Seq::empty()
    } else {
        seq![','] + json_quoted(items[0]) + json_items_rest(items.skip(1))
    }
}

/// A JSON array of string literals.
pub open spec fn json_string_array(items: Seq<Seq<char>>) -> Seq<char> {
    seq!['['] + (if items.len() == 0 {
        Seq::<char>::empty()
    } else {
        json_quoted(items[0]) + json_items_rest(items.skip(1))
    }) + seq![']']
}

/// Hexadecimal digit for a value below sixteen.
fn hex_digit(v: u32) -> (c: char)
    requires
        v < 16,
    ensures
        c == spec_hex_digit(v as int),
{
    if v < 10 {
        ((48 + v) as u8) as char
    } else {
        ((87 + v) as u8) as char
    }
}

/// Appends the JSON escape of `s` to `out`.
fn append_json_escaped(out: &mut String, s: &str)
    ensures
        final(out)@ == old(out)@ + json_escaped(s@),
{
    let n = s.unicode_len();
    let mut i: usize = 0;
    proof {
        assert(s@.skip(0) =~= s@);
    }
    while i < n
        invariant
            s@.len() == n,
            i <= n,
            out@ + json_escaped(s@.skip(i as int)) == old(out)@ + json_escaped(s@),
        decreases n - i,
    {
        let c = s.get_char(i);
        proof {
            assert(s@.skip(i as int)[0] == c);
            assert(s@.skip(i as int).skip(1) =~= s@.skip(i + 1));
        }
        let ghost prev = out@;
        if c == '"' {
            push_char(out, '\\');
            push_char(out, '"');
        } else if c == '\\' {
            push_char(out, '\\');
            push_char(out, '\\');
        } else if (c as u32) < 32 {
            let u = c as u32;
            push_char(out, '\\');
            push_char(out, 'u');
            push_char(out, '0');
            push_char(out, '0');
            push_char(out, hex_digit(u / 16));
            push_char(out, hex_digit(u % 16));
        } else {
            push_char(out, c);
        }
        proof {
            assert(out@ =~= prev + json_escaped_char(c));
            assert(prev + (json_escaped_char(c) + json_escaped(s@.skip(i + 1))) =~= out@
                + json_escaped(s@.skip(i + 1)));
        }
        i = i + 1;
    }
    proof {
        assert(s@.skip(n as int) =~= Seq::<char>::empty());
        assert(out@ + json_escaped(s@.skip(n as int)) =~= out@);
    }
}

/// Appends a quoted JSON string literal for `s` to `out`.
fn append_json_quoted(out: &mut String, s: &str)
    ensures
        final(out)@ == old(out)@ + json_quoted(s@),
{
    let ghost start = out@;
    push_char(out, '"');
    append_json_escaped(out, s);
    push_char(out, '"');
    proof {
        assert(out@ =~= start + json_quoted(s@));
    }
}

/// Builds a positional JSON array of strings, the exact body shape both
/// remote RPCs expect.
pub fn build_json_string_array(items: &Vec<String>) -> (r: String)
    ensures
        r@ == json_string_array(items@.map_values(|s: String| s@)),
{
    let ghost views = items@.map_values(|s: String| s@);
    let mut out = String::new();
    push_char(&mut out, '[');
    if items.len() > 0 {
        append_json_quoted(&mut out, items[0].as_str());
        let mut i: usize = 1;
        proof {
            assert(out@ =~= seq!['['] + json_quoted(views[0]));
            assert(views.skip(1).skip(0) =~= views.skip(1));
        }
        while i < items.len()
            invariant
                views == items@.map_values(|s: String| s@),
                views.len() == items@.len(),
                1 <= i <= items@.len(),
                out@ + json_items_rest(views.skip(i as int)) == seq!['['] + json_quoted(views[0])
                    + json_items_rest(views.skip(1)),
            decreases items@.len() - i,
        {
            let ghost prev = out@;
            push_char(&mut out, ',');
            append_json_quoted(&mut out, items[i].as_str());
            proof {
                assert(views.skip(i as int)[0] == views[i as int]);
                assert(views.skip(i as int).skip(1) =~= views.skip(i + 1));
                assert(out@ =~= prev + (seq![','] + json_quoted(views[i as int])));
                assert(prev + (seq![','] + json_quoted(views[i as int]) + json_items_rest(
                    views.skip(i + 1),
                )) =~= out@ + json_items_rest(views.skip(i + 1)));
                assert(json_items_rest(views.skip(i as int)) == seq![','] + json_quoted(
                    views[i as int],
                ) + json_items_rest(views.skip(i + 1)));
            }
            i = i + 1;
        }
        proof {
            assert(views.skip(items@.len() as int) =~= Seq::<Seq<char>>::empty());
            assert(out@ + json_items_rest(views.skip(items@.len() as int)) =~= out@);
        }
    }
    let ghost before_close = out@;
    push_char(&mut out, ']');
    proof {
        if views.len() == 0 {
            assert(out@ =~= json_string_array(views));
        } else {
            assert(out@ =~= json_string_array(views));
        }
    }
    out
}

/// The challenge RPC request body: the positional array `[request_key]`,
/// extended with the interpreter hash when one is known.
pub fn build_challenge_request(request_key: &str, interpreter_hash: Option<&str>) -> (r: String)
    ensures
        interpreter_hash is None ==> r@ == json_string_array(seq![request_key@]),
        interpreter_hash matches Some(h) ==> r@ == json_string_array(seq![request_key@, h@]),
{
    let mut items: Vec<String> = Vec::new();
    items.push(String::from_str(request_key));
    if let Some(h) = interpreter_hash {
        items.push(String::from_str(h));
    }
    proof {
        if interpreter_hash is Some {
            assert(items@.map_values(|s: String| s@) =~= seq![
                request_key@,
                interpreter_hash->0@,
            ]);
        } else {
            assert(items@.map_values(|s: String| s@) =~= seq![request_key@]);
        }
    }
    build_json_string_array(&items)
}

/// The credential RPC request body: the positional array
/// `[request_key, sandbox_response]`.
pub fn build_credential_request(request_key: &str, sandbox_response: &str) -> (r: String)
    ensures
        r@ == json_string_array(seq![request_key@, sandbox_response@]),
{
    let mut items: Vec<String> = Vec::new();
    items.push(String::from_str(request_key));
    items.push(String::from_str(sandbox_response));
    proof {
        assert(items@.map_values(|s: String| s@) =~= seq![request_key@, sandbox_response@]);
    }
    build_json_string_array(&items)
}

} // verus!
