//! The minter: a capability bound to a credential and an engine callback,
//! able to mint a token for any identifier without repeating the challenge
//! and credential exchange.
//!
//! The engine itself lives outside this crate; the handle here either runs
//! in test mode with fixed output, or marks an engine that the embedding
//! application drives. The pure halves of minting — input validation, the
//! credential decode, and the web-safe encoding of raw output — are verified
//! here and shared by both paths.

use vstd::prelude::*;
use vstd::string::StrSliceExecFns;
use vstd::string::StringExecFns;

use crate::base64::{b64_decode_seq, b64_encode_websafe, b64_valid, base64_decode,
    base64_encode_websafe};
use crate::error::{Error, SandboxError};
use crate::rpc::Credential;

verus! {

/// The fixed bytes a test-mode engine hands back for any call.
pub open spec fn test_engine_output() -> Seq<u8> {
    seq![0x12u8, 0x34u8, 0x56u8, 0x78u8]
}

/// Handle describing a script engine.
#[derive(Debug, Clone, Copy)]
pub struct JsRuntimeHandle {
    /// Test mode: calls yield fixed bytes instead of reaching an engine.
    pub test_mode: bool,
    /// Whether a real engine is attached behind this handle.
    pub real_execution_enabled: bool,
}

impl JsRuntimeHandle {
    /// Creates a test-mode handle.
    pub fn new_for_test() -> (r: JsRuntimeHandle)
        ensures
            r.test_mode,
            !r.real_execution_enabled,
    {
        JsRuntimeHandle { test_mode: true, real_execution_enabled: false }
    }

    /// Creates a handle that stands for an engine driven by the embedding
    /// application.
    pub fn new_simplified() -> (r: JsRuntimeHandle)
        ensures
            !r.test_mode,
            r.real_execution_enabled,
    {
        JsRuntimeHandle { test_mode: false, real_execution_enabled: true }
    }

    /// Whether the handle is initialized. A constructed handle always is.
    pub fn is_initialized(&self) -> (r: bool)
        ensures
            r,
    {
        true
    }

    /// Whether the handle can execute script through a real engine.
    pub fn can_execute_script(&self) -> (r: bool)
        ensures
            r == self.real_execution_enabled,
    {
        self.real_execution_enabled
    }

    /// Calls a function reference with a byte array. In test mode this yields
    /// the fixed test bytes; otherwise the call must go through the engine
    /// actor of the embedding application, so it fails here.
    pub fn call_function_with_bytes(&self, function_name: &str, bytes: &[u8]) -> (r: Result<
        Vec<u8>,
        Error,
    >)
        ensures
            self.test_mode ==> (r matches Ok(out) && out@ == test_engine_output()),
            !self.test_mode ==> (r matches Err(e) && e matches Error::Sandbox(
                SandboxError::NotInitialized,
            )),
    {
        if self.test_mode {
            let mut out: Vec<u8> = Vec::new();
            out.push(0x12);
            out.push(0x34);
            out.push(0x56);
            out.push(0x78);
            proof {
                assert(out@ =~= test_engine_output());
            }
            Ok(out)
        } else {
            Err(Error::Sandbox(SandboxError::NotInitialized))
        }
    }
}

/// A minting capability: an engine callback reference bound to a credential.
#[derive(Debug, Clone)]
pub struct WebPoMinter {
    /// Reference to the mint callback inside the engine.
    pub mint_callback_ref: String,
    /// Handle of the engine the callback lives in.
    pub runtime_handle: JsRuntimeHandle,
}

impl WebPoMinter {
    /// Binds a callback reference to an engine handle.
    pub fn new(mint_callback_ref: String, runtime_handle: JsRuntimeHandle) -> (r: WebPoMinter)
        ensures
            r.mint_callback_ref == mint_callback_ref,
            r.runtime_handle == runtime_handle,
    {
        WebPoMinter { mint_callback_ref, runtime_handle }
    }

    /// Derives a minter from a credential and the signal references of a
    /// snapshot. Fails with a session error when no signal reference is
    /// available or the credential is not canonical base64; otherwise binds
    /// the first reference, through which the engine registers the mint
    /// callback when handed the decoded credential.
    pub fn create(credential: &Credential, signal_refs: &Vec<String>, runtime_handle:
        JsRuntimeHandle) -> (r: Result<(WebPoMinter, Vec<u8>), Error>)
        ensures
            signal_refs@.len() == 0 ==> (r matches Err(e) && e is Session),
            signal_refs@.len() > 0 && !b64_valid(credential.integrity_token@) ==> (r matches Err(e)
                && e is Session),
            signal_refs@.len() > 0 && b64_valid(credential.integrity_token@) ==> (r matches Ok(p)
                && p.0.mint_callback_ref@ == signal_refs@[0]@ && p.0.runtime_handle
                == runtime_handle && p.1@ == b64_decode_seq(credential.integrity_token@)),
    {
        if signal_refs.len() == 0 {
            return Err(Error::session(String::from_str("no signal references from snapshot")));
        }
        let credential_bytes = match base64_decode(credential.integrity_token.as_str()) {
            Ok(bytes) => bytes,
            Err(_) => {
                return Err(
                    Error::session(String::from_str("credential is not canonical base64")),
                );
            },
        };
        let minter = WebPoMinter { mint_callback_ref: signal_refs[0].clone(), runtime_handle };
        Ok((minter, credential_bytes))
    }

    /// Copy of the minter; field-by-field, so the result is known equal.
    pub fn duplicate(&self) -> (r: WebPoMinter)
        ensures
            r == *self,
    {
        WebPoMinter {
            mint_callback_ref: self.mint_callback_ref.clone(),
            runtime_handle: self.runtime_handle,
        }
    }

    /// Mints a web-safe token for an identifier. An empty identifier fails
    /// with a session error before any engine work; an empty engine result
    /// fails with a session error, never yielding an empty token.
    pub fn mint_websafe_string(&self, identifier: &str) -> (r: Result<String, Error>)
        ensures
            identifier@.len() == 0 ==> (r matches Err(e) && e is Session),
            r matches Ok(t) ==> t@.len() > 0,
            identifier@.len() > 0 && self.runtime_handle.test_mode ==> (r matches Ok(t) && t@
                == b64_encode_websafe(test_engine_output())),
            identifier@.len() > 0 && !self.runtime_handle.test_mode ==> r is Err,
    {
        if identifier.unicode_len() == 0 {
            return Err(Error::session(String::from_str("cannot mint for an empty identifier")));
        }
        let input = identifier.as_bytes_vec();
        let raw = match self.runtime_handle.call_function_with_bytes(
            self.mint_callback_ref.as_str(),
            input.as_slice(),
        ) {
            Ok(raw) => raw,
            Err(e) => {
                return Err(e);
            },
        };
        finish_mint(&raw)
    }

    /// Mints from already encoded identifier bytes, as the engine receives
    /// them. Same failure rules as `mint_websafe_string`.
    pub fn generate_pot_token(&self, identifier_bytes: &[u8]) -> (r: Result<String, Error>)
        ensures
            identifier_bytes@.len() == 0 ==> (r matches Err(e) && e is Session),
            r matches Ok(t) ==> t@.len() > 0,
            identifier_bytes@.len() > 0 && self.runtime_handle.test_mode ==> (r matches Ok(t) && t@
                == b64_encode_websafe(test_engine_output())),
            identifier_bytes@.len() > 0 && !self.runtime_handle.test_mode ==> r is Err,
    {
        if identifier_bytes.len() == 0 {
            return Err(Error::session(String::from_str("cannot mint for an empty identifier")));
        }
        let raw = match self.runtime_handle.call_function_with_bytes(
            self.mint_callback_ref.as_str(),
            identifier_bytes,
        ) {
            Ok(raw) => raw,
            Err(e) => {
                return Err(e);
            },
        };
        finish_mint(&raw)
    }
}

/// Accepts a token the engine minted as a finished string, or rejects empty
/// engine output with a session error: an explicit failure is returned
/// rather than an empty token.
pub fn accept_minted_token(po_token: String) -> (r: Result<String, Error>)
    ensures
        po_token@.len() == 0 ==> (r matches Err(e) && e is Session),
        po_token@.len() > 0 ==> r == Ok::<String, Error>(po_token),
        r matches Ok(t) ==> t@.len() > 0,
{
    if po_token.as_str().unicode_len() == 0 {
        return Err(Error::session(String::from_str("engine produced an empty token")));
    }
    Ok(po_token)
}

/// Turns raw engine output into the final web-safe token. Empty output is a
/// session error: an explicit failure is returned rather than an empty token.
pub fn finish_mint(raw: &Vec<u8>) -> (r: Result<String, Error>)
    ensures
        raw@.len() == 0 ==> (r matches Err(e) && e is Session),
        raw@.len() > 0 ==> (r matches Ok(t) && t@ == b64_encode_websafe(raw@)),
        r matches Ok(t) ==> t@.len() > 0,
{
    if raw.len() == 0 {
        return Err(Error::session(String::from_str("engine produced an empty token")));
    }
    let token = base64_encode_websafe(raw);
    Ok(token)
}

} // verus!
