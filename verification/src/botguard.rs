//! Sandbox client: lifecycle decisions around the script engine.
//!
//! The engine itself is not thread-safe and runs behind a single-writer
//! actor in the embedding application; every operation there is a message to
//! that actor. What is verified here is the decision layer around that
//! engine: a mint may only start once the client is initialized,
//! snapshot persistence is allowed only when configured, expiry falls back to
//! a fixed multi-hour window when the engine exposes none, and an empty
//! snapshot signal list falls back to the single default minter reference.

use vstd::prelude::*;
use vstd::string::StrSliceExecFns;
use vstd::string::StringExecFns;

use crate::error::{Error, SandboxError};

verus! {

/// Fallback lifetime, in seconds, for an engine that exposes no expiry.
pub const DEFAULT_SANDBOX_LIFETIME_SECS: u32 = 21600;

/// The default minter signal reference used when a snapshot yields none.
pub fn default_mint_signal_ref() -> (r: String)
    ensures
        r@ == "webPoMinter"@,
{
    String::from_str("webPoMinter")
}

/// A mint work order for the engine actor: everything the engine needs to
/// solve the challenge and mint a token for one identifier.
#[derive(Debug, Clone)]
pub struct MintJob {
    /// The identifier to bind the token to.
    pub identifier: String,
    /// Snapshot file path for warm starts, if configured.
    pub snapshot_path: Option<String>,
    /// Custom user agent, if configured.
    pub user_agent: Option<String>,
}

/// Client configuration and lifecycle state for the sandboxed engine.
#[derive(Debug, Clone)]
pub struct BotGuardClient {
    /// Snapshot file path for warm starts, if configured.
    pub snapshot_path: Option<String>,
    /// Custom user agent, if configured.
    pub user_agent: Option<String>,
    /// Whether the client configuration has been initialized.
    pub initialized: bool,
}

impl BotGuardClient {
    /// Whether the client has been initialized.
    pub open spec fn spec_initialized(&self) -> bool {
        self.initialized
    }

    /// Creates an uninitialized client with the given configuration.
    pub fn new(snapshot_path: Option<String>, user_agent: Option<String>) -> (r: BotGuardClient)
        ensures
            r.snapshot_path == snapshot_path,
            r.user_agent == user_agent,
            !r.spec_initialized(),
    {
        BotGuardClient { snapshot_path, user_agent, initialized: false }
    }

    /// Marks the client configuration as initialized; engine instances are
    /// created on demand by the actor.
    pub fn initialize(&mut self) -> (r: Result<(), Error>)
        ensures
            final(self).spec_initialized(),
            final(self).snapshot_path == old(self).snapshot_path,
            final(self).user_agent == old(self).user_agent,
            r is Ok,
    {
        self.initialized = true;
        Ok(())
    }

    /// Whether the client has been initialized.
    pub fn is_initialized(&self) -> (r: bool)
        ensures
            r == self.spec_initialized(),
    {
        self.initialized
    }

    /// Builds the mint work order for an identifier. Minting before
    /// initialization is refused, and minting for an empty identifier always
    /// fails with a session error: the engine actor never sees either
    /// request.
    pub fn prepare_mint(&self, identifier: &str) -> (r: Result<MintJob, Error>)
        ensures
            !self.spec_initialized() ==> (r matches Err(e) && e matches Error::Sandbox(
                SandboxError::NotInitialized,
            )),
            (self.spec_initialized() && identifier@.len() == 0) ==> (r matches Err(e)
                && e is Session),
            (self.spec_initialized() && identifier@.len() > 0) ==> (r matches Ok(job)
                && job.identifier@ == identifier@ && job.snapshot_path == self.snapshot_path
                && job.user_agent == self.user_agent),
    {
        if !self.initialized {
            return Err(Error::Sandbox(SandboxError::NotInitialized));
        }
        if identifier.unicode_len() == 0 {
            return Err(Error::session(String::from_str("cannot mint for an empty identifier")));
        }
        Ok(
            MintJob {
                identifier: String::from_str(identifier),
                snapshot_path: clone_opt_string(&self.snapshot_path),
                user_agent: clone_opt_string(&self.user_agent),
            },
        )
    }

    /// Whether saving a warm-start snapshot is allowed: only for an
    /// initialized client with a configured path. Saving is best-effort;
    /// a disallowed or failed save is not an error.
    pub fn snapshot_save_allowed(&self) -> (r: bool)
        ensures
            r == (self.spec_initialized() && self.snapshot_path is Some),
    {
        self.initialized && matches!(self.snapshot_path, Some(_))
    }

    /// Expiry information, given what the engine reported. An uninitialized
    /// client has none; an initialized one falls back to the fixed window
    /// when the engine exposes no expiry of its own.
    pub fn expiry_info(&self, engine_expiry: Option<(i64, u32)>, now_unix: i64) -> (r: Option<
        (i64, u32),
    >)
        requires
            0 <= now_unix <= i64::MAX - DEFAULT_SANDBOX_LIFETIME_SECS,
        ensures
            !self.spec_initialized() ==> r is None,
            self.spec_initialized() && engine_expiry is Some ==> r == engine_expiry,
            self.spec_initialized() && engine_expiry is None ==> r == Some(
                (
                    (now_unix + DEFAULT_SANDBOX_LIFETIME_SECS) as i64,
                    DEFAULT_SANDBOX_LIFETIME_SECS,
                ),
            ),
    {
        if !self.initialized {
            return None;
        }
        match engine_expiry {
            Some(info) => Some(info),
            None => Some((now_unix + DEFAULT_SANDBOX_LIFETIME_SECS as i64, DEFAULT_SANDBOX_LIFETIME_SECS)),
        }
    }

    /// Whether the engine is expired at the given time: true once the valid
    /// time is reached, and for a client without expiry information.
    pub fn is_expired(&self, valid_until: Option<i64>, now_unix: i64) -> (r: bool)
        ensures
            r == match valid_until {
                Some(v) => now_unix >= v,
                None => true,
            },
    {
        match valid_until {
            Some(v) => now_unix >= v,
            None => true,
        }
    }

    /// Seconds until the engine expires, zero once expired; `None` without
    /// expiry information.
    pub fn time_until_expiry(&self, valid_until: Option<i64>, now_unix: i64) -> (r: Option<i64>)
        requires
            now_unix >= 0,
        ensures
            r == match valid_until {
                Some(v) => Some(if now_unix >= v { 0i64 } else { (v - now_unix) as i64 }),
                None => None::<i64>,
            },
    {
        match valid_until {
            Some(v) => if now_unix >= v {
                Some(0)
            } else {
                Some(v - now_unix)
            },
            None => None,
        }
    }
}

/// The signal references from a snapshot, or the single default minter
/// reference when the snapshot yielded none.
pub fn signal_refs_or_default(parsed: Option<Vec<String>>) -> (r: Vec<String>)
    ensures
        (parsed is Some && parsed->0@.len() > 0) ==> r == parsed->0,
        (parsed is None || parsed->0@.len() == 0) ==> r@.len() == 1 && r@[0]@ == "webPoMinter"@,
        r@.len() > 0,
{
    match parsed {
        Some(v) => {
            if v.len() > 0 {
                v
            } else {
                let mut out: Vec<String> = Vec::new();
                out.push(default_mint_signal_ref());
                out
            }
        },
        None => {
            let mut out: Vec<String> = Vec::new();
            out.push(default_mint_signal_ref());
            out
        },
    }
}

/// Copy of an optional string; field-by-field, so the result is known equal.
pub(crate) fn clone_opt_string(o: &Option<String>) -> (r: Option<String>)
    ensures
        r == *o,
{
    match o {
        Some(s) => Some(s.clone()),
        None => None,
    }
}

/// Legacy manager facade kept for compatibility with existing callers.
#[derive(Debug)]
pub struct BotGuardManager {
    /// The wrapped client.
    pub client: BotGuardClient,
}

impl BotGuardManager {
    /// Creates the facade around a bare client.
    pub fn new() -> (r: BotGuardManager)
        ensures
            !r.client.spec_initialized(),
    {
        BotGuardManager { client: BotGuardClient::new(None, None) }
    }

    /// Configuration label for diagnostics.
    pub fn get_manager_info(&self) -> (r: (String, bool))
        ensures
            r.0@ == "legacy_manager"@,
            r.1,
    {
        (String::from_str("legacy_manager"), true)
    }
}

/// Arguments for a snapshot call into the engine.
#[derive(Debug)]
pub struct SnapshotArgs<'a> {
    /// Content binding, if the snapshot is bound to one.
    pub content_binding: Option<&'a str>,
    /// Signed timestamp to embed.
    pub signed_timestamp: Option<u64>,
    /// Signal output buffer carried for compatibility.
    pub webpo_signal_output: Option<&'a str>,
    /// Whether to skip the privacy buffer.
    pub skip_privacy_buffer: Option<bool>,
}

} // verus!
