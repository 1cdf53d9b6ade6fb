//! Error taxonomy for the token pipeline.
//!
//! Transient transport failures are `Network` (retryable); a malformed remote
//! response shape is `Protocol`; script or engine failures are `Sandbox`;
//! a rejected or malformed credential exchange is `Credential`; a failed mint
//! is `Session`; the remaining kinds cover the visitor-data collaborator,
//! challenge retrieval and configuration.

use vstd::prelude::*;

verus! {

/// Malformed remote response shape: the caller must re-fetch, not retry blindly.
#[derive(Debug, Clone)]
pub enum ProtocolError {
    /// A positional response array held fewer elements than the protocol requires.
    InsufficientData { expected: usize, actual: usize },
    /// A positional element did not have the expected type.
    UnexpectedField { index: usize },
}

/// The credential exchange was rejected or returned a malformed body.
#[derive(Debug, Clone)]
pub enum CredentialError {
    /// The response array held no elements.
    Empty,
    /// The response body was not an array, or its first element was not a token string.
    InvalidFormat,
}

/// Script or engine failure inside the sandbox: requires re-initialization.
#[derive(Debug, Clone)]
pub enum SandboxError {
    /// The named global object was absent after loading the vendor program.
    VmNotFound,
    /// The engine was used before its interpreter script was loaded.
    NotInitialized,
    /// The interpreter or program script itself failed.
    ScriptFailure { message: String },
}

/// Top-level error for every operation of the library.
#[derive(Debug, Clone)]
pub enum Error {
    /// Transient transport failure (timeout, connect, DNS); retryable.
    Network { message: String },
    /// Malformed remote response shape.
    Protocol(ProtocolError),
    /// Script or engine failure.
    Sandbox(SandboxError),
    /// Credential exchange rejected or malformed.
    Credential(CredentialError),
    /// Minting failed: empty identifier or empty engine output.
    Session { message: String },
    /// The visitor-data collaborator failed or returned an unusable value.
    VisitorData { reason: String },
    /// Challenge retrieval or interpreter download failed.
    Challenge { message: String },
    /// Invalid configuration value.
    Config { message: String },
}

impl Error {
    /// Build a `Network` error.
    pub fn network(message: String) -> (e: Error)
        ensures
            e == (Error::Network { message }),
    {
        Error::Network { message }
    }

    /// Build a `Session` error.
    pub fn session(message: String) -> (e: Error)
        ensures
            e == (Error::Session { message }),
    {
        Error::Session { message }
    }

    /// Build a `VisitorData` error.
    pub fn visitor_data(reason: String) -> (e: Error)
        ensures
            e == (Error::VisitorData { reason }),
    {
        Error::VisitorData { reason }
    }

    /// Build a `Challenge` error.
    pub fn challenge(message: String) -> (e: Error)
        ensures
            e == (Error::Challenge { message }),
    {
        Error::Challenge { message }
    }

    /// Build a `Config` error.
    pub fn config(message: String) -> (e: Error)
        ensures
            e == (Error::Config { message }),
    {
        Error::Config { message }
    }

    /// The category label used for logging and metrics.
    pub open spec fn spec_category(&self) -> Seq<char> {
        match self {
            Error::Network { .. } => "network"@,
            Error::Protocol(..) => "protocol"@,
            Error::Sandbox(..) => "sandbox"@,
            Error::Credential(..) => "credential"@,
            Error::Session { .. } => "session"@,
            Error::VisitorData { .. } => "visitor_data"@,
            Error::Challenge { .. } => "challenge"@,
            Error::Config { .. } => "config"@,
        }
    }

    /// Category label for logging and metrics.
    pub fn category(&self) -> (r: &'static str)
        ensures
            r@ == self.spec_category(),
    {
        match self {
            Error::Network { .. } => "network",
            Error::Protocol(..) => "protocol",
            Error::Sandbox(..) => "sandbox",
            Error::Credential(..) => "credential",
            Error::Session { .. } => "session",
            Error::VisitorData { .. } => "visitor_data",
            Error::Challenge { .. } => "challenge",
            Error::Config { .. } => "config",
        }
    }

    /// Whether a failed operation may be retried as-is. Only transport
    /// failures are; a malformed response or script failure would fail again.
    pub fn is_retryable(&self) -> (r: bool)
        ensures
            r == (self is Network),
    {
        match self {
            Error::Network { .. } => true,
            _ => false,
        }
    }
}

/// The prefix that `format_error` puts before an error's detail text.
pub open spec fn spec_error_prefix(e: &Error) -> Seq<char> {
    match e {
        Error::Network { .. } => "Network error: "@,
        Error::Protocol(..) => "Protocol error: "@,
        Error::Sandbox(..) => "Sandbox error: "@,
        Error::Credential(..) => "Credential error: "@,
        Error::Session { .. } => "Session error: "@,
        Error::VisitorData { .. } => "Visitor data generation failed: "@,
        Error::Challenge { .. } => "Challenge processing failed: "@,
        Error::Config { .. } => "Configuration error: "@,
    }
}

/// The detail text that `format_error` puts after the prefix.
pub open spec fn spec_error_detail(e: &Error) -> Seq<char> {
    match e {
        Error::Network { message } => message@,
        Error::Protocol(p) => match p {
            ProtocolError::InsufficientData { .. } => "insufficient data"@,
            ProtocolError::UnexpectedField { .. } => "unexpected field"@,
        },
        Error::Sandbox(s) => match s {
            SandboxError::VmNotFound => "vm not found"@,
            SandboxError::NotInitialized => "not initialized"@,
            SandboxError::ScriptFailure { message } => message@,
        },
        Error::Credential(c) => match c {
            CredentialError::Empty => "empty response"@,
            CredentialError::InvalidFormat => "invalid format"@,
        },
        Error::Session { message } => message@,
        Error::VisitorData { reason } => reason@,
        Error::Challenge { message } => message@,
        Error::Config { message } => message@,
    }
}

/// One-line rendering of an error for transport responses and logs.
pub fn format_error(error: &Error) -> (r: String)
    ensures
        r@ == spec_error_prefix(error) + spec_error_detail(error),
{
    let prefix: &str = match error {
        Error::Network { .. } => "Network error: ",
        Error::Protocol(..) => "Protocol error: ",
        Error::Sandbox(..) => "Sandbox error: ",
        Error::Credential(..) => "Credential error: ",
        Error::Session { .. } => "Session error: ",
        Error::VisitorData { .. } => "Visitor data generation failed: ",
        Error::Challenge { .. } => "Challenge processing failed: ",
        Error::Config { .. } => "Configuration error: ",
    };
    let detail: &str = match error {
        Error::Network { message } => message.as_str(),
        Error::Protocol(p) => match p {
            ProtocolError::InsufficientData { .. } => "insufficient data",
            ProtocolError::UnexpectedField { .. } => "unexpected field",
        },
        Error::Sandbox(s) => match s {
            SandboxError::VmNotFound => "vm not found",
            SandboxError::NotInitialized => "not initialized",
            SandboxError::ScriptFailure { message } => message.as_str(),
        },
        Error::Credential(c) => match c {
            CredentialError::Empty => "empty response",
            CredentialError::InvalidFormat => "invalid format",
        },
        Error::Session { message } => message.as_str(),
        Error::VisitorData { reason } => reason.as_str(),
        Error::Challenge { message } => message.as_str(),
        Error::Config { message } => message.as_str(),
    };
    String::from_str(prefix).concat(detail)
}

} // verus!
