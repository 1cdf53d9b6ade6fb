//! Proof-of-origin token provider.
//!
//! The library obtains short-lived anti-automation tokens by solving a
//! vendor-issued script challenge inside a sandboxed engine, exchanging the
//! result for a time-limited integrity credential, and minting per-identifier
//! tokens from that credential. Two expiring caches amortize the work: one
//! keyed by content binding (finished tokens), one keyed by network context
//! (credential and minter).
//!
//! Network transport, the script engine itself, command-line handling and
//! configuration files live in the embedding application; this crate holds
//! the protocol, cache and lifecycle logic, with contracts checked by Verus.

pub mod base64;
pub mod botguard;
pub mod cache;
pub mod config;
pub mod error;
pub mod internal;
pub mod json;
pub mod manager;
pub mod request;
pub mod response;
pub mod rpc;
pub mod sandbox;
pub mod webpo_minter;

pub use config::Settings;
pub use error::{format_error, CredentialError, Error, ProtocolError, SandboxError};
pub use manager::SessionManager;
pub use request::PotRequest;
pub use response::{ErrorResponse, PingResponse, PotResponse};
