//! Sandbox lifecycle: the state machine around the isolated script engine.
//!
//! The engine loads the interpreter once, then a vendor program, and only
//! then can snapshots be taken. The engine executions themselves happen in
//! the single-writer actor of the embedding application; each transition
//! here takes that execution's outcome and decides the next state, so the
//! ordering rules — no program before the interpreter, no snapshot before
//! the program — are verified.

use vstd::prelude::*;
use vstd::string::StringExecFns;

use crate::botguard::signal_refs_or_default;
use crate::error::{Error, SandboxError};

verus! {

/// Lifecycle phase of a sandbox. The terminal shutdown is not modeled; a
/// sandbox lives for the process lifetime of its engine.
#[derive(Debug, Clone, Copy, PartialEq, Eq, Structural)]
pub enum SandboxPhase {
    /// No interpreter has been loaded.
    Uninitialized,
    /// The interpreter ran; no vendor program is loaded yet.
    Loaded,
    /// A vendor program is loaded; snapshots may be taken.
    Ready,
}

/// The sandbox state: its phase and the global scope name of the loaded
/// program.
#[derive(Debug, Clone)]
pub struct Sandbox {
    /// Current lifecycle phase.
    pub phase: SandboxPhase,
    /// Global scope name of the loaded program, once one is loaded.
    pub global_name: Option<String>,
}

impl Sandbox {
    /// A fresh sandbox with nothing loaded.
    pub fn new() -> (r: Sandbox)
        ensures
            r.phase == SandboxPhase::Uninitialized,
            r.global_name is None,
    {
        Sandbox { phase: SandboxPhase::Uninitialized, global_name: None }
    }

    /// Records the outcome of executing the interpreter source. A throwing
    /// script is a sandbox error and leaves the sandbox uninitialized.
    pub fn initialize(&mut self, interpreter_ok: bool) -> (r: Result<(), Error>)
        requires
            old(self).phase == SandboxPhase::Uninitialized,
        ensures
            interpreter_ok ==> final(self).phase == SandboxPhase::Loaded && r is Ok,
            !interpreter_ok ==> final(self).phase == SandboxPhase::Uninitialized && (r matches Err(
                e,
            ) && e matches Error::Sandbox(SandboxError::ScriptFailure { .. })),
            final(self).global_name == old(self).global_name,
    {
        if !interpreter_ok {
            return Err(
                Error::Sandbox(
                    SandboxError::ScriptFailure {
                        message: String::from_str("interpreter script failed"),
                    },
                ),
            );
        }
        self.phase = SandboxPhase::Loaded;
        Ok(())
    }

    /// Records the outcome of loading a vendor program: when the engine
    /// found the named global in scope, the sandbox becomes ready; an absent
    /// global is the missing-engine error and the phase does not advance.
    pub fn load_program(&mut self, global_name: String, global_found: bool) -> (r: Result<
        (),
        Error,
    >)
        requires
            old(self).phase == SandboxPhase::Loaded,
        ensures
            global_found ==> final(self).phase == SandboxPhase::Ready && final(self).global_name
                == Some(global_name) && r is Ok,
            !global_found ==> final(self).phase == SandboxPhase::Loaded && final(self).global_name
                == old(self).global_name && (r matches Err(e) && e matches Error::Sandbox(
                SandboxError::VmNotFound,
            )),
    {
        if !global_found {
            return Err(Error::Sandbox(SandboxError::VmNotFound));
        }
        self.global_name = Some(global_name);
        self.phase = SandboxPhase::Ready;
        Ok(())
    }

    /// Whether the interpreter has been loaded.
    pub fn is_initialized(&self) -> (r: bool)
        ensures
            r == (self.phase != SandboxPhase::Uninitialized),
    {
        !matches!(self.phase, SandboxPhase::Uninitialized)
    }

    /// Interprets a snapshot outcome: only a ready sandbox snapshots, and a
    /// snapshot that yielded no signal function names falls back to the
    /// single default minter reference rather than failing.
    pub fn snapshot_signal_refs(&self, parsed_refs: Option<Vec<String>>) -> (r: Result<
        Vec<String>,
        Error,
    >)
        ensures
            self.phase != SandboxPhase::Ready ==> (r matches Err(e) && e matches Error::Sandbox(
                SandboxError::NotInitialized,
            )),
            self.phase == SandboxPhase::Ready ==> (r matches Ok(refs) && refs@.len() > 0),
            (self.phase == SandboxPhase::Ready && parsed_refs is Some && parsed_refs->0@.len() > 0)
                ==> r == Ok::<Vec<String>, Error>(parsed_refs->0),
            (self.phase == SandboxPhase::Ready && (parsed_refs is None || parsed_refs->0@.len()
                == 0)) ==> (r matches Ok(refs) && refs@.len() == 1 && refs@[0]@ == "webPoMinter"@),
    {
        if !matches!(self.phase, SandboxPhase::Ready) {
            return Err(Error::Sandbox(SandboxError::NotInitialized));
        }
        Ok(signal_refs_or_default(parsed_refs))
    }
}

} // verus!
