//! The ways in which a replay can fail.

use vstd::prelude::*;

verus! {

/// A failure reported by the execution engine while invoking an entry point.
#[derive(Clone, Copy, Debug, PartialEq, Eq, Structural)]
pub enum EngineError {
    /// The installed program does not expose the requested entry point.
    EntryPointNotFound,
    /// Running the entry point would cost more than the budget allows.
    ResourceExhausted,
    /// The program faulted: an invalid memory access, arguments that do not
    /// decode, or a deliberate abort.
    Trap,
}

/// A failure that ends a replay.
#[derive(Clone, Copy, Debug, PartialEq, Eq, Structural)]
pub enum ReplayError {
    /// No block reference or header endpoint can be derived from the command.
    AmbiguousReference,
    /// The remote peer could not be reached, or did not answer in time.
    SourceUnreachable,
    /// The block reference does not name a block that the peer knows.
    BlockNotFound,
    /// The snapshot image cannot be decoded, or a section of it is missing.
    CorruptSnapshot,
    /// The execution engine failed; its error is carried unchanged.
    Engine(EngineError),
}

} // verus!
