//! Conditions that are reported to the operator and do not end a replay.

use vstd::prelude::*;
use crate::version::VersionReport;

verus! {

/// One of the two programs of a substitution.
#[derive(Clone, Copy, Debug, PartialEq, Eq, Structural)]
pub enum Side {
    /// The program that the state came with.
    Original,
    /// The program that was installed in its place.
    Candidate,
}

/// A warning. It is recorded for the operator, and the replay goes on.
#[derive(Clone, Copy, Debug, PartialEq, Eq, Structural)]
pub enum Advisory {
    /// The header and the state are pinned to two different blocks.
    InconsistentReference,
    /// The state came without a program under the reserved code key.
    MissingCode,
    /// The version of one program could not be read or decoded.
    VersionDecodeFailed(Side),
    /// The versions of the two programs differ.
    VersionMismatch(VersionReport),
}

} // verus!
