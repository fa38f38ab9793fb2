//! The one storage key that the harness interprets.

use vstd::prelude::*;

verus! {

/// The bytes of the reserved storage key under which a ledger keeps its
/// executable program: the ASCII text `:code`.
pub open spec fn code_key() -> Seq<u8> {
    seq![0x3au8, 0x63u8, 0x6fu8, 0x64u8, 0x65u8]
}

/// Returns the reserved code key.
///
/// Trusted: reads the constant `sp_core::storage::well_known_keys::CODE`,
/// which is the byte string `:code` (`0x3A636F6465`), and copies it into a
/// vector.
#[verifier::external_body]
pub(crate) fn well_known_code_key() -> (key: Vec<u8>)
    ensures
        key@ == code_key(),
{
    sp_core::storage::well_known_keys::CODE.to_vec()
}

/// The reserved storage key whose value is the executable program.
pub fn reserved_code_key() -> (key: Vec<u8>)
    ensures
        key@ == code_key(),
{
    well_known_code_key()
}

} // verus!
