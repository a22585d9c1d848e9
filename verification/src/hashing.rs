//! The cryptographic digest the copy verification rests on.

use vstd::prelude::*;
use sha2::Digest;

verus! {

/// The lowercase hexadecimal SHA-256 digest of a byte sequence. What
/// the digest's value is would take the whole SHA-256 specification to
/// state, so it is only named here: the engine relies on the digest
/// being a function of the bytes alone, never on a particular value.
pub uninterp spec fn sha256_hex_of(data: Seq<u8>) -> Seq<char>;

/// Relies on sha2's `Sha256` (through `Digest::digest`) and on
/// generic-array's `LowerHex`: the digest depends on the input bytes
/// alone, and `{:x}` renders its 32 bytes as 64 lowercase hexadecimal
/// characters.
#[verifier::external_body]
pub(crate) fn sha256_hex(data: &[u8]) -> (r: String)
    ensures
        r@ == sha256_hex_of(data@),
        r@.len() == 64,
{
    format!("{:x}", sha2::Sha256::digest(data))
}

} // verus!
