//! The digest primitive behind the commitment scheme.
//!
//! The digest is SHA-256, computed by an outside implementation; this module
//! only names its result, so that contracts can say "the SHA-256 of these
//! bytes" without restating the algorithm.

use vstd::prelude::*;

verus! {

/// The SHA-256 digest of a byte sequence: 32 bytes determined by the input
/// alone.
pub uninterp spec fn sha256_of(data: Seq<u8>) -> Seq<u8>;

/// Relies on sha2's `Sha256` (`Digest::digest`, "Compute hash of `data`"):
/// the SHA-256 digest of the input, a 32-byte value that depends on the
/// input bytes alone, computed for any input without failing.
#[verifier::external_body]
pub(crate) fn sha256(data: &Vec<u8>) -> (r: Vec<u8>)
    ensures
        r@ == sha256_of(data@),
        r@.len() == 32,
{
    <sha2::Sha256 as sha2::Digest>::digest(data.as_slice()).to_vec()
}

} // verus!
