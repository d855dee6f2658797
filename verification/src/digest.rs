//! Trusted boundary to the cryptographic primitives: the SHA-256 digest and
//! the randomness source. Everything else in the crate is verified against
//! the names and lengths stated here.

use vstd::prelude::*;
use sha2::{Digest, Sha256};

verus! {

/// The SHA-256 digest of a byte string. The digest itself is far too long to
/// state; the name records only that it is a function of the input bytes.
pub uninterp spec fn sha256_of(data: Seq<u8>) -> Seq<u8>;

/// Relies on sha2's `Sha256::digest`: the digest depends on the input bytes
/// alone and is 32 bytes long.
#[verifier::external_body]
pub(crate) fn sha256(data: &Vec<u8>) -> (r: Vec<u8>)
    ensures
        r@ == sha256_of(data@),
        r@.len() == 32,
{
    Sha256::digest(data.as_slice()).to_vec()
}

/// Relies on rand's `fill`: the buffer is filled from the thread-local
/// generator. Nothing is promised of the values beyond their count.
#[verifier::external_body]
pub(crate) fn random_bytes32() -> (r: Vec<u8>)
    ensures
        r@.len() == 32,
{
    let mut buf = [0u8; 32];
    rand::fill(&mut buf[..]);
    buf.to_vec()
}

} // verus!
