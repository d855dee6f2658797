//! The raw passport dump: the fixed-offset data-group blobs, the signed
//! payload chain, and the issuer's detached signature. The container format
//! is parsed elsewhere; the core only consumes byte slices at documented
//! offsets.

use vstd::prelude::*;
use crate::digest::{sha256, sha256_of};

verus! {

/// A raw passport dump, as handed over by the dump source.
///
/// `dg1` holds the machine-readable zone, `dg2` the biometrics blob.
/// `pre_econtent` is the security object carrying the data-group digests,
/// `econtent` the signed attributes carrying the security object's digest,
/// and `sig` the issuer's signature over the digest of `econtent`.
#[derive(Clone)]
pub struct PassportDump {
    pub dg1: Vec<u8>,
    pub dg2: Vec<u8>,
    pub pre_econtent: Vec<u8>,
    pub econtent: Vec<u8>,
    pub sig: Vec<u8>,
}

impl PassportDump {
    /// The digest the issuer actually signed: SHA-256 of the signed
    /// attributes.
    pub fn econtent_hash(&self) -> (r: Vec<u8>)
        ensures
            r@ == sha256_of(self.econtent@),
            r@.len() == 32,
    {
        sha256(&self.econtent)
    }
}

} // verus!
