//! The commitment layer: binds an attribute record to a hiding, binding
//! commitment under the canonical public parameters, using the record's own
//! freshly random nonce.

use vstd::prelude::*;
use crate::bytes::append_bytes;
use crate::digest::{sha256, sha256_of};
use crate::params::{passport_com_param, spec_passport_com_param};
use crate::passport_info::{spec_canonical_bytes, PersonalInfo};

verus! {

/// The commitment to a record under `params`: the digest of the parameters,
/// the nonce, and the record's canonical serialization, in that order.
/// Hiding and binding rest on the digest's assumptions.
pub open spec fn spec_commitment(params: Seq<u8>, info: PersonalInfo) -> Seq<u8> {
    sha256_of(params + info.nonce@ + spec_canonical_bytes(info))
}

impl PersonalInfo {
    /// Commits to this record under the canonical public parameters. The
    /// commitment is a pure function of the parameters and the record
    /// (nonce included): committing the same record twice yields the same
    /// value.
    pub fn commit(&self) -> (r: Vec<u8>)
        ensures
            r@ == spec_commitment(spec_passport_com_param(), *self),
            r@.len() == 32,
    {
        let mut buf = passport_com_param();
        append_bytes(&mut buf, &self.nonce);
        let ser = self.to_bytes();
        append_bytes(&mut buf, &ser);
        proof {
            assert(buf@ =~= spec_passport_com_param() + self.nonce@ + spec_canonical_bytes(
                *self,
            ));
        }
        sha256(&buf)
    }
}

/// True iff the two records hold the same attribute values, nonce included,
/// whatever their concrete representation.
pub open spec fn same_attributes(a: PersonalInfo, b: PersonalInfo) -> bool {
    &&& a.nonce@ == b.nonce@
    &&& a.seed@ == b.seed@
    &&& a.nationality@ == b.nationality@
    &&& a.name@ == b.name@
    &&& a.dob == b.dob
    &&& a.passport_expiry == b.passport_expiry
    &&& a.biometrics.blob@ == b.biometrics.blob@
}

/// Commitment determinism: two records with the same attribute values (same
/// nonce) commit to the same value under the same parameters.
pub proof fn lemma_commitment_deterministic(params: Seq<u8>, a: PersonalInfo, b: PersonalInfo)
    requires
        same_attributes(a, b),
    ensures
        spec_commitment(params, a) == spec_commitment(params, b),
{
    assert(spec_canonical_bytes(a) == spec_canonical_bytes(b));
}

} // verus!
