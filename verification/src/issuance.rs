//! The issuance protocol: a holder packages a request around a proof of the
//! hash-checker predicate; an issuer grants a credential only when both the
//! proof and the issuer signature check out.
//!
//! Proof generation and proof/signature verification are external
//! capabilities: the holder's proving backend supplies the proof bytes, and
//! the issuer's backends supply the two verdicts that the grant decision
//! consumes.

use vstd::prelude::*;
use crate::bytes::clone_bytes;
use crate::commitment::spec_commitment;
use crate::digest::sha256_of;
use crate::errors::CodecError;
use crate::params::{
    spec_passport_com_param, DATE_LEN, DG1_MIN_LEN, DOB_OFFSET, EXPIRY_OFFSET, NAME_LEN,
    NAME_OFFSET, NATIONALITY_OFFSET, STATE_ID_LEN,
};
use crate::passport_dump::PassportDump;
use crate::passport_info::{decoded_date, valid_date_digits, PersonalInfo};

verus! {

/// A bare credential: the commitment value that enters the accumulator
/// after successful issuance.
pub type Credential = Vec<u8>;

/// One issuance attempt: the disclosed commitment, the digest the issuer
/// signed, the issuer's signature, and the hash-checker proof.
#[derive(Clone)]
pub struct IssuanceReq {
    pub attrs_com: Vec<u8>,
    pub econtent_hash: Vec<u8>,
    pub sig: Vec<u8>,
    pub hash_proof: Vec<u8>,
}

/// Why an issuance attempt was rejected. The two reasons are never
/// conflated: an invalid proof and an invalid signature indicate different
/// attacker capabilities.
#[derive(Clone, Copy, Debug, PartialEq, Eq, Structural)]
pub enum RejectionReason {
    /// The zero-knowledge proof did not verify against the public inputs.
    ProofInvalid,
    /// The issuer's signature over the signed digest did not verify.
    SignatureInvalid,
}

/// With their passport, a holder builds an attribute record and packages an
/// issuance request around `hash_proof`, the proving backend's proof for the
/// hash-checker predicate. Fails only on malformed local input, never
/// silently: no request is emitted from bad data.
pub fn user_req_issuance(
    dump: &PassportDump,
    today: u32,
    max_valid_years: u32,
    hash_proof: Vec<u8>,
) -> (r: Result<(PersonalInfo, IssuanceReq), CodecError>)
    requires
        today + max_valid_years * 10000 <= u32::MAX,
    ensures
        r is Ok <==> (dump.dg1@.len() >= DG1_MIN_LEN && valid_date_digits(
            dump.dg1@.subrange(DOB_OFFSET as int, DOB_OFFSET + DATE_LEN),
        ) && valid_date_digits(
            dump.dg1@.subrange(EXPIRY_OFFSET as int, EXPIRY_OFFSET + DATE_LEN),
        )),
        r matches Ok(pair) ==> {
            &&& pair.0.wf()
            &&& pair.0.nationality@ == dump.dg1@.subrange(
                NATIONALITY_OFFSET as int,
                NATIONALITY_OFFSET + STATE_ID_LEN,
            )
            &&& pair.0.name@ == dump.dg1@.subrange(NAME_OFFSET as int, NAME_OFFSET + NAME_LEN)
            &&& pair.0.dob == decoded_date(
                dump.dg1@.subrange(DOB_OFFSET as int, DOB_OFFSET + DATE_LEN),
                today,
            )
            &&& pair.0.passport_expiry == decoded_date(
                dump.dg1@.subrange(EXPIRY_OFFSET as int, EXPIRY_OFFSET + DATE_LEN),
                (today + max_valid_years * 10000) as u32,
            )
            &&& pair.0.biometrics.blob@ == dump.dg2@
            &&& pair.1.attrs_com@ == spec_commitment(spec_passport_com_param(), pair.0)
            &&& pair.1.econtent_hash@ == sha256_of(dump.econtent@)
            &&& pair.1.sig@ == dump.sig@
            &&& pair.1.hash_proof@ == hash_proof@
        },
        dump.dg1@.len() < DG1_MIN_LEN ==> r == Err::<(PersonalInfo, IssuanceReq), CodecError>(
            CodecError::TruncatedData,
        ),
        r is Err && dump.dg1@.len() >= DG1_MIN_LEN ==> r == Err::<
            (PersonalInfo, IssuanceReq),
            CodecError,
        >(CodecError::MalformedDate),
{
    let my_info = match PersonalInfo::from_passport(dump, today, max_valid_years) {
        Ok(info) => info,
        Err(e) => {
            return Err(e);
        },
    };
    let attrs_com = my_info.commit();
    let econtent_hash = dump.econtent_hash();
    let req = IssuanceReq {
        attrs_com,
        econtent_hash,
        sig: clone_bytes(&dump.sig),
        hash_proof,
    };
    Ok((my_info, req))
}

/// The issuer's grant decision. `proof_accepted` is the proving backend's
/// verdict on the hash-checker proof against the issuer-side public inputs;
/// `signature_accepted` is the signature capability's verdict on
/// `(sig, econtent_hash)` under the trusted authority's key.
///
/// Issuance is atomic: a credential is returned exactly when both
/// independent checks succeed, and each failure is reported under its own
/// reason, the proof checked first.
pub fn check_issuance(req: &IssuanceReq, proof_accepted: bool, signature_accepted: bool) -> (r:
    Result<Credential, RejectionReason>)
    ensures
        r is Ok <==> (proof_accepted && signature_accepted),
        r matches Ok(c) ==> c@ == req.attrs_com@,
        !proof_accepted ==> r == Err::<Credential, RejectionReason>(RejectionReason::ProofInvalid),
        proof_accepted && !signature_accepted ==> r == Err::<Credential, RejectionReason>(
            RejectionReason::SignatureInvalid,
        ),
{
    if !proof_accepted {
        return Err(RejectionReason::ProofInvalid);
    }
    if !signature_accepted {
        return Err(RejectionReason::SignatureInvalid);
    }
    Ok(clone_bytes(&req.attrs_com))
}

} // verus!
