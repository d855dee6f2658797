//! The hash-checker predicate: the condition an issuance proof must
//! establish. It ties the committed attribute record to the digest the
//! issuer actually signed, and enforces the issuer's policy on nationality
//! and expiry.
//!
//! The predicate instance has two construction sites: the holder builds it
//! from the full private dump (and can evaluate it natively), while the
//! issuer rebuilds only the public fields from a submitted request. Both
//! sites derive the public-input vector through one shared serialization.

use vstd::prelude::*;
use crate::bytes::{bytes_eq, clone_bytes, fe_bytes_u32, spec_fe_bytes, subrange_vec};
use crate::commitment::spec_commitment;
use crate::digest::{sha256, sha256_of};
use crate::issuance::IssuanceReq;
use crate::params::{
    spec_passport_com_param, DATE_LEN, DG1_HASH_OFFSET, DG1_MIN_LEN, DG2_HASH_OFFSET, DOB_OFFSET,
    ECONTENT_MIN_LEN, EXPIRY_OFFSET, HASH_LEN, NAME_LEN, NAME_OFFSET, NATIONALITY_OFFSET,
    PRE_ECONTENT_HASH_OFFSET, PRE_ECONTENT_MIN_LEN, STATE_ID_LEN,
};
use crate::passport_dump::PassportDump;
use crate::passport_info::{date_to_u32, decoded_date, valid_date_digits, PersonalInfo};

verus! {

/// One instance of the hash-checker predicate. The first four fields are
/// public; the last three are the witness payload, present only on the
/// holder side (the issuer leaves them empty and never re-witnesses).
pub struct PassportHashChecker {
    pub econtent_hash: Vec<u8>,
    pub issuing_state: Vec<u8>,
    pub today: u32,
    pub max_valid_years: u32,
    pub dg1: Vec<u8>,
    pub pre_econtent: Vec<u8>,
    pub econtent: Vec<u8>,
}

impl PassportHashChecker {
    /// Well-formedness: the public fields have their fixed widths and the
    /// expiry anchor is computable.
    pub open spec fn wf(&self) -> bool {
        &&& self.econtent_hash@.len() == HASH_LEN
        &&& self.issuing_state@.len() == STATE_ID_LEN
        &&& self.today + self.max_valid_years * 10000 <= u32::MAX
    }

    /// Holder-side construction: populates the witness from the full
    /// private dump and derives the signed digest from it.
    pub fn from_passport(
        dump: &PassportDump,
        issuing_state: &Vec<u8>,
        today: u32,
        max_valid_years: u32,
    ) -> (r: PassportHashChecker)
        requires
            issuing_state@.len() == STATE_ID_LEN,
            today + max_valid_years * 10000 <= u32::MAX,
        ensures
            r.wf(),
            r.econtent_hash@ == sha256_of(dump.econtent@),
            r.issuing_state@ == issuing_state@,
            r.today == today,
            r.max_valid_years == max_valid_years,
            r.dg1@ == dump.dg1@,
            r.pre_econtent@ == dump.pre_econtent@,
            r.econtent@ == dump.econtent@,
    {
        PassportHashChecker {
            econtent_hash: dump.econtent_hash(),
            issuing_state: clone_bytes(issuing_state),
            today,
            max_valid_years,
            dg1: clone_bytes(&dump.dg1),
            pre_econtent: clone_bytes(&dump.pre_econtent),
            econtent: clone_bytes(&dump.econtent),
        }
    }

    /// Issuer-side construction: rebuilds only the public fields available
    /// in a submitted request; the witness fields stay empty.
    pub fn from_issuance_req(
        req: &IssuanceReq,
        issuing_state: &Vec<u8>,
        today: u32,
        max_valid_years: u32,
    ) -> (r: PassportHashChecker)
        requires
            req.econtent_hash@.len() == HASH_LEN,
            issuing_state@.len() == STATE_ID_LEN,
            today + max_valid_years * 10000 <= u32::MAX,
        ensures
            r.wf(),
            r.econtent_hash@ == req.econtent_hash@,
            r.issuing_state@ == issuing_state@,
            r.today == today,
            r.max_valid_years == max_valid_years,
            r.dg1@ == Seq::<u8>::empty(),
            r.pre_econtent@ == Seq::<u8>::empty(),
            r.econtent@ == Seq::<u8>::empty(),
    {
        PassportHashChecker {
            econtent_hash: clone_bytes(&req.econtent_hash),
            issuing_state: clone_bytes(issuing_state),
            today,
            max_valid_years,
            dg1: Vec::new(),
            pre_econtent: Vec::new(),
            econtent: Vec::new(),
        }
    }

    /// The instance's public-input vector, from the shared serialization
    /// `spec_public_inputs`.
    pub fn public_inputs(&self) -> (r: Vec<u8>)
        ensures
            r@ == spec_public_inputs(
                self.econtent_hash@,
                self.issuing_state@,
                self.today,
                self.max_valid_years,
            ),
    {
        let mut buf = clone_bytes(&self.econtent_hash);
        let mut state = clone_bytes(&self.issuing_state);
        buf.append(&mut state);
        let mut today_bytes = fe_bytes_u32(self.today);
        buf.append(&mut today_bytes);
        let mut max_bytes = fe_bytes_u32(self.max_valid_years);
        buf.append(&mut max_bytes);
        proof {
            assert(buf@ =~= spec_public_inputs(
                self.econtent_hash@,
                self.issuing_state@,
                self.today,
                self.max_valid_years,
            ));
        }
        buf
    }

    /// Evaluates the predicate natively against the witnessed record and
    /// the disclosed commitment. Only the holder, who has the witness
    /// payload, can run this; it is the condition the zero-knowledge proof
    /// establishes towards the issuer.
    pub fn accepts(&self, info: &PersonalInfo, attrs_com: &Vec<u8>) -> (r: bool)
        requires
            self.wf(),
        ensures
            r == spec_accepts(*self, *info, attrs_com@),
    {
        if self.econtent.len() < ECONTENT_MIN_LEN {
            return false;
        }
        if self.pre_econtent.len() < PRE_ECONTENT_MIN_LEN {
            return false;
        }
        if self.dg1.len() < DG1_MIN_LEN {
            return false;
        }
        // step 1: recompute the signed digest from the payload
        let econtent_digest = sha256(&self.econtent);
        if !bytes_eq(&econtent_digest, &self.econtent_hash) {
            return false;
        }
        let pre_econtent_digest = sha256(&self.pre_econtent);
        let pre_econtent_slot = subrange_vec(
            &self.econtent,
            PRE_ECONTENT_HASH_OFFSET,
            PRE_ECONTENT_HASH_OFFSET + HASH_LEN,
        );
        if !bytes_eq(&pre_econtent_slot, &pre_econtent_digest) {
            return false;
        }
        let dg1_digest = sha256(&self.dg1);
        let dg1_slot = subrange_vec(&self.pre_econtent, DG1_HASH_OFFSET, DG1_HASH_OFFSET
            + HASH_LEN);
        if !bytes_eq(&dg1_slot, &dg1_digest) {
            return false;
        }
        // step 2: the committed biometrics digest is the one the payload holds
        let biometric_digest = info.biometrics.hash();
        let dg2_slot = subrange_vec(&self.pre_econtent, DG2_HASH_OFFSET, DG2_HASH_OFFSET
            + HASH_LEN);
        if !bytes_eq(&dg2_slot, &biometric_digest) {
            return false;
        }
        // the witnessed fields derive from data group 1
        let nationality = subrange_vec(&self.dg1, NATIONALITY_OFFSET, NATIONALITY_OFFSET
            + STATE_ID_LEN);
        if !bytes_eq(&info.nationality, &nationality) {
            return false;
        }
        let name = subrange_vec(&self.dg1, NAME_OFFSET, NAME_OFFSET + NAME_LEN);
        if !bytes_eq(&info.name, &name) {
            return false;
        }
        let dob_field = subrange_vec(&self.dg1, DOB_OFFSET, DOB_OFFSET + DATE_LEN);
        let dob = match date_to_u32(&dob_field, self.today) {
            Ok(d) => d,
            Err(_) => {
                return false;
            },
        };
        if info.dob != dob {
            return false;
        }
        let expiry_field = subrange_vec(&self.dg1, EXPIRY_OFFSET, EXPIRY_OFFSET + DATE_LEN);
        let expiry_not_after: u32 = self.today + self.max_valid_years * 10000;
        let expiry = match date_to_u32(&expiry_field, expiry_not_after) {
            Ok(d) => d,
            Err(_) => {
                return false;
            },
        };
        if info.passport_expiry != expiry {
            return false;
        }
        // step 3: policy — the trusted issuing state
        if !bytes_eq(&info.nationality, &self.issuing_state) {
            return false;
        }
        // step 4: policy — not expired
        if info.passport_expiry <= self.today {
            return false;
        }
        // step 5: the witnessed record's commitment is the disclosed one
        let com = info.commit();
        if !bytes_eq(&com, attrs_com) {
            return false;
        }
        true
    }
}

/// The shared public-input serialization used by both construction sites:
/// the signed digest, the trusted issuing state, and the field-element
/// encodings of the two policy constants, in that fixed order.
pub open spec fn spec_public_inputs(
    econtent_hash: Seq<u8>,
    issuing_state: Seq<u8>,
    today: u32,
    max_valid_years: u32,
) -> Seq<u8> {
    econtent_hash + issuing_state + spec_fe_bytes(today) + spec_fe_bytes(max_valid_years)
}

/// What the hash-checker predicate asserts, in full:
/// the payload is long enough to be addressed; the digest recomputed from
/// the signed payload equals the disclosed signed digest, chained through
/// the security object down to data group 1; the committed biometrics
/// digest is the very digest the signed payload consumed; the witnessed
/// fields derive from data group 1 under the canonical date decoding; the
/// nationality equals the trusted issuing state; the expiry lies after
/// `today`; and the witnessed record commits to the disclosed commitment.
pub open spec fn spec_accepts(chk: PassportHashChecker, info: PersonalInfo, com: Seq<u8>) -> bool {
    &&& chk.econtent@.len() >= ECONTENT_MIN_LEN
    &&& chk.pre_econtent@.len() >= PRE_ECONTENT_MIN_LEN
    &&& chk.dg1@.len() >= DG1_MIN_LEN
    &&& sha256_of(chk.econtent@) == chk.econtent_hash@
    &&& chk.econtent@.subrange(
        PRE_ECONTENT_HASH_OFFSET as int,
        PRE_ECONTENT_HASH_OFFSET + HASH_LEN,
    ) == sha256_of(chk.pre_econtent@)
    &&& chk.pre_econtent@.subrange(DG1_HASH_OFFSET as int, DG1_HASH_OFFSET + HASH_LEN)
        == sha256_of(chk.dg1@)
    &&& chk.pre_econtent@.subrange(DG2_HASH_OFFSET as int, DG2_HASH_OFFSET + HASH_LEN)
        == sha256_of(info.biometrics.blob@)
    &&& info.nationality@ == chk.dg1@.subrange(
        NATIONALITY_OFFSET as int,
        NATIONALITY_OFFSET + STATE_ID_LEN,
    )
    &&& info.name@ == chk.dg1@.subrange(NAME_OFFSET as int, NAME_OFFSET + NAME_LEN)
    &&& valid_date_digits(chk.dg1@.subrange(DOB_OFFSET as int, DOB_OFFSET + DATE_LEN))
    &&& valid_date_digits(chk.dg1@.subrange(EXPIRY_OFFSET as int, EXPIRY_OFFSET + DATE_LEN))
    &&& info.dob == decoded_date(
        chk.dg1@.subrange(DOB_OFFSET as int, DOB_OFFSET + DATE_LEN),
        chk.today,
    )
    &&& info.passport_expiry == decoded_date(
        chk.dg1@.subrange(EXPIRY_OFFSET as int, EXPIRY_OFFSET + DATE_LEN),
        (chk.today + chk.max_valid_years * 10000) as u32,
    )
    &&& info.nationality@ == chk.issuing_state@
    &&& info.passport_expiry > chk.today
    &&& spec_commitment(spec_passport_com_param(), info) == com
}

/// Construction symmetry: the holder-side instance (whose signed digest is
/// derived from the payload) and the issuer-side instance (whose signed
/// digest is taken from the request) serialize to identical public-input
/// vectors whenever the request carries the payload's digest.
pub proof fn lemma_public_inputs_agree(
    econtent: Seq<u8>,
    req_econtent_hash: Seq<u8>,
    issuing_state: Seq<u8>,
    today: u32,
    max_valid_years: u32,
)
    requires
        req_econtent_hash == sha256_of(econtent),
    ensures
        spec_public_inputs(sha256_of(econtent), issuing_state, today, max_valid_years)
            == spec_public_inputs(req_econtent_hash, issuing_state, today, max_valid_years),
{
}

/// A genuine passport is accepted: when the signed payload's digest chain
/// is intact, the witnessed record derives from data group 1 as the codec
/// decodes it, the policy on nationality and expiry holds, and the
/// commitment is the record's, the predicate accepts.
pub proof fn lemma_genuine_passport_accepted(
    chk: PassportHashChecker,
    info: PersonalInfo,
    com: Seq<u8>,
)
    requires
        chk.econtent@.len() >= ECONTENT_MIN_LEN,
        chk.pre_econtent@.len() >= PRE_ECONTENT_MIN_LEN,
        chk.dg1@.len() >= DG1_MIN_LEN,
        chk.econtent_hash@ == sha256_of(chk.econtent@),
        chk.econtent@.subrange(PRE_ECONTENT_HASH_OFFSET as int, PRE_ECONTENT_HASH_OFFSET
            + HASH_LEN) == sha256_of(chk.pre_econtent@),
        chk.pre_econtent@.subrange(DG1_HASH_OFFSET as int, DG1_HASH_OFFSET + HASH_LEN)
            == sha256_of(chk.dg1@),
        chk.pre_econtent@.subrange(DG2_HASH_OFFSET as int, DG2_HASH_OFFSET + HASH_LEN)
            == sha256_of(info.biometrics.blob@),
        info.nationality@ == chk.dg1@.subrange(
            NATIONALITY_OFFSET as int,
            NATIONALITY_OFFSET + STATE_ID_LEN,
        ),
        info.name@ == chk.dg1@.subrange(NAME_OFFSET as int, NAME_OFFSET + NAME_LEN),
        valid_date_digits(chk.dg1@.subrange(DOB_OFFSET as int, DOB_OFFSET + DATE_LEN)),
        valid_date_digits(chk.dg1@.subrange(EXPIRY_OFFSET as int, EXPIRY_OFFSET + DATE_LEN)),
        info.dob == decoded_date(
            chk.dg1@.subrange(DOB_OFFSET as int, DOB_OFFSET + DATE_LEN),
            chk.today,
        ),
        info.passport_expiry == decoded_date(
            chk.dg1@.subrange(EXPIRY_OFFSET as int, EXPIRY_OFFSET + DATE_LEN),
            (chk.today + chk.max_valid_years * 10000) as u32,
        ),
        info.nationality@ == chk.issuing_state@,
        info.passport_expiry > chk.today,
        com == spec_commitment(spec_passport_com_param(), info),
    ensures
        spec_accepts(chk, info, com),
{
}

/// A wrong issuing state is rejected, whatever else holds.
pub proof fn lemma_rejects_wrong_nationality(
    chk: PassportHashChecker,
    info: PersonalInfo,
    com: Seq<u8>,
)
    requires
        info.nationality@ != chk.issuing_state@,
    ensures
        !spec_accepts(chk, info, com),
{
}

/// An expired passport is rejected, whatever else holds.
pub proof fn lemma_rejects_expired(chk: PassportHashChecker, info: PersonalInfo, com: Seq<u8>)
    requires
        info.passport_expiry <= chk.today,
    ensures
        !spec_accepts(chk, info, com),
{
}

/// A record whose biometrics digest is not the digest consumed by the
/// signed payload is rejected.
pub proof fn lemma_rejects_mismatched_biometrics(
    chk: PassportHashChecker,
    info: PersonalInfo,
    com: Seq<u8>,
)
    requires
        chk.pre_econtent@.subrange(DG2_HASH_OFFSET as int, DG2_HASH_OFFSET + HASH_LEN)
            != sha256_of(info.biometrics.blob@),
    ensures
        !spec_accepts(chk, info, com),
{
}

/// A disclosed commitment that is not the witnessed record's commitment is
/// rejected; equally, an honest witness checked against a tampered
/// commitment fails.
pub proof fn lemma_rejects_mismatched_commitment(
    chk: PassportHashChecker,
    info: PersonalInfo,
    com: Seq<u8>,
)
    requires
        com != spec_commitment(spec_passport_com_param(), info),
    ensures
        !spec_accepts(chk, info, com),
{
}

/// A tampered signed digest (one that is not the payload's digest) is
/// rejected.
pub proof fn lemma_rejects_tampered_digest(
    chk: PassportHashChecker,
    info: PersonalInfo,
    com: Seq<u8>,
)
    requires
        chk.econtent_hash@ != sha256_of(chk.econtent@),
    ensures
        !spec_accepts(chk, info, com),
{
}

} // verus!
