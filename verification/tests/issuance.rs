//! Tests for the commitment layer, the hash-checker predicate and the
//! issuance decision.

use passport_creds::issuance::{check_issuance, user_req_issuance, RejectionReason};
use passport_creds::issuance_checker::PassportHashChecker;
use passport_creds::passport_dump::PassportDump;
use passport_creds::passport_info::PersonalInfo;
use sha2::{Digest, Sha256};

const TODAY: u32 = 20220601;
const MAX_VALID_YEARS: u32 = 10;

fn sha(data: &[u8]) -> Vec<u8> {
    Sha256::digest(data).to_vec()
}

fn sample_dump() -> PassportDump {
    let mut dg1 = vec![b'<'; 93];
    dg1[10..49].copy_from_slice(b"DOE<<JOHN<<<<<<<<<<<<<<<<<<<<<<<<<<<<<<");
    dg1[59..62].copy_from_slice(b"USA");
    dg1[62..68].copy_from_slice(b"220101");
    dg1[70..76].copy_from_slice(b"300101");
    let dg2 = b"sample-biometric-blob".to_vec();
    let mut pre_econtent = vec![0u8; 107];
    pre_econtent[33..65].copy_from_slice(&sha(&dg1));
    pre_econtent[75..107].copy_from_slice(&sha(&dg2));
    let mut econtent = vec![0u8; 53];
    econtent[21..53].copy_from_slice(&sha(&pre_econtent));
    PassportDump {
        dg1,
        dg2,
        pre_econtent,
        econtent,
        sig: b"detached-signature".to_vec(),
    }
}

fn issuing_state() -> Vec<u8> {
    b"USA".to_vec()
}

#[test]
fn commitment_is_deterministic() {
    let dump = sample_dump();
    let info = PersonalInfo::from_passport(&dump, TODAY, MAX_VALID_YEARS).unwrap();
    assert_eq!(info.commit(), info.commit());
}

#[test]
fn commitment_changes_with_any_field() {
    let dump = sample_dump();
    let base = PersonalInfo::from_passport(&dump, TODAY, MAX_VALID_YEARS).unwrap();
    let com = base.commit();

    let mut m = base.clone();
    m.nonce[0] ^= 1;
    assert_ne!(m.commit(), com);

    let mut m = base.clone();
    m.seed[0] ^= 1;
    assert_ne!(m.commit(), com);

    let mut m = base.clone();
    m.nationality[0] ^= 1;
    assert_ne!(m.commit(), com);

    let mut m = base.clone();
    m.name[0] ^= 1;
    assert_ne!(m.commit(), com);

    let mut m = base.clone();
    m.dob += 1;
    assert_ne!(m.commit(), com);

    let mut m = base.clone();
    m.passport_expiry += 1;
    assert_ne!(m.commit(), com);

    let mut m = base.clone();
    m.biometrics.blob.push(0);
    assert_ne!(m.commit(), com);
}

#[test]
fn predicate_accepts_genuine_record() {
    let dump = sample_dump();
    let info = PersonalInfo::from_passport(&dump, TODAY, MAX_VALID_YEARS).unwrap();
    let chk = PassportHashChecker::from_passport(&dump, &issuing_state(), TODAY, MAX_VALID_YEARS);
    let com = info.commit();
    assert!(chk.accepts(&info, &com));
}

#[test]
fn predicate_rejects_wrong_nationality() {
    let dump = sample_dump();
    let info = PersonalInfo::from_passport(&dump, TODAY, MAX_VALID_YEARS).unwrap();
    let chk = PassportHashChecker::from_passport(&dump, &b"FRA".to_vec(), TODAY, MAX_VALID_YEARS);
    let com = info.commit();
    assert!(!chk.accepts(&info, &com));
}

#[test]
fn predicate_rejects_expired_passport() {
    let mut dump = sample_dump();
    dump.dg1[70..76].copy_from_slice(b"200101");
    dump.pre_econtent[33..65].copy_from_slice(&sha(&dump.dg1));
    dump.econtent[21..53].copy_from_slice(&sha(&dump.pre_econtent));
    let info = PersonalInfo::from_passport(&dump, TODAY, MAX_VALID_YEARS).unwrap();
    assert_eq!(info.passport_expiry, 20200101);
    let chk = PassportHashChecker::from_passport(&dump, &issuing_state(), TODAY, MAX_VALID_YEARS);
    let com = info.commit();
    assert!(!chk.accepts(&info, &com));
}

#[test]
fn predicate_rejects_mutated_witness_fields() {
    let dump = sample_dump();
    let base = PersonalInfo::from_passport(&dump, TODAY, MAX_VALID_YEARS).unwrap();
    let chk = PassportHashChecker::from_passport(&dump, &issuing_state(), TODAY, MAX_VALID_YEARS);

    // mismatched biometrics digest
    let mut m = base.clone();
    m.biometrics.blob.push(7);
    let com = m.commit();
    assert!(!chk.accepts(&m, &com));

    // mutated date of birth
    let mut m = base.clone();
    m.dob += 1;
    let com = m.commit();
    assert!(!chk.accepts(&m, &com));

    // mutated name
    let mut m = base.clone();
    m.name[0] ^= 1;
    let com = m.commit();
    assert!(!chk.accepts(&m, &com));
}

#[test]
fn predicate_rejects_mismatched_commitment() {
    let dump = sample_dump();
    let info = PersonalInfo::from_passport(&dump, TODAY, MAX_VALID_YEARS).unwrap();
    let chk = PassportHashChecker::from_passport(&dump, &issuing_state(), TODAY, MAX_VALID_YEARS);
    let mut com = info.commit();
    com[0] ^= 1;
    assert!(!chk.accepts(&info, &com));
}

#[test]
fn predicate_rejects_tampered_payload() {
    let mut dump = sample_dump();
    let info = PersonalInfo::from_passport(&dump, TODAY, MAX_VALID_YEARS).unwrap();
    // break the digest chain: the security object no longer matches dg1
    dump.pre_econtent[33] ^= 1;
    dump.econtent[21..53].copy_from_slice(&sha(&dump.pre_econtent));
    let chk = PassportHashChecker::from_passport(&dump, &issuing_state(), TODAY, MAX_VALID_YEARS);
    let com = info.commit();
    assert!(!chk.accepts(&info, &com));
}

#[test]
fn public_inputs_agree_across_construction_sites() {
    let dump = sample_dump();
    let (_, req) = user_req_issuance(&dump, TODAY, MAX_VALID_YEARS, b"proof".to_vec()).unwrap();
    let holder =
        PassportHashChecker::from_passport(&dump, &issuing_state(), TODAY, MAX_VALID_YEARS);
    let issuer =
        PassportHashChecker::from_issuance_req(&req, &issuing_state(), TODAY, MAX_VALID_YEARS);
    assert_eq!(holder.public_inputs(), issuer.public_inputs());
}

#[test]
fn request_packages_commitment_and_digest() {
    let dump = sample_dump();
    let (info, req) =
        user_req_issuance(&dump, TODAY, MAX_VALID_YEARS, b"proof-bytes".to_vec()).unwrap();
    assert_eq!(req.attrs_com, info.commit());
    assert_eq!(req.econtent_hash, sha(&dump.econtent));
    assert_eq!(req.sig, dump.sig);
    assert_eq!(req.hash_proof, b"proof-bytes".to_vec());
}

#[test]
fn request_fails_on_bad_dump() {
    let mut dump = sample_dump();
    dump.dg1.truncate(10);
    assert!(user_req_issuance(&dump, TODAY, MAX_VALID_YEARS, Vec::new()).is_err());
}

#[test]
fn grant_requires_both_checks() {
    let dump = sample_dump();
    let (_, req) = user_req_issuance(&dump, TODAY, MAX_VALID_YEARS, b"proof".to_vec()).unwrap();
    assert_eq!(check_issuance(&req, true, true), Ok(req.attrs_com.clone()));
    assert_eq!(
        check_issuance(&req, false, true),
        Err(RejectionReason::ProofInvalid)
    );
    assert_eq!(
        check_issuance(&req, true, false),
        Err(RejectionReason::SignatureInvalid)
    );
    assert_eq!(
        check_issuance(&req, false, false),
        Err(RejectionReason::ProofInvalid)
    );
}
