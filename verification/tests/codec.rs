//! Tests for the attribute codec: date decoding, record extraction, the
//! canonical serialization and its circuit-side mirror.

use passport_creds::errors::CodecError;
use passport_creds::passport_dump::PassportDump;
use passport_creds::passport_info::{date_to_u32, Biometrics, PersonalInfo, PersonalInfoVar};
use sha2::{Digest, Sha256};

fn sha(data: &[u8]) -> Vec<u8> {
    Sha256::digest(data).to_vec()
}

/// A consistent dump: the data-group digests really chain up to the signed
/// attributes.
fn sample_dump() -> PassportDump {
    let mut dg1 = vec![b'<'; 93];
    dg1[10..49].copy_from_slice(b"DOE<<JOHN<<<<<<<<<<<<<<<<<<<<<<<<<<<<<<");
    dg1[59..62].copy_from_slice(b"USA");
    dg1[62..68].copy_from_slice(b"220101");
    dg1[70..76].copy_from_slice(b"300101");
    let dg2 = b"sample-biometric-blob".to_vec();
    let mut pre_econtent = vec![0u8; 107];
    pre_econtent[33..65].copy_from_slice(&sha(&dg1));
    pre_econtent[75..107].copy_from_slice(&sha(&dg2));
    let mut econtent = vec![0u8; 53];
    econtent[21..53].copy_from_slice(&sha(&pre_econtent));
    PassportDump {
        dg1,
        dg2,
        pre_econtent,
        econtent,
        sig: b"detached-signature".to_vec(),
    }
}

#[test]
fn date_decodes_current_century() {
    let r = date_to_u32(&b"220101".to_vec(), 20991231);
    assert_eq!(r, Ok(20220101));
}

#[test]
fn date_rolls_back_a_century() {
    let r = date_to_u32(&b"991231".to_vec(), 20220101);
    assert_eq!(r, Ok(19991231));
}

#[test]
fn date_anchor_boundary_is_inclusive() {
    // A reading equal to the anchor is kept; one day past it rolls back.
    assert_eq!(date_to_u32(&b"220101".to_vec(), 20220101), Ok(20220101));
    assert_eq!(date_to_u32(&b"220102".to_vec(), 20220101), Ok(19220102));
}

#[test]
fn date_rejects_non_digit() {
    let r = date_to_u32(&b"2201a1".to_vec(), 20991231);
    assert_eq!(r, Err(CodecError::MalformedDate));
}

#[test]
fn date_rejects_short_input() {
    let r = date_to_u32(&b"2201".to_vec(), 20991231);
    assert_eq!(r, Err(CodecError::TruncatedData));
}

#[test]
fn from_passport_extracts_fields() {
    let dump = sample_dump();
    let info = PersonalInfo::from_passport(&dump, 20220601, 10).unwrap();
    assert_eq!(info.nationality, b"USA".to_vec());
    assert_eq!(
        info.name,
        b"DOE<<JOHN<<<<<<<<<<<<<<<<<<<<<<<<<<<<<<".to_vec()
    );
    assert_eq!(info.dob, 20220101);
    assert_eq!(info.passport_expiry, 20300101);
    assert_eq!(info.biometrics.blob, dump.dg2);
    assert_eq!(info.nonce.len(), 32);
    assert_eq!(info.seed.len(), 32);
}

#[test]
fn from_passport_rolls_back_birth_century() {
    let mut dump = sample_dump();
    dump.dg1[62..68].copy_from_slice(b"991231");
    let info = PersonalInfo::from_passport(&dump, 20220601, 10).unwrap();
    assert_eq!(info.dob, 19991231);
}

#[test]
fn from_passport_rejects_truncated_dump() {
    let mut dump = sample_dump();
    dump.dg1.truncate(80);
    let r = PersonalInfo::from_passport(&dump, 20220601, 10);
    assert!(matches!(r, Err(CodecError::TruncatedData)));
}

#[test]
fn from_passport_rejects_malformed_date() {
    let mut dump = sample_dump();
    dump.dg1[62] = b'x';
    let r = PersonalInfo::from_passport(&dump, 20220601, 10);
    assert!(matches!(r, Err(CodecError::MalformedDate)));
}

#[test]
fn fresh_nonce_and_seed_per_record() {
    let dump = sample_dump();
    let a = PersonalInfo::from_passport(&dump, 20220601, 10).unwrap();
    let b = PersonalInfo::from_passport(&dump, 20220601, 10).unwrap();
    assert_ne!(a.nonce, b.nonce);
    assert_ne!(a.seed, b.seed);
}

#[test]
fn biometrics_hash_matches_sha256() {
    // The digest of the empty blob is the well-known SHA-256 vector, so a
    // wrapper that handed its input back unchanged would fail here.
    let empty = Biometrics { blob: Vec::new() };
    let expected = [
        0xe3u8, 0xb0, 0xc4, 0x42, 0x98, 0xfc, 0x1c, 0x14, 0x9a, 0xfb, 0xf4, 0xc8, 0x99, 0x6f,
        0xb9, 0x24, 0x27, 0xae, 0x41, 0xe4, 0x64, 0x9b, 0x93, 0x4c, 0xa4, 0x95, 0x99, 0x1b,
        0x78, 0x52, 0xb8, 0x55,
    ];
    assert_eq!(empty.hash(), expected.to_vec());
    let blob = b"abc".to_vec();
    let expected_abc = sha(&blob);
    assert_eq!(Biometrics { blob }.hash(), expected_abc);
}

#[test]
fn canonical_bytes_layout() {
    let dump = sample_dump();
    let info = PersonalInfo::from_passport(&dump, 20220601, 10).unwrap();
    let bytes = info.to_bytes();
    assert_eq!(bytes.len(), 32 + 3 + 39 + 32 + 32 + 32);
    assert_eq!(&bytes[0..32], &info.seed[..]);
    assert_eq!(&bytes[32..35], &info.nationality[..]);
    assert_eq!(&bytes[35..74], &info.name[..]);
    // dates as 32-byte little-endian field elements
    let mut dob_fe = vec![0u8; 32];
    dob_fe[0..4].copy_from_slice(&info.dob.to_le_bytes());
    assert_eq!(&bytes[74..106], &dob_fe[..]);
    let mut expiry_fe = vec![0u8; 32];
    expiry_fe[0..4].copy_from_slice(&info.passport_expiry.to_le_bytes());
    assert_eq!(&bytes[106..138], &expiry_fe[..]);
    assert_eq!(&bytes[138..170], &sha(&info.biometrics.blob)[..]);
}

#[test]
fn mirror_serialization_agrees_without_nonce() {
    let dump = sample_dump();
    let info = PersonalInfo::from_passport(&dump, 20220601, 10).unwrap();
    let mirror = PersonalInfoVar::from_record(&info);
    let native = info.to_bytes();
    assert_eq!(mirror.to_bytes(), native);
    assert_eq!(mirror.get_id(), info.get_id());
    assert_eq!(mirror.get_seed(), info.get_seed());
    assert_eq!(mirror.get_com_nonce(), info.get_com_nonce());
    assert_eq!(mirror.get_com_param(), info.get_com_param());
}

#[test]
fn default_record_is_zeroed() {
    let info = PersonalInfo::default();
    assert_eq!(info.nonce, vec![0u8; 32]);
    assert_eq!(info.seed, vec![0u8; 32]);
    assert_eq!(info.nationality, vec![0u8; 3]);
    assert_eq!(info.name, vec![0u8; 39]);
    assert_eq!(info.dob, 0);
    assert_eq!(info.passport_expiry, 0);
    assert!(info.biometrics.blob.is_empty());
}

#[test]
fn accountability_projections_are_stable() {
    let dump = sample_dump();
    let info = PersonalInfo::from_passport(&dump, 20220601, 10).unwrap();
    assert_eq!(info.get_id(), info.name);
    assert_eq!(info.get_seed(), info.seed);
    assert_eq!(info.get_com_nonce(), &info.nonce);
}
