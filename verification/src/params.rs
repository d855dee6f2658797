//! Fixed, publicly agreed configuration: field widths and offsets of the
//! passport data groups, and the canonical public parameters of the
//! commitment scheme and of the accumulator's node hash.

use vstd::prelude::*;

verus! {

/// Width of the issuing-state code inside data group 1.
pub const STATE_ID_LEN: usize = 3;

/// Width of the name field inside data group 1.
pub const NAME_LEN: usize = 39;

/// Width of a `YYMMDD` date field inside data group 1.
pub const DATE_LEN: usize = 6;

/// Width of a SHA-256 digest.
pub const HASH_LEN: usize = 32;

/// Offset of the name field inside data group 1.
pub const NAME_OFFSET: usize = 10;

/// Offset of the issuing-state code inside data group 1.
pub const NATIONALITY_OFFSET: usize = 59;

/// Offset of the date-of-birth field inside data group 1.
pub const DOB_OFFSET: usize = 62;

/// Offset of the expiry-date field inside data group 1.
pub const EXPIRY_OFFSET: usize = 70;

/// Shortest data group 1 from which every fixed-offset field can be read.
pub const DG1_MIN_LEN: usize = 93;

/// Offset of the digest of data group 1 inside the signed security object.
pub const DG1_HASH_OFFSET: usize = 33;

/// Offset of the digest of data group 2 (the biometrics blob) inside the
/// signed security object.
pub const DG2_HASH_OFFSET: usize = 75;

/// Shortest security object that holds both data-group digests.
pub const PRE_ECONTENT_MIN_LEN: usize = 107;

/// Offset of the digest of the security object inside the signed attributes.
pub const PRE_ECONTENT_HASH_OFFSET: usize = 21;

/// Shortest signed-attributes blob that holds the security-object digest.
pub const ECONTENT_MIN_LEN: usize = 53;

/// Canonical public parameter (a domain-separation tag) of the attribute
/// commitment scheme.
pub open spec fn spec_passport_com_param() -> Seq<u8> {
    seq![0x50u8, 0x43u8, 0x4fu8, 0x4du8, 0x30u8, 0x30u8, 0x30u8, 0x31u8]
}

/// Canonical public parameter (a domain-separation tag) of the accumulator's
/// two-child node hash.
pub open spec fn spec_merkle_crh_param() -> Seq<u8> {
    seq![0x4du8, 0x43u8, 0x52u8, 0x48u8, 0x30u8, 0x30u8, 0x30u8, 0x31u8]
}

/// The canonical commitment parameters, as a concrete byte string.
pub fn passport_com_param() -> (r: Vec<u8>)
    ensures
        r@ == spec_passport_com_param(),
{
    let mut v: Vec<u8> = Vec::new();
    v.push(0x50u8);
    v.push(0x43u8);
    v.push(0x4fu8);
    v.push(0x4du8);
    v.push(0x30u8);
    v.push(0x30u8);
    v.push(0x30u8);
    v.push(0x31u8);
    proof {
        assert(v@ =~= spec_passport_com_param());
    }
    v
}

/// The canonical node-hash parameters, as a concrete byte string.
pub fn merkle_crh_param() -> (r: Vec<u8>)
    ensures
        r@ == spec_merkle_crh_param(),
{
    let mut v: Vec<u8> = Vec::new();
    v.push(0x4du8);
    v.push(0x43u8);
    v.push(0x52u8);
    v.push(0x48u8);
    v.push(0x30u8);
    v.push(0x30u8);
    v.push(0x30u8);
    v.push(0x31u8);
    proof {
        assert(v@ =~= spec_merkle_crh_param());
    }
    v
}

} // verus!
