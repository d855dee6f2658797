//! The attribute codec: the canonical attribute record extracted from a raw
//! passport dump, the two-digit-year date decoding rule, the canonical byte
//! serialization, and the circuit-side mirror of the record.

use vstd::prelude::*;
use crate::bytes::{
    append_bytes, clone_bytes, fe_bytes_u32, spec_fe_bytes, spec_zero_bytes, subrange_vec,
    zero_bytes,
};
use crate::digest::{random_bytes32, sha256, sha256_of};
use crate::errors::CodecError;
use crate::params::{
    spec_passport_com_param, passport_com_param, DATE_LEN, DG1_MIN_LEN, DOB_OFFSET, EXPIRY_OFFSET,
    NAME_LEN, NAME_OFFSET, NATIONALITY_OFFSET, STATE_ID_LEN,
};
use crate::passport_dump::PassportDump;

verus! {

/// Blob containing the holder's biometrics. Only its digest is ever bound
/// into a commitment or a circuit; the raw blob stays with the holder.
#[derive(Clone)]
pub struct Biometrics {
    pub blob: Vec<u8>,
}

impl Biometrics {
    /// The digest under which the biometrics appear in the signed payload.
    pub fn hash(&self) -> (r: Vec<u8>)
        ensures
            r@ == sha256_of(self.blob@),
            r@.len() == 32,
    {
        sha256(&self.blob)
    }
}

/// True iff `b` is an ASCII decimal digit.
pub open spec fn is_ascii_digit(b: u8) -> bool {
    48 <= b && b <= 57
}

/// The numeric value of an ASCII digit.
pub open spec fn digit_val(b: u8) -> int {
    b - 48
}

/// True iff `s` is a full-width date field made of ASCII digits.
pub open spec fn valid_date_digits(s: Seq<u8>) -> bool {
    s.len() == DATE_LEN && forall|i: int| 0 <= i < s.len() ==> is_ascii_digit(s[i])
}

/// The `YYYYMMDD` value of a `YYMMDD` digit string read as a date of the
/// twenty-first century.
pub open spec fn raw_date_val(s: Seq<u8>) -> int {
    20000000 + (digit_val(s[0]) * 10 + digit_val(s[1])) * 10000 + (digit_val(s[2]) * 10
        + digit_val(s[3])) * 100 + (digit_val(s[4]) * 10 + digit_val(s[5]))
}

/// The decoded date: read as twenty-first century, and rolled back one
/// century when that reading lies strictly after the anchor `not_after`.
/// The rule is deterministic only within a 100-year window around the
/// anchor; dates further out are silently misattributed, a documented
/// limitation of the two-digit-year source format.
pub open spec fn decoded_date(s: Seq<u8>, not_after: u32) -> int {
    if raw_date_val(s) > not_after {
        raw_date_val(s) - 1000000
    } else {
        raw_date_val(s)
    }
}

/// Converts a date string of the form `YYMMDD` to a `u32` whose base-10
/// representation is `YYYYMMDD`. `not_after` is the soonest day after which
/// the input would not make sense: a reading beyond it is pushed back into
/// the prior century.
pub fn date_to_u32(date: &Vec<u8>, not_after: u32) -> (r: Result<u32, CodecError>)
    ensures
        r is Ok <==> valid_date_digits(date@),
        r matches Ok(v) ==> v == decoded_date(date@, not_after),
        date@.len() != DATE_LEN ==> r == Err::<u32, CodecError>(CodecError::TruncatedData),
        date@.len() == DATE_LEN && !valid_date_digits(date@) ==> r == Err::<u32, CodecError>(
            CodecError::MalformedDate,
        ),
{
    if date.len() != DATE_LEN {
        return Err(CodecError::TruncatedData);
    }
    let mut i: usize = 0;
    while i < DATE_LEN
        invariant
            date@.len() == DATE_LEN,
            i <= DATE_LEN,
            forall|j: int| 0 <= j < i ==> is_ascii_digit(date@[j]),
        decreases DATE_LEN - i,
    {
        if date[i] < 48 || date[i] > 57 {
            return Err(CodecError::MalformedDate);
        }
        i = i + 1;
    }
    let year: u32 = (date[0] - 48) as u32 * 10 + (date[1] - 48) as u32;
    let month: u32 = (date[2] - 48) as u32 * 10 + (date[3] - 48) as u32;
    let day: u32 = (date[4] - 48) as u32 * 10 + (date[5] - 48) as u32;
    let mut d: u32 = 20000000 + year * 10000 + month * 100 + day;
    if d > not_after {
        d = d - 1000000;
    }
    Ok(d)
}

/// The six ASCII digits of a `YYMMDD` date field built from two-digit year,
/// month and day values.
pub open spec fn spec_date_digits(yy: int, mm: int, dd: int) -> Seq<u8> {
    seq![
        (48 + yy / 10) as u8,
        (48 + yy % 10) as u8,
        (48 + mm / 10) as u8,
        (48 + mm % 10) as u8,
        (48 + dd / 10) as u8,
        (48 + dd % 10) as u8,
    ]
}

/// Date round-trip: for a date of the two centuries the format can carry,
/// and an anchor within the 100-year window after it, encoding the date as
/// `YYMMDD` and decoding it against that anchor reconstructs the full
/// `YYYYMMDD` value — including the century rollback when the twenty-first
/// century reading would land after the anchor.
pub proof fn lemma_date_round_trip(y: int, m: int, d: int, anchor: u32)
    requires
        1900 <= y <= 2099,
        0 <= m <= 99,
        0 <= d <= 99,
        y * 10000 + m * 100 + d <= anchor,
        anchor < y * 10000 + m * 100 + d + 1000000,
    ensures
        valid_date_digits(spec_date_digits(y % 100, m, d)),
        decoded_date(spec_date_digits(y % 100, m, d), anchor) == y * 10000 + m * 100 + d,
{
    let s = spec_date_digits(y % 100, m, d);
    let yy = y % 100;
    vstd::arithmetic::div_mod::lemma_fundamental_div_mod(y, 100);
    vstd::arithmetic::div_mod::lemma_fundamental_div_mod(yy, 10);
    vstd::arithmetic::div_mod::lemma_fundamental_div_mod(m, 10);
    vstd::arithmetic::div_mod::lemma_fundamental_div_mod(d, 10);
    assert(0 <= yy <= 99);
    assert(0 <= yy / 10 <= 9 && 0 <= yy % 10 <= 9);
    assert(0 <= m / 10 <= 9 && 0 <= m % 10 <= 9);
    assert(0 <= d / 10 <= 9 && 0 <= d % 10 <= 9);
    assert(valid_date_digits(s));
    let k = y / 100;
    assert(y == 100 * k + yy);
    assert(k == 19 || k == 20);
    assert(raw_date_val(s) == 20000000 + yy * 10000 + m * 100 + d);
    if k == 20 {
        assert(raw_date_val(s) == y * 10000 + m * 100 + d);
    } else {
        assert(raw_date_val(s) == y * 10000 + m * 100 + d + 1000000);
    }
}

/// The canonical attribute record: the plaintext identity attributes that a
/// commitment binds. The date fields always hold 8-digit `YYYYMMDD` values
/// reconstructed per `decoded_date`.
#[derive(Clone)]
pub struct PersonalInfo {
    pub nonce: Vec<u8>,
    pub seed: Vec<u8>,
    pub nationality: Vec<u8>,
    pub name: Vec<u8>,
    pub dob: u32,
    pub passport_expiry: u32,
    pub biometrics: Biometrics,
}

impl PersonalInfo {
    /// Well-formedness: every fixed-width field has its width.
    pub open spec fn wf(&self) -> bool {
        &&& self.nonce@.len() == 32
        &&& self.seed@.len() == 32
        &&& self.nationality@.len() == STATE_ID_LEN
        &&& self.name@.len() == NAME_LEN
    }

    /// Converts the given passport dump into a structured attribute record,
    /// sampling a fresh nonce and seed. `today` is an integer of the form
    /// `YYYYMMDD`; `max_valid_years` is the longest a passport can be valid.
    /// The date of birth is anchored at `today`, the expiry date at
    /// `today + max_valid_years` years.
    pub fn from_passport(dump: &PassportDump, today: u32, max_valid_years: u32) -> (r: Result<
        PersonalInfo,
        CodecError,
    >)
        requires
            today + max_valid_years * 10000 <= u32::MAX,
        ensures
            r is Ok <==> (dump.dg1@.len() >= DG1_MIN_LEN && valid_date_digits(
                dump.dg1@.subrange(DOB_OFFSET as int, DOB_OFFSET + DATE_LEN),
            ) && valid_date_digits(
                dump.dg1@.subrange(EXPIRY_OFFSET as int, EXPIRY_OFFSET + DATE_LEN),
            )),
            r matches Ok(info) ==> {
                &&& info.wf()
                &&& info.nonce@.len() == 32
                &&& info.seed@.len() == 32
                &&& info.nationality@ == dump.dg1@.subrange(
                    NATIONALITY_OFFSET as int,
                    NATIONALITY_OFFSET + STATE_ID_LEN,
                )
                &&& info.name@ == dump.dg1@.subrange(NAME_OFFSET as int, NAME_OFFSET + NAME_LEN)
                &&& info.dob == decoded_date(
                    dump.dg1@.subrange(DOB_OFFSET as int, DOB_OFFSET + DATE_LEN),
                    today,
                )
                &&& info.passport_expiry == decoded_date(
                    dump.dg1@.subrange(EXPIRY_OFFSET as int, EXPIRY_OFFSET + DATE_LEN),
                    (today + max_valid_years * 10000) as u32,
                )
                &&& info.biometrics.blob@ == dump.dg2@
            },
            dump.dg1@.len() < DG1_MIN_LEN ==> r == Err::<PersonalInfo, CodecError>(
                CodecError::TruncatedData,
            ),
            r is Err && dump.dg1@.len() >= DG1_MIN_LEN ==> r == Err::<PersonalInfo, CodecError>(
                CodecError::MalformedDate,
            ),
    {
        if dump.dg1.len() < DG1_MIN_LEN {
            return Err(CodecError::TruncatedData);
        }
        let nationality = subrange_vec(&dump.dg1, NATIONALITY_OFFSET, NATIONALITY_OFFSET
            + STATE_ID_LEN);
        let name = subrange_vec(&dump.dg1, NAME_OFFSET, NAME_OFFSET + NAME_LEN);
        let dob_field = subrange_vec(&dump.dg1, DOB_OFFSET, DOB_OFFSET + DATE_LEN);
        let expiry_field = subrange_vec(&dump.dg1, EXPIRY_OFFSET, EXPIRY_OFFSET + DATE_LEN);
        let dob = match date_to_u32(&dob_field, today) {
            Ok(d) => d,
            Err(e) => {
                return Err(e);
            },
        };
        let expiry_not_after: u32 = today + max_valid_years * 10000;
        let passport_expiry = match date_to_u32(&expiry_field, expiry_not_after) {
            Ok(d) => d,
            Err(e) => {
                return Err(e);
            },
        };
        let nonce = random_bytes32();
        let seed = random_bytes32();
        let biometrics = Biometrics { blob: clone_bytes(&dump.dg2) };
        Ok(
            PersonalInfo {
                nonce,
                seed,
                nationality,
                name,
                dob,
                passport_expiry,
                biometrics,
            },
        )
    }

    /// The record's canonical byte serialization: the exact bytes a
    /// commitment binds, and the bytes the circuit-side mirror reproduces.
    pub fn to_bytes(&self) -> (r: Vec<u8>)
        ensures
            r@ == spec_canonical_bytes(*self),
    {
        let mut buf: Vec<u8> = Vec::new();
        append_bytes(&mut buf, &self.seed);
        append_bytes(&mut buf, &self.nationality);
        append_bytes(&mut buf, &self.name);
        let dob_bytes = fe_bytes_u32(self.dob);
        append_bytes(&mut buf, &dob_bytes);
        let expiry_bytes = fe_bytes_u32(self.passport_expiry);
        append_bytes(&mut buf, &expiry_bytes);
        let biometric_hash = self.biometrics.hash();
        append_bytes(&mut buf, &biometric_hash);
        proof {
            assert(buf@ =~= spec_canonical_bytes(*self));
        }
        buf
    }

    /// The commitment parameters this record is committed under: the fixed,
    /// publicly known canonical set.
    pub fn get_com_param(&self) -> (r: Vec<u8>)
        ensures
            r@ == spec_passport_com_param(),
    {
        passport_com_param()
    }

    /// The commitment nonce held by the record.
    pub fn get_com_nonce(&self) -> (r: &Vec<u8>)
        ensures
            r@ == self.nonce@,
    {
        &self.nonce
    }

    /// The accountable-identity projection: the name field.
    pub fn get_id(&self) -> (r: Vec<u8>)
        ensures
            r@ == self.name@,
    {
        clone_bytes(&self.name)
    }

    /// The accountability seed projection.
    pub fn get_seed(&self) -> (r: Vec<u8>)
        ensures
            r@ == self.seed@,
    {
        clone_bytes(&self.seed)
    }
}

impl Default for PersonalInfo {
    /// The all-zero record: zero nonce, seed, fields and an empty
    /// biometrics blob.
    fn default() -> (r: PersonalInfo)
        ensures
            r.wf(),
            r.nonce@ == spec_zero_bytes(32),
            r.seed@ == spec_zero_bytes(32),
            r.nationality@ == spec_zero_bytes(STATE_ID_LEN as nat),
            r.name@ == spec_zero_bytes(NAME_LEN as nat),
            r.dob == 0,
            r.passport_expiry == 0,
            r.biometrics.blob@ == Seq::<u8>::empty(),
    {
        PersonalInfo {
            nonce: zero_bytes(32),
            seed: zero_bytes(32),
            nationality: zero_bytes(STATE_ID_LEN),
            name: zero_bytes(NAME_LEN),
            dob: 0,
            passport_expiry: 0,
            biometrics: Biometrics { blob: Vec::new() },
        }
    }
}

/// The canonical serialization of a record: seed, nationality, name, the
/// field-element encodings of the two dates, and the biometrics digest, in
/// that fixed order.
pub open spec fn spec_canonical_bytes(info: PersonalInfo) -> Seq<u8> {
    info.seed@ + info.nationality@ + info.name@ + spec_fe_bytes(info.dob) + spec_fe_bytes(
        info.passport_expiry,
    ) + sha256_of(info.biometrics.blob@)
}

/// The circuit-side mirror of an attribute record: the same logical fields,
/// each held in its field-element encoding, with the biometrics represented
/// only by their digest.
#[derive(Clone)]
pub struct PersonalInfoVar {
    pub nonce: Vec<u8>,
    pub seed: Vec<u8>,
    pub nationality: Vec<u8>,
    pub name: Vec<u8>,
    pub dob: Vec<u8>,
    pub passport_expiry: Vec<u8>,
    pub biometric_hash: Vec<u8>,
}

impl PersonalInfoVar {
    /// True iff this mirror holds exactly the encodings of `info`'s fields.
    pub open spec fn mirrors(&self, info: PersonalInfo) -> bool {
        &&& self.nonce@ == info.nonce@
        &&& self.seed@ == info.seed@
        &&& self.nationality@ == info.nationality@
        &&& self.name@ == info.name@
        &&& self.dob@ == spec_fe_bytes(info.dob)
        &&& self.passport_expiry@ == spec_fe_bytes(info.passport_expiry)
        &&& self.biometric_hash@ == sha256_of(info.biometrics.blob@)
    }

    /// Lifts a native record into its circuit-side mirror.
    pub fn from_record(info: &PersonalInfo) -> (r: PersonalInfoVar)
        ensures
            r.mirrors(*info),
    {
        PersonalInfoVar {
            nonce: clone_bytes(&info.nonce),
            seed: clone_bytes(&info.seed),
            nationality: clone_bytes(&info.nationality),
            name: clone_bytes(&info.name),
            dob: fe_bytes_u32(info.dob),
            passport_expiry: fe_bytes_u32(info.passport_expiry),
            biometric_hash: info.biometrics.hash(),
        }
    }

    /// The mirror's serialization, field by field in the canonical order.
    pub fn to_bytes(&self) -> (r: Vec<u8>)
        ensures
            r@ == spec_mirror_bytes(*self),
    {
        let mut buf: Vec<u8> = Vec::new();
        append_bytes(&mut buf, &self.seed);
        append_bytes(&mut buf, &self.nationality);
        append_bytes(&mut buf, &self.name);
        append_bytes(&mut buf, &self.dob);
        append_bytes(&mut buf, &self.passport_expiry);
        append_bytes(&mut buf, &self.biometric_hash);
        proof {
            assert(buf@ =~= spec_mirror_bytes(*self));
        }
        buf
    }

    /// The commitment parameters, identical to the native record's.
    pub fn get_com_param(&self) -> (r: Vec<u8>)
        ensures
            r@ == spec_passport_com_param(),
    {
        passport_com_param()
    }

    /// The mirrored commitment nonce.
    pub fn get_com_nonce(&self) -> (r: &Vec<u8>)
        ensures
            r@ == self.nonce@,
    {
        &self.nonce
    }

    /// The mirrored accountable-identity projection.
    pub fn get_id(&self) -> (r: Vec<u8>)
        ensures
            r@ == self.name@,
    {
        clone_bytes(&self.name)
    }

    /// The mirrored seed projection.
    pub fn get_seed(&self) -> (r: Vec<u8>)
        ensures
            r@ == self.seed@,
    {
        clone_bytes(&self.seed)
    }
}

/// The mirror's serialization: the same fixed field order as the native
/// canonical serialization.
pub open spec fn spec_mirror_bytes(v: PersonalInfoVar) -> Seq<u8> {
    v.seed@ + v.nationality@ + v.name@ + v.dob@ + v.passport_expiry@ + v.biometric_hash@
}

/// The native canonical serialization and the circuit-side field-element
/// encoding agree value-for-value and ordering-for-ordering: a mirror of a
/// record serializes to exactly the record's canonical bytes.
pub proof fn lemma_encoding_agreement(info: PersonalInfo, var: PersonalInfoVar)
    requires
        var.mirrors(info),
    ensures
        spec_mirror_bytes(var) == spec_canonical_bytes(info),
{
}

} // verus!
