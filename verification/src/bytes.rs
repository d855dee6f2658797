//! Verified byte-string utilities shared by the codec, the commitment layer
//! and the accumulator: comparison, slicing, concatenation, and the
//! field-element encoding of small integers.

use vstd::prelude::*;

verus! {

/// A 32-byte little-endian field-element encoding of a small integer: the
/// four value bytes followed by 28 zero bytes.
pub open spec fn spec_fe_bytes(x: u32) -> Seq<u8> {
    Seq::new(
        32,
        |i: int|
            if i == 0 {
                (x % 256) as u8
            } else if i == 1 {
                ((x / 256) % 256) as u8
            } else if i == 2 {
                ((x / 65536) % 256) as u8
            } else if i == 3 {
                ((x / 16777216) % 256) as u8
            } else {
                0u8
            },
    )
}

/// True iff the two byte strings hold the same bytes.
pub fn bytes_eq(a: &Vec<u8>, b: &Vec<u8>) -> (r: bool)
    ensures
        r <==> a@ == b@,
{
    if a.len() != b.len() {
        return false;
    }
    let mut i: usize = 0;
    while i < a.len()
        invariant
            a@.len() == b@.len(),
            i <= a@.len(),
            forall|j: int| 0 <= j < i ==> a@[j] == b@[j],
        decreases a@.len() - i,
    {
        if a[i] != b[i] {
            return false;
        }
        i = i + 1;
    }
    proof {
        assert(a@ =~= b@);
    }
    true
}

/// The bytes of `v` from `start` (inclusive) to `end` (exclusive).
pub fn subrange_vec(v: &Vec<u8>, start: usize, end: usize) -> (r: Vec<u8>)
    requires
        start <= end,
        end <= v@.len(),
    ensures
        r@ == v@.subrange(start as int, end as int),
{
    let mut r: Vec<u8> = Vec::new();
    let mut i: usize = start;
    while i < end
        invariant
            start <= i <= end,
            end <= v@.len(),
            r@ == v@.subrange(start as int, i as int),
        decreases end - i,
    {
        r.push(v[i]);
        proof {
            assert(v@.subrange(start as int, i + 1 as int) =~= v@.subrange(
                start as int,
                i as int,
            ).push(v@[i as int]));
        }
        i = i + 1;
    }
    r
}

/// Appends all of `src` to `dst`.
pub fn append_bytes(dst: &mut Vec<u8>, src: &Vec<u8>)
    ensures
        final(dst)@ == old(dst)@ + src@,
{
    let mut i: usize = 0;
    while i < src.len()
        invariant
            i <= src@.len(),
            dst@ == old(dst)@ + src@.subrange(0, i as int),
        decreases src@.len() - i,
    {
        dst.push(src[i]);
        proof {
            assert(old(dst)@ + src@.subrange(0, i + 1 as int) =~= (old(dst)@ + src@.subrange(
                0,
                i as int,
            )).push(src@[i as int]));
        }
        i = i + 1;
    }
    proof {
        assert(src@.subrange(0, src@.len() as int) =~= src@);
    }
}

/// The field-element encoding of `x`, as a concrete byte string.
pub fn fe_bytes_u32(x: u32) -> (r: Vec<u8>)
    ensures
        r@ == spec_fe_bytes(x),
{
    let mut r: Vec<u8> = Vec::new();
    r.push((x % 256) as u8);
    r.push(((x / 256) % 256) as u8);
    r.push(((x / 65536) % 256) as u8);
    r.push(((x / 16777216) % 256) as u8);
    let mut i: usize = 4;
    while i < 32
        invariant
            4 <= i <= 32,
            r@.len() == i,
            forall|j: int| 0 <= j < i ==> r@[j] == spec_fe_bytes(x)[j],
        decreases 32 - i,
    {
        r.push(0u8);
        i = i + 1;
    }
    proof {
        assert(r@ =~= spec_fe_bytes(x));
    }
    r
}

/// A byte string of `len` zeros.
pub open spec fn spec_zero_bytes(len: nat) -> Seq<u8> {
    Seq::new(len, |i: int| 0u8)
}

/// A string of `len` zero bytes, as a concrete value.
pub fn zero_bytes(len: usize) -> (r: Vec<u8>)
    ensures
        r@ == spec_zero_bytes(len as nat),
{
    let mut r: Vec<u8> = Vec::new();
    let mut i: usize = 0;
    while i < len
        invariant
            i <= len,
            r@.len() == i,
            forall|j: int| 0 <= j < i ==> r@[j] == 0u8,
        decreases len - i,
    {
        r.push(0u8);
        i = i + 1;
    }
    proof {
        assert(r@ =~= spec_zero_bytes(len as nat));
    }
    r
}

/// A fresh copy of `v` with the same bytes.
pub fn clone_bytes(v: &Vec<u8>) -> (r: Vec<u8>)
    ensures
        r@ == v@,
{
    let r = subrange_vec(v, 0, v.len());
    proof {
        assert(v@.subrange(0, v@.len() as int) =~= v@);
    }
    r
}

} // verus!
