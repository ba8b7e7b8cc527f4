use vstd::prelude::*;
use vstd::bytes::{
    lemma_auto_spec_u64_to_from_le_bytes, spec_u64_from_le_bytes, spec_u64_to_le_bytes,
    u64_from_le_bytes, u64_to_le_bytes,
};
use crate::address::Address;

verus! {

/// The eight little-endian bytes of `v`.
pub open spec fn le_bytes(v: u64) -> Seq<u8> {
    spec_u64_to_le_bytes(v)
}

/// Two values with the same little-endian bytes are equal.
pub proof fn lemma_le_bytes_injective(a: u64, b: u64)
    requires
        le_bytes(a) == le_bytes(b),
    ensures
        a == b,
{
    lemma_auto_spec_u64_to_from_le_bytes();
}

pub proof fn lemma_le_bytes_len(a: u64)
    ensures
        le_bytes(a).len() == 8,
{
    lemma_auto_spec_u64_to_from_le_bytes();
}

pub fn push_u8(out: &mut Vec<u8>, v: u8)
    ensures
        final(out)@ == old(out)@ + seq![v],
{
    out.push(v);
    assert(final(out)@ =~= old(out)@ + seq![v]);
}

pub fn push_slice(out: &mut Vec<u8>, s: &[u8])
    ensures
        final(out)@ == old(out)@ + s@,
{
    let ghost start = out@;
    let mut i: usize = 0;
    while i < s.len()
        invariant
            0 <= i <= s@.len(),
            out@ == start + s@.subrange(0, i as int),
        decreases s@.len() - i,
    {
        out.push(s[i]);
        i = i + 1;
        assert(out@ =~= start + s@.subrange(0, i as int));
    }
    assert(s@.subrange(0, s@.len() as int) =~= s@);
}

pub fn push_u64(out: &mut Vec<u8>, v: u64)
    ensures
        final(out)@ == old(out)@ + le_bytes(v),
{
    let b = u64_to_le_bytes(v);
    push_slice(out, b.as_slice());
}

pub fn push_address(out: &mut Vec<u8>, a: &Address)
    ensures
        final(out)@ == old(out)@ + a@,
{
    push_slice(out, a.bytes.as_slice());
}

pub fn push_array16(out: &mut Vec<u8>, a: &[u8; 16])
    ensures
        final(out)@ == old(out)@ + a@,
{
    push_slice(out, a.as_slice());
}

pub fn read_u64(data: &[u8], pos: usize) -> (r: u64)
    requires
        pos + 8 <= data@.len(),
    ensures
        le_bytes(r) == data@.subrange(pos as int, pos + 8),
{
    let mut b: Vec<u8> = Vec::new();
    let n = data.len();
    let mut i: usize = 0;
    while i < 8
        invariant
            0 <= i <= 8,
            pos + 8 <= data@.len(),
            n == data@.len(),
            b@ == data@.subrange(pos as int, pos + i),
        decreases 8 - i,
    {
        b.push(data[pos + i]);
        i = i + 1;
        assert(b@ =~= data@.subrange(pos as int, pos + i));
    }
    let r = u64_from_le_bytes(b.as_slice());
    proof {
        lemma_auto_spec_u64_to_from_le_bytes();
        assert(spec_u64_to_le_bytes(spec_u64_from_le_bytes(b@)) == b@);
    }
    r
}

pub fn read_address(data: &[u8], pos: usize) -> (r: Address)
    requires
        pos + 32 <= data@.len(),
    ensures
        r@ == data@.subrange(pos as int, pos + 32),
{
    let mut a: [u8; 32] = [0u8; 32];
    let n = data.len();
    let mut i: usize = 0;
    while i < 32
        invariant
            0 <= i <= 32,
            pos + 32 <= data@.len(),
            n == data@.len(),
            a@.len() == 32,
            forall|j: int| 0 <= j < i ==> a@[j] == data@[pos + j],
        decreases 32 - i,
    {
        a[i] = data[pos + i];
        i = i + 1;
    }
    assert(a@ =~= data@.subrange(pos as int, pos + 32));
    Address { bytes: a }
}

pub fn read_array16(data: &[u8], pos: usize) -> (r: [u8; 16])
    requires
        pos + 16 <= data@.len(),
    ensures
        r@ == data@.subrange(pos as int, pos + 16),
{
    let mut a: [u8; 16] = [0u8; 16];
    let n = data.len();
    let mut i: usize = 0;
    while i < 16
        invariant
            0 <= i <= 16,
            pos + 16 <= data@.len(),
            n == data@.len(),
            a@.len() == 16,
            forall|j: int| 0 <= j < i ==> a@[j] == data@[pos + j],
        decreases 16 - i,
    {
        a[i] = data[pos + i];
        i = i + 1;
    }
    assert(a@ =~= data@.subrange(pos as int, pos + 16));
    a
}

} // verus!
