//! Small helpers on byte strings.

use vstd::prelude::*;

verus! {

/// The four bytes of `x`, most significant first.
pub open spec fn spec_u32_to_be_bytes(x: u32) -> Seq<u8> {
    seq![
        (x / 0x100_0000) as u8,
        ((x / 0x1_0000) % 0x100) as u8,
        ((x / 0x100) % 0x100) as u8,
        (x % 0x100) as u8,
    ]
}

/// The four bytes of `x`, most significant first.
pub fn u32_to_be_bytes(x: u32) -> (bytes: [u8; 4])
    ensures
        bytes@ == spec_u32_to_be_bytes(x),
{
    let bytes = [
        (x / 0x100_0000) as u8,
        ((x / 0x1_0000) % 0x100) as u8,
        ((x / 0x100) % 0x100) as u8,
        (x % 0x100) as u8,
    ];
    assert(bytes@ =~= spec_u32_to_be_bytes(x));
    bytes
}

/// Appends the bytes of `src` to `dst`.
pub fn append_bytes(dst: &mut Vec<u8>, src: &[u8])
    ensures
        final(dst)@ == old(dst)@ + src@,
{
    let mut i: usize = 0;
    while i < src.len()
        invariant
            i <= src@.len(),
            dst@ == old(dst)@ + src@.subrange(0, i as int),
        decreases src@.len() - i,
    {
        dst.push(src[i]);
        i = i + 1;
    }
    assert(src@.subrange(0, src@.len() as int) == src@);
}

/// A vector that holds the bytes of `src`.
pub fn to_vec(src: &[u8]) -> (bytes: Vec<u8>)
    ensures
        bytes@ == src@,
{
    let mut bytes: Vec<u8> = Vec::new();
    append_bytes(&mut bytes, src);
    bytes
}

/// The byte strings that a list of vectors holds.
pub open spec fn byte_strings(list: Seq<Vec<u8>>) -> Seq<Seq<u8>> {
    Seq::new(list.len(), |i: int| list[i]@)
}

/// Appends a copy of `seed` to the list `seeds`.
pub fn push_seed(seeds: &mut Vec<Vec<u8>>, seed: &[u8])
    ensures
        byte_strings(final(seeds)@) == byte_strings(old(seeds)@).push(seed@),
{
    let bytes = to_vec(seed);
    seeds.push(bytes);
    assert(byte_strings(seeds@) =~= byte_strings(old(seeds)@).push(seed@));
}

} // verus!
