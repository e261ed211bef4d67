//! Ledger addresses.

use crate::bytes::byte_strings;
use vstd::array::spec_array_fill_for_copy_type;
use vstd::prelude::*;

verus! {

/// The address of an account or a program: 32 bytes.
#[derive(Clone, Copy, Debug, PartialEq, Eq, PartialOrd, Ord, Hash)]
pub struct Pubkey {
    pub bytes: [u8; 32],
}

impl View for Pubkey {
    type V = Seq<u8>;

    open spec fn view(&self) -> Seq<u8> {
        self.bytes@
    }
}

/// Whether two byte arrays of one length hold the same bytes.
pub fn bytes_equal<const N: usize>(a: &[u8; N], b: &[u8; N]) -> (r: bool)
    ensures
        r == (a@ == b@),
        r == (*a == *b),
{
    let mut i: usize = 0;
    while i < N
        invariant
            i <= N,
            forall|j: int| 0 <= j < i ==> a[j] == b[j],
        decreases N - i,
    {
        if a[i] != b[i] {
            return false;
        }
        i = i + 1;
    }
    assert(a@ =~= b@);
    assert(*a =~= *b);
    true
}

/// The address that `seeds` derive for the program `program_id`, with the
/// bump seed that completes it; `None` where the seeds derive no address.
pub uninterp spec fn program_address(seeds: Seq<Seq<u8>>, program_id: Seq<u8>) -> Option<
    (Seq<u8>, u8),
>;

/// Derives the address of an account that a program owns.
///
/// Trusted: calls `Pubkey::try_find_program_address` of `solana_program`,
/// which hashes the seeds, a bump seed and the program's address, and walks
/// the bump seed down from 255 until the hash is no point of the curve. It
/// returns `None` where a seed is longer than 32 bytes, where there are more
/// than 15 seeds, or where no bump seed serves. The contract claims only that
/// the result is a function of the seeds and the program's address.
#[verifier::external_body]
pub(crate) fn find_program_address(seeds: &Vec<Vec<u8>>, program_id: &Pubkey) -> (r: Option<
    (Pubkey, u8),
>)
    ensures
        match r {
            Some((address, bump)) => program_address(byte_strings(seeds@), program_id@) == Some(
                (address@, bump),
            ),
            None => program_address(byte_strings(seeds@), program_id@) is None,
        },
{
    let parts: Vec<&[u8]> = seeds.iter().map(|seed| seed.as_slice()).collect();
    let id = anchor_lang::prelude::Pubkey::new_from_array(program_id.bytes);
    anchor_lang::prelude::Pubkey::try_find_program_address(&parts, &id).map(
        |(address, bump)| (Pubkey { bytes: address.to_bytes() }, bump),
    )
}

/// The address of the system program.
///
/// Trusted: reads `system_program::ID` of `solana_program`, which is declared
/// by the text of 32 times the character `1`; in base 58 that is 32 zero
/// bytes.
#[verifier::external_body]
pub(crate) fn system_program_id() -> (r: Pubkey)
    ensures
        r@ == Seq::new(32, |i: int| 0u8),
{
    Pubkey { bytes: anchor_lang::solana_program::system_program::ID.to_bytes() }
}

impl Pubkey {
    /// The address of 32 zero bytes.
    pub open spec fn zero() -> Pubkey {
        Pubkey { bytes: spec_array_fill_for_copy_type::<u8, 32>(0u8) }
    }

    /// The address whose bytes are all zero is `zero()`, and no other is.
    pub proof fn lemma_zero(key: Pubkey)
        ensures
            key == Pubkey::zero() <==> key@ == Seq::new(32, |i: int| 0u8),
    {
        if key@ == Seq::new(32, |i: int| 0u8) {
            assert(key.bytes =~= Pubkey::zero().bytes);
        } else {
            assert(Pubkey::zero()@ =~= Seq::new(32, |i: int| 0u8));
        }
    }

    /// The address made of the given bytes.
    pub fn new_from_array(bytes: [u8; 32]) -> (r: Pubkey)
        ensures
            r.bytes == bytes,
    {
        Pubkey { bytes }
    }

    /// The bytes of the address.
    pub fn to_bytes(&self) -> (r: [u8; 32])
        ensures
            r == self.bytes,
    {
        self.bytes
    }

    /// Whether `self` and `other` are the same address.
    pub fn equals(&self, other: &Pubkey) -> (r: bool)
        ensures
            r == (*self == *other),
            r == (self@ == other@),
    {
        bytes_equal(&self.bytes, &other.bytes)
    }
}

impl Default for Pubkey {
    /// The address of 32 zero bytes.
    fn default() -> (r: Pubkey)
        ensures
            r == Pubkey::zero(),
            r@ == Seq::new(32, |i: int| 0u8),
    {
        let r = Pubkey { bytes: [0u8; 32] };
        proof {
            Pubkey::lemma_zero(r);
        }
        r
    }
}

} // verus!
