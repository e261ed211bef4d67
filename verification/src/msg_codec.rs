//! The payload that crosses chains.
//!
//! A payload is 40 bytes: the asset identifier as a little-endian 64-bit
//! integer, then the 32 bytes of the destination owner's address.

use crate::errors::ONFTError;
use vstd::bytes::{
    lemma_auto_spec_u64_to_from_le_bytes, spec_u64_from_le_bytes, spec_u64_to_le_bytes,
    u64_from_le_bytes, u64_to_le_bytes,
};
use vstd::prelude::*;
use vstd::slice::slice_subrange;

verus! {

/// Offset of the destination owner in a payload.
pub const OWNER_OFFSET: usize = 8;

/// Length of a payload.
pub const MESSAGE_LENGTH: usize = 40;

/// The payload for an asset identifier and a destination owner.
pub open spec fn spec_encode(token_id: u64, owner: Seq<u8>) -> Seq<u8> {
    spec_u64_to_le_bytes(token_id) + owner
}

/// The asset identifier that a message of at least 40 bytes carries.
pub open spec fn spec_token_id(message: Seq<u8>) -> u64 {
    spec_u64_from_le_bytes(message.subrange(0, 8))
}

/// The destination owner that a message of at least 40 bytes carries.
pub open spec fn spec_receiver(message: Seq<u8>) -> Seq<u8> {
    message.subrange(8, 40)
}

/// What taking `message` apart gives: the asset identifier and the
/// destination owner of a message of at least 40 bytes, and a refusal of any
/// shorter one.
pub open spec fn spec_decode(message: Seq<u8>) -> Result<(u64, Seq<u8>), ONFTError> {
    if message.len() < MESSAGE_LENGTH {
        Err(ONFTError::MalformedMessage)
    } else {
        Ok((spec_token_id(message), spec_receiver(message)))
    }
}

/// Builds the payload for `token_id` and `owner`.
pub fn encode(token_id: u64, owner: &[u8; 32]) -> (message: Vec<u8>)
    ensures
        message@ == spec_encode(token_id, owner@),
        message@.len() == MESSAGE_LENGTH,
{
    proof {
        lemma_auto_spec_u64_to_from_le_bytes();
    }
    let mut message = u64_to_le_bytes(token_id);
    let mut i: usize = 0;
    while i < 32
        invariant
            i <= 32,
            message@ == spec_u64_to_le_bytes(token_id) + owner@.subrange(0, i as int),
        decreases 32 - i,
    {
        message.push(owner[i]);
        i = i + 1;
    }
    assert(owner@.subrange(0, 32) == owner@);
    message
}

/// Reads the asset identifier from the head of `message`.
///
/// A message shorter than a payload is refused, also where its first eight
/// bytes are there: nothing is read from a message that is cut short.
pub fn parse_token_id(message: &[u8]) -> (r: Result<u64, ONFTError>)
    ensures
        match spec_decode(message@) {
            Ok((token_id, _)) => r == Ok::<u64, ONFTError>(token_id),
            Err(e) => r == Err::<u64, ONFTError>(e),
        },
{
    if message.len() < MESSAGE_LENGTH {
        return Err(ONFTError::MalformedMessage);
    }
    Ok(u64_from_le_bytes(slice_subrange(message, 0, OWNER_OFFSET)))
}

/// Reads the destination owner from `message`.
///
/// A message shorter than a payload is refused.
pub fn parse_receiver(message: &[u8]) -> (r: Result<[u8; 32], ONFTError>)
    ensures
        match spec_decode(message@) {
            Ok((_, owner)) => r matches Ok(receiver) && receiver@ == owner,
            Err(e) => r == Err::<[u8; 32], ONFTError>(e),
        },
{
    if message.len() < MESSAGE_LENGTH {
        return Err(ONFTError::MalformedMessage);
    }
    let mut receiver = [0u8; 32];
    let mut i: usize = 0;
    while i < 32
        invariant
            i <= 32,
            message@.len() >= MESSAGE_LENGTH,
            forall|j: int| 0 <= j < i ==> receiver@[j] == message@[8 + j],
        decreases 32 - i,
    {
        receiver[i] = message[OWNER_OFFSET + i];
        i = i + 1;
    }
    assert(receiver@ =~= spec_receiver(message@));
    Ok(receiver)
}

/// Takes a message apart into asset identifier and destination owner.
///
/// A message shorter than a payload is refused; what follows the first 40
/// bytes of a longer one is not read.
pub fn decode(message: &[u8]) -> (r: Result<(u64, [u8; 32]), ONFTError>)
    ensures
        match spec_decode(message@) {
            Ok((id, owner)) => r matches Ok((token_id, receiver)) && token_id == id && receiver@
                == owner,
            Err(e) => r == Err::<(u64, [u8; 32]), ONFTError>(e),
        },
        r is Ok <==> message@.len() >= MESSAGE_LENGTH,
{
    let token_id = match parse_token_id(message) {
        Ok(token_id) => token_id,
        Err(e) => {
            return Err(e);
        },
    };
    match parse_receiver(message) {
        Ok(receiver) => Ok((token_id, receiver)),
        Err(e) => Err(e),
    }
}

/// A message shorter than a payload is refused as malformed, whatever it
/// holds: nothing is made of a message that is cut short.
pub proof fn lemma_short_message_is_refused(message: Seq<u8>)
    requires
        message.len() < MESSAGE_LENGTH,
    ensures
        spec_decode(message) == Err::<(u64, Seq<u8>), ONFTError>(ONFTError::MalformedMessage),
{
}

/// Decoding a payload gives back the asset identifier and the owner it was
/// built from.
pub proof fn lemma_decode_encode(token_id: u64, owner: Seq<u8>)
    requires
        owner.len() == 32,
    ensures
        spec_encode(token_id, owner).len() == MESSAGE_LENGTH,
        spec_token_id(spec_encode(token_id, owner)) == token_id,
        spec_receiver(spec_encode(token_id, owner)) == owner,
        spec_decode(spec_encode(token_id, owner)) == Ok::<(u64, Seq<u8>), ONFTError>(
            (token_id, owner),
        ),
{
    lemma_auto_spec_u64_to_from_le_bytes();
    let message = spec_encode(token_id, owner);
    assert(message.subrange(0, 8) =~= spec_u64_to_le_bytes(token_id));
    assert(message.subrange(8, 40) =~= owner);
}

} // verus!
