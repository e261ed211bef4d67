//! What is trusted of a remote chain.

use crate::bytes::{append_bytes, to_vec};
use crate::errors::ONFTError;
use crate::pubkey::bytes_equal;
use vstd::prelude::*;
use vstd::slice::slice_subrange;

verus! {

/// Length of the header that says of which type message options are.
pub const OPTIONS_HEADER_LENGTH: usize = 2;

/// The message options that every message to a peer carries, for a plain
/// message and for one with a composed call.
#[derive(Clone, Debug, PartialEq, Eq)]
pub struct EnforcedOptions {
    pub send: Vec<u8>,
    pub send_and_call: Vec<u8>,
}

/// The counterpart on one remote chain.
#[derive(Clone, Debug, PartialEq, Eq)]
pub struct PeerConfig {
    /// The only sender on that chain whose messages are accepted.
    pub peer_address: [u8; 32],
    pub enforced_options: EnforcedOptions,
    pub bump: u8,
}

/// Whether `options` start with the header of the one type of options that
/// can be merged: the number 3 in two bytes, most significant first.
pub open spec fn is_type_3(options: Seq<u8>) -> bool {
    options.len() >= 2 && options[0] == 0 && options[1] == 3
}

/// The enforced options merged with the caller's.
///
/// Without enforced options the caller's stand as they are, and without
/// caller's options the enforced ones do. Otherwise the caller's must be of
/// the type that can be merged, and what follows their header is appended to
/// the enforced options.
pub open spec fn spec_combine_options(enforced: Seq<u8>, extra: Seq<u8>) -> Result<
    Seq<u8>,
    ONFTError,
> {
    if enforced.len() == 0 {
        Ok(extra)
    } else if extra.len() == 0 {
        Ok(enforced)
    } else if is_type_3(extra) {
        Ok(enforced + extra.subrange(2, extra.len() as int))
    } else {
        Err(ONFTError::InvalidOptions)
    }
}

impl EnforcedOptions {
    /// The enforced options for a message with or without a composed call.
    pub open spec fn spec_get_enforced_options(&self, composed: bool) -> Seq<u8> {
        if composed {
            self.send_and_call@
        } else {
            self.send@
        }
    }

    /// The enforced options for a message that carries `composed_msg`.
    pub fn get_enforced_options(&self, composed_msg: &Option<Vec<u8>>) -> (options: Vec<u8>)
        ensures
            options@ == self.spec_get_enforced_options(composed_msg is Some),
    {
        if composed_msg.is_none() {
            to_vec(self.send.as_slice())
        } else {
            to_vec(self.send_and_call.as_slice())
        }
    }

    /// Merges the caller's `extra_options` with the enforced options, which
    /// always stand at the head of the result.
    pub fn combine_options(&self, compose_msg: &Option<Vec<u8>>, extra_options: &Vec<u8>) -> (r:
        Result<Vec<u8>, ONFTError>)
        ensures
            match spec_combine_options(
                self.spec_get_enforced_options(compose_msg is Some),
                extra_options@,
            ) {
                Ok(options) => r matches Ok(combined) && combined@ == options,
                Err(e) => r == Err::<Vec<u8>, ONFTError>(e),
            },
    {
        let mut enforced = self.get_enforced_options(compose_msg);
        if enforced.len() == 0 {
            return Ok(to_vec(extra_options.as_slice()));
        }
        if extra_options.len() == 0 {
            return Ok(enforced);
        }
        if extra_options.len() >= OPTIONS_HEADER_LENGTH && extra_options[0] == 0
            && extra_options[1] == 3 {
            append_bytes(
                &mut enforced,
                slice_subrange(extra_options.as_slice(), OPTIONS_HEADER_LENGTH, extra_options.len()),
            );
            return Ok(enforced);
        }
        Err(ONFTError::InvalidOptions)
    }
}

impl PeerConfig {
    /// Whether `sender` is the address trusted on the peer's chain.
    pub fn is_trusted_sender(&self, sender: &[u8; 32]) -> (r: bool)
        ensures
            r == (self.peer_address@ == sender@),
    {
        bytes_equal(&self.peer_address, sender)
    }
}

/// Merged options start with the enforced options: the caller cannot drop
/// them.
pub proof fn lemma_enforced_options_stay(enforced: Seq<u8>, extra: Seq<u8>)
    ensures
        spec_combine_options(enforced, extra) matches Ok(options) ==> enforced.is_prefix_of(
            options,
        ),
{
}

} // verus!
