//! The seeds from which the addresses of accounts are derived.

use vstd::prelude::*;

verus! {

/// `ONFT`: the seed of a collection's store.
pub const ONFT_SEED: [u8; 4] = [0x4f, 0x4e, 0x46, 0x54];

/// `NFT`: the seed of the order slot of an item.
pub const NFT_SEED: [u8; 3] = [0x4e, 0x46, 0x54];

/// `Peer`: the seed of the configuration of a peer.
pub const PEER_SEED: [u8; 4] = [0x50, 0x65, 0x65, 0x72];

/// `__event_authority`: the seed of the account that signs a program's
/// events. It is the seed that Anchor's `event_cpi` attribute writes into the
/// accounts of an instruction.
pub const EVENT_SEED: [u8; 17] = [
    0x5f, 0x5f, 0x65, 0x76, 0x65, 0x6e, 0x74, 0x5f, 0x61, 0x75, 0x74, 0x68, 0x6f, 0x72, 0x69, 0x74,
    0x79,
];

} // verus!
