//! The addresses that the delivery of a message touches.
//!
//! They are derived from what the header and the head of the payload name:
//! the chain the message comes from and the asset it is about.

use crate::bytes::{byte_strings, push_seed, spec_u32_to_be_bytes, u32_to_be_bytes};
use crate::pubkey::{find_program_address, program_address, Pubkey};
use crate::seeds::{EVENT_SEED, NFT_SEED, PEER_SEED};
use vstd::bytes::{spec_u64_to_le_bytes, u64_to_le_bytes};
use vstd::prelude::*;

verus! {

/// The seeds of the configuration of the peer on chain `eid`.
pub open spec fn peer_seeds(store: Pubkey, eid: u32) -> Seq<Seq<u8>> {
    seq![PEER_SEED@, store@, spec_u32_to_be_bytes(eid)]
}

/// The seeds of the order slot of the asset `token_id`.
pub open spec fn item_seeds(store: Pubkey, token_id: u64) -> Seq<Seq<u8>> {
    seq![NFT_SEED@, store@, spec_u64_to_le_bytes(token_id)]
}

/// The seeds of the account that signs the program's events.
pub open spec fn event_seeds() -> Seq<Seq<u8>> {
    seq![EVENT_SEED@]
}

/// The derived addresses of a delivery: the peer of the source chain, the
/// order slot of the asset, and the account that signs the program's events.
#[derive(Clone, Copy, Debug, PartialEq, Eq)]
pub struct DeliveryAddresses {
    pub peer: Pubkey,
    pub item: Pubkey,
    pub event_authority: Pubkey,
}

impl DeliveryAddresses {
    /// Whether the seeds of the peer, of the order slot and of the event
    /// authority each derive an address.
    pub open spec fn derivable(store: Pubkey, program: Pubkey, src_eid: u32, token_id: u64)
        -> bool {
        &&& program_address(peer_seeds(store, src_eid), program@) is Some
        &&& program_address(item_seeds(store, token_id), program@) is Some
        &&& program_address(event_seeds(), program@) is Some
    }

    /// Whether these are the addresses derived for a message from chain
    /// `src_eid` about the asset `token_id`, under the store `store` of the
    /// program `program`.
    pub open spec fn is_derived(
        self,
        store: Pubkey,
        program: Pubkey,
        src_eid: u32,
        token_id: u64,
    ) -> bool {
        &&& program_address(peer_seeds(store, src_eid), program@) matches Some((peer, _))
            && self.peer@ == peer
        &&& program_address(item_seeds(store, token_id), program@) matches Some((item, _))
            && self.item@ == item
        &&& program_address(event_seeds(), program@) matches Some((authority, _))
            && self.event_authority@ == authority
    }

    /// Derives the addresses of a delivery; `None` where one of them cannot
    /// be derived.
    pub fn derive(store: &Pubkey, program: &Pubkey, src_eid: u32, token_id: u64) -> (r: Option<
        DeliveryAddresses,
    >)
        ensures
            match r {
                Some(addresses) => Self::derivable(*store, *program, src_eid, token_id)
                    && addresses.is_derived(*store, *program, src_eid, token_id),
                None => !Self::derivable(*store, *program, src_eid, token_id),
            },
    {
        let eid_bytes = u32_to_be_bytes(src_eid);
        let mut seeds: Vec<Vec<u8>> = Vec::new();
        push_seed(&mut seeds, PEER_SEED.as_slice());
        push_seed(&mut seeds, store.bytes.as_slice());
        push_seed(&mut seeds, eid_bytes.as_slice());
        assert(byte_strings(seeds@) =~= peer_seeds(*store, src_eid));
        let peer = find_program_address(&seeds, program);

        let token_id_bytes = u64_to_le_bytes(token_id);
        let mut seeds: Vec<Vec<u8>> = Vec::new();
        push_seed(&mut seeds, NFT_SEED.as_slice());
        push_seed(&mut seeds, store.bytes.as_slice());
        push_seed(&mut seeds, token_id_bytes.as_slice());
        assert(byte_strings(seeds@) =~= item_seeds(*store, token_id));
        let item = find_program_address(&seeds, program);

        let mut seeds: Vec<Vec<u8>> = Vec::new();
        push_seed(&mut seeds, EVENT_SEED.as_slice());
        assert(byte_strings(seeds@) =~= event_seeds());
        let event_authority = find_program_address(&seeds, program);

        match (peer, item, event_authority) {
            (Some((peer, _)), Some((item, _)), Some((event_authority, _))) => Some(
                DeliveryAddresses { peer, item, event_authority },
            ),
            _ => None,
        }
    }
}

} // verus!
