//! Receiving an item from another chain.

use crate::bytes::to_vec;
use crate::endpoint::{ClearParams, LzReceiveParams};
use crate::errors::ONFTError;
use crate::item::events::ONFTReceived;
use crate::item::state::{NFTItem, ONFTStore};
use crate::msg_codec::{decode, spec_receiver, spec_token_id, MESSAGE_LENGTH};
use crate::peer::PeerConfig;
use crate::pubkey::Pubkey;
use crate::status::OrderStatus;
use vstd::prelude::*;

verus! {

/// A delivery: the peer of the chain it comes from, the collection, and the
/// order slot of the item it names.
#[derive(Clone, Debug, PartialEq, Eq)]
pub struct LzReceiveNFT {
    pub peer: PeerConfig,
    pub onft_store: ONFTStore,
    /// The address of the collection's store.
    pub onft_store_key: Pubkey,
    pub nft_item: NFTItem,
}

impl LzReceiveNFT {
    /// Why the delivery is refused, if it is: a sender other than the trusted
    /// peer first, then a paused collection, then a message too short to hold
    /// a payload.
    pub open spec fn spec_refusal(self, params: LzReceiveParams) -> Option<ONFTError> {
        if self.peer.peer_address@ != params.sender@ {
            Some(ONFTError::UntrustedSender)
        } else if self.onft_store.paused {
            Some(ONFTError::SystemPaused)
        } else if params.message@.len() < MESSAGE_LENGTH {
            Some(ONFTError::MalformedMessage)
        } else {
            None
        }
    }

    /// Whether `item` is the order slot after the delivery: a fresh order for
    /// the item the message names, under the owner the message names.
    pub open spec fn is_item(self, params: LzReceiveParams, now: i64, item: NFTItem) -> bool {
        &&& item.owner@ == spec_receiver(params.message@)
        &&& item == self.nft_item.received(spec_token_id(params.message@), item.owner, now)
    }

    /// Whether `clear` asks the endpoint to mark just this message as
    /// consumed by the collection's store.
    pub open spec fn is_clear(self, params: LzReceiveParams, clear: ClearParams) -> bool {
        &&& clear.receiver == self.onft_store_key
        &&& clear.src_eid == params.src_eid
        &&& clear.sender == params.sender
        &&& clear.nonce == params.nonce
        &&& clear.guid == params.guid
        &&& clear.message@ == params.message@
    }

    /// Whether `event` is what an accepted delivery reports.
    pub open spec fn is_event(params: LzReceiveParams, event: ONFTReceived) -> bool {
        &&& event.guid == params.guid
        &&& event.src_eid == params.src_eid
        &&& event.token_id == spec_token_id(params.message@)
        &&& event.to@ == spec_receiver(params.message@)
    }

    /// Accepts a message from the trusted peer: resets the order slot under
    /// the new owner and returns the request that marks the message as
    /// consumed together with the report. A refused delivery changes nothing.
    pub fn apply(ctx: &mut LzReceiveNFT, params: &LzReceiveParams, now: i64) -> (r: Result<
        (ClearParams, ONFTReceived),
        ONFTError,
    >)
        ensures
            match old(ctx).spec_refusal(*params) {
                Some(e) => r == Err::<(ClearParams, ONFTReceived), ONFTError>(e) && *final(ctx)
                    == *old(ctx),
                None => {
                    &&& r matches Ok((clear, event))
                    &&& old(ctx).is_clear(*params, clear)
                    &&& Self::is_event(*params, event)
                    &&& old(ctx).is_item(*params, now, final(ctx).nft_item)
                    &&& final(ctx).peer == old(ctx).peer
                    &&& final(ctx).onft_store == old(ctx).onft_store
                    &&& final(ctx).onft_store_key == old(ctx).onft_store_key
                },
            },
            r is Ok ==> final(ctx).nft_item.wf(),
    {
        if !ctx.peer.is_trusted_sender(&params.sender) {
            return Err(ONFTError::UntrustedSender);
        }
        if ctx.onft_store.paused {
            return Err(ONFTError::SystemPaused);
        }
        let (token_id, receiver) = match decode(params.message.as_slice()) {
            Ok(payload) => payload,
            Err(e) => {
                return Err(e);
            },
        };
        let owner = Pubkey::new_from_array(receiver);
        ctx.nft_item.token_id = token_id;
        ctx.nft_item.owner = owner;
        ctx.nft_item.status = OrderStatus::Created;
        ctx.nft_item.signer_approvals = [false, false];
        ctx.nft_item.created_at = now;
        ctx.nft_item.processing_at = None;
        ctx.nft_item.completion_due_at = None;
        ctx.nft_item.completed_at = None;
        Ok(
            (
                ClearParams {
                    receiver: ctx.onft_store_key,
                    src_eid: params.src_eid,
                    sender: params.sender,
                    nonce: params.nonce,
                    guid: params.guid,
                    message: to_vec(params.message.as_slice()),
                },
                ONFTReceived {
                    guid: params.guid,
                    src_eid: params.src_eid,
                    token_id,
                    to: owner,
                },
            ),
        )
    }
}

} // verus!
