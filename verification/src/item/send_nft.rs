//! Sending a settled item to another chain.

use crate::endpoint::{MessagingReceipt, SendParams};
use crate::errors::ONFTError;
use crate::item::events::ONFTSent;
use crate::item::state::{NFTItem, ONFTStore};
use crate::msg_codec::{encode, spec_encode};
use crate::peer::{spec_combine_options, PeerConfig};
use crate::pubkey::Pubkey;
use crate::status::OrderStatus;
use vstd::prelude::*;

verus! {

/// A request to send an item: who asks, to which peer, under which
/// collection, and the order that holds the item.
#[derive(Clone, Debug, PartialEq, Eq)]
pub struct SendNFT {
    pub signer: Pubkey,
    pub peer: PeerConfig,
    pub onft_store: ONFTStore,
    /// The address of the collection's store.
    pub onft_store_key: Pubkey,
    /// The account that the endpoint is told the message comes from.
    pub endpoint_sender: Pubkey,
    pub nft_item: NFTItem,
}

#[derive(Clone, Debug, PartialEq, Eq)]
pub struct SendNFTParams {
    pub dst_eid: u32,
    pub to: [u8; 32],
    pub token_id: u64,
    pub options: Vec<u8>,
    pub native_fee: u64,
    pub lz_token_fee: u64,
}

impl SendNFT {
    /// The message options that go out: the caller's merged with those
    /// enforced for a plain message to the peer.
    pub open spec fn spec_options(self, params: SendNFTParams) -> Result<Seq<u8>, ONFTError> {
        spec_combine_options(self.peer.enforced_options.send@, params.options@)
    }

    /// Why the request is refused, if it is.
    ///
    /// An order that is not completed refuses first, then a caller who is not
    /// the owner, then a paused collection, then an endpoint sender other
    /// than the collection's store, then options that cannot be merged.
    pub open spec fn spec_refusal(self, params: SendNFTParams) -> Option<ONFTError> {
        if !(self.nft_item.status is Completed) {
            Some(ONFTError::OrderNotComplete)
        } else if self.nft_item.owner != self.signer {
            Some(ONFTError::Unauthorized)
        } else if self.onft_store.paused {
            Some(ONFTError::SystemPaused)
        } else if self.onft_store_key != self.endpoint_sender {
            Some(ONFTError::InvalidSender)
        } else {
            match self.spec_options(params) {
                Ok(_) => None,
                Err(e) => Some(e),
            }
        }
    }

    /// Whether `request` is what the endpoint is asked to send: the payload
    /// for the item and its destination owner, to the peer of the destination
    /// chain, with the merged options and the caller's fees.
    pub open spec fn is_request(self, params: SendNFTParams, request: SendParams) -> bool {
        &&& request.dst_eid == params.dst_eid
        &&& request.receiver == self.peer.peer_address
        &&& request.message@ == spec_encode(params.token_id, params.to@)
        &&& self.spec_options(params) == Ok::<Seq<u8>, ONFTError>(request.options@)
        &&& request.native_fee == params.native_fee
        &&& request.lz_token_fee == params.lz_token_fee
    }

    /// Checks the request and builds what to hand to the endpoint. The order
    /// stays as it is.
    pub fn apply(ctx: &SendNFT, params: &SendNFTParams) -> (r: Result<SendParams, ONFTError>)
        ensures
            match ctx.spec_refusal(*params) {
                Some(e) => r == Err::<SendParams, ONFTError>(e),
                None => r matches Ok(request) && ctx.is_request(*params, request),
            },
    {
        if ctx.nft_item.status != OrderStatus::Completed {
            return Err(ONFTError::OrderNotComplete);
        }
        if !ctx.nft_item.owner.equals(&ctx.signer) {
            return Err(ONFTError::Unauthorized);
        }
        if ctx.onft_store.paused {
            return Err(ONFTError::SystemPaused);
        }
        if !ctx.onft_store_key.equals(&ctx.endpoint_sender) {
            return Err(ONFTError::InvalidSender);
        }
        let options = match ctx.peer.enforced_options.combine_options(&None, &params.options) {
            Ok(options) => options,
            Err(e) => {
                return Err(e);
            },
        };
        Ok(
            SendParams {
                dst_eid: params.dst_eid,
                receiver: ctx.peer.peer_address,
                message: encode(params.token_id, &params.to),
                options,
                native_fee: params.native_fee,
                lz_token_fee: params.lz_token_fee,
            },
        )
    }

    /// What a sent item reports, once the endpoint has answered with
    /// `receipt`.
    pub fn sent(ctx: &SendNFT, params: &SendNFTParams, receipt: &MessagingReceipt) -> (event:
        ONFTSent)
        ensures
            event.guid == receipt.guid,
            event.dst_eid == params.dst_eid,
            event.token_id == params.token_id,
            event.from == ctx.signer,
            event.to == params.to,
    {
        ONFTSent {
            guid: receipt.guid,
            dst_eid: params.dst_eid,
            token_id: params.token_id,
            from: ctx.signer,
            to: params.to,
        }
    }
}

} // verus!
