//! Asking what sending an item will cost.

use crate::endpoint::QuoteParams;
use crate::errors::ONFTError;
use crate::msg_codec::{encode, spec_encode};
use crate::peer::{spec_combine_options, PeerConfig};
use crate::pubkey::Pubkey;
use vstd::prelude::*;

verus! {

/// A request for a quote: the collection's store, and the peer of the
/// destination chain if one is configured.
#[derive(Clone, Debug, PartialEq, Eq)]
pub struct QuoteSend {
    /// The address of the collection's store.
    pub onft_store_key: Pubkey,
    pub peer: Option<PeerConfig>,
}

#[derive(Clone, Debug, PartialEq, Eq)]
pub struct QuoteSendParams {
    pub dst_eid: u32,
    pub to: [u8; 32],
    pub token_id: u64,
    pub options: Vec<u8>,
    pub pay_in_lz_token: bool,
}

impl QuoteSend {
    /// The message options that the quote is for, or why there is no quote:
    /// no peer for the destination chain first, then options that cannot be
    /// merged with the enforced ones.
    pub open spec fn spec_options(self, params: QuoteSendParams) -> Result<Seq<u8>, ONFTError> {
        match self.peer {
            None => Err(ONFTError::PeerNotConfigured),
            Some(peer) => spec_combine_options(peer.enforced_options.send@, params.options@),
        }
    }

    /// Whether `quote` asks the fee of the message that sending the item
    /// would hand to the endpoint.
    pub open spec fn is_quote(self, params: QuoteSendParams, quote: QuoteParams) -> bool {
        &&& quote.sender == self.onft_store_key
        &&& quote.dst_eid == params.dst_eid
        &&& self.peer matches Some(peer) && quote.receiver == peer.peer_address
        &&& quote.message@ == spec_encode(params.token_id, params.to@)
        &&& self.spec_options(params) == Ok::<Seq<u8>, ONFTError>(quote.options@)
        &&& quote.pay_in_lz_token == params.pay_in_lz_token
    }

    /// Builds the request for the fee of sending an item. Nothing changes;
    /// the fee itself is the endpoint's to name.
    pub fn apply(ctx: &QuoteSend, params: &QuoteSendParams) -> (r: Result<QuoteParams, ONFTError>)
        ensures
            match ctx.spec_options(*params) {
                Err(e) => r == Err::<QuoteParams, ONFTError>(e),
                Ok(_) => r matches Ok(quote) && ctx.is_quote(*params, quote),
            },
    {
        let peer = match &ctx.peer {
            Some(peer) => peer,
            None => {
                return Err(ONFTError::PeerNotConfigured);
            },
        };
        let options = match peer.enforced_options.combine_options(&None, &params.options) {
            Ok(options) => options,
            Err(e) => {
                return Err(e);
            },
        };
        Ok(
            QuoteParams {
                sender: ctx.onft_store_key,
                dst_eid: params.dst_eid,
                receiver: peer.peer_address,
                message: encode(params.token_id, &params.to),
                options,
                pay_in_lz_token: params.pay_in_lz_token,
            },
        )
    }
}

} // verus!
