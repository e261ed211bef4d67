//! Opening an order for an item.

use crate::errors::ONFTError;
use crate::item::events::ONFTCreated;
use crate::item::state::{NFTItem, ONFTStore};
use crate::pubkey::Pubkey;
use crate::status::OrderStatus;
use vstd::prelude::*;
use vstd::utf8::encode_utf8;

verus! {

/// Most bytes that the metadata of an item may take.
pub const MAX_METADATA_LENGTH: usize = 200;

/// A request to open an order: who pays and will own it, the administrator
/// who signs for it, the collection, and the two counterparties.
#[derive(Clone, Copy, Debug, PartialEq, Eq)]
pub struct CreateNFT {
    pub payer: Pubkey,
    pub admin: Pubkey,
    pub onft_store: ONFTStore,
    pub user_1: Pubkey,
    pub user_2: Pubkey,
    /// The bump seed of the order slot's address.
    pub nft_item_bump: u8,
}

#[derive(Clone, Debug, PartialEq, Eq)]
pub struct CreateNFTParams {
    pub token_id: u64,
    pub days_to_complete: u8,
    pub metadata: Option<String>,
}

/// The number of bytes that `metadata` takes.
pub open spec fn metadata_length(metadata: Option<String>) -> nat {
    match metadata {
        Some(text) => encode_utf8(text@).len(),
        None => 0,
    }
}

impl CreateNFT {
    /// Why the request is refused, if it is: a signer who is not the
    /// collection's administrator first, then counterparties that are one
    /// address, then a paused collection, then metadata that are too long.
    pub open spec fn spec_refusal(self, params: CreateNFTParams) -> Option<ONFTError> {
        if self.onft_store.admin != self.admin {
            Some(ONFTError::Unauthorized)
        } else if self.user_1 == self.user_2 {
            Some(ONFTError::InvalidPayload)
        } else if self.onft_store.paused {
            Some(ONFTError::SystemPaused)
        } else if metadata_length(params.metadata) > MAX_METADATA_LENGTH {
            Some(ONFTError::MetadataTooLong)
        } else {
            None
        }
    }

    /// The order that a granted request opens at `now`.
    pub open spec fn spec_item(self, params: CreateNFTParams, now: i64) -> NFTItem {
        NFTItem {
            token_id: params.token_id,
            owner: self.payer,
            status: OrderStatus::Created,
            signers: [Some(self.user_1), Some(self.user_2)],
            signer_approvals: [false, false],
            created_at: now,
            processing_at: None,
            completion_due_at: None,
            completed_at: None,
            days_to_complete: params.days_to_complete,
            metadata: params.metadata,
            bump: self.nft_item_bump,
        }
    }

    /// What a granted request reports.
    pub open spec fn spec_event(self, params: CreateNFTParams, now: i64) -> ONFTCreated {
        ONFTCreated {
            token_id: params.token_id,
            owner: self.payer,
            signers: [self.user_1, self.user_2],
            days_to_complete: params.days_to_complete,
            timestamp: now,
        }
    }

    /// Opens an order at `now`: in `Created`, with no approval, under the
    /// payer.
    pub fn apply(ctx: &CreateNFT, params: &CreateNFTParams, now: i64) -> (r: Result<
        (NFTItem, ONFTCreated),
        ONFTError,
    >)
        ensures
            match ctx.spec_refusal(*params) {
                Some(e) => r == Err::<(NFTItem, ONFTCreated), ONFTError>(e),
                None => r == Ok::<(NFTItem, ONFTCreated), ONFTError>(
                    (ctx.spec_item(*params, now), ctx.spec_event(*params, now)),
                ),
            },
            r matches Ok((item, _)) ==> item.wf(),
    {
        if !ctx.onft_store.admin.equals(&ctx.admin) {
            return Err(ONFTError::Unauthorized);
        }
        if ctx.user_1.equals(&ctx.user_2) {
            return Err(ONFTError::InvalidPayload);
        }
        if ctx.onft_store.paused {
            return Err(ONFTError::SystemPaused);
        }
        let metadata = match &params.metadata {
            Some(text) => {
                if text.as_str().as_bytes().len() > MAX_METADATA_LENGTH {
                    return Err(ONFTError::MetadataTooLong);
                }
                Some(text.clone())
            },
            None => None,
        };
        let item = NFTItem {
            token_id: params.token_id,
            owner: ctx.payer,
            status: OrderStatus::Created,
            signers: [Some(ctx.user_1), Some(ctx.user_2)],
            signer_approvals: [false, false],
            created_at: now,
            processing_at: None,
            completion_due_at: None,
            completed_at: None,
            days_to_complete: params.days_to_complete,
            metadata,
            bump: ctx.nft_item_bump,
        };
        let event = ONFTCreated {
            token_id: params.token_id,
            owner: ctx.payer,
            signers: [ctx.user_1, ctx.user_2],
            days_to_complete: params.days_to_complete,
            timestamp: now,
        };
        assert(item.signers =~= ctx.spec_item(*params, now).signers);
        assert(item.signer_approvals =~= ctx.spec_item(*params, now).signer_approvals);
        assert(event.signers =~= ctx.spec_event(*params, now).signers);
        Ok((item, event))
    }
}

} // verus!
