//! Recording the approval of a signer.

use crate::errors::ONFTError;
use crate::item::events::ONFTSignerApproved;
use crate::item::state::{step, NFTItem, ONFTStore};
use crate::pubkey::Pubkey;
use vstd::prelude::*;

verus! {

/// An approval: who approves, under which collection, which order.
#[derive(Clone, Debug, PartialEq, Eq)]
pub struct ApproveNFT {
    pub signer: Pubkey,
    pub onft_store: ONFTStore,
    pub nft_item: NFTItem,
}

impl ApproveNFT {
    /// The position of the approving signer, or why the approval is refused:
    /// a paused collection first, then a caller who is not a signer of the
    /// order. Nothing else refuses an approval, whatever the status of the
    /// order.
    pub open spec fn spec_index(self) -> Result<int, ONFTError> {
        if self.onft_store.paused {
            Err(ONFTError::SystemPaused)
        } else {
            match self.nft_item.spec_signer_index(self.signer) {
                Some(index) => Ok(index),
                None => Err(ONFTError::Unauthorized),
            }
        }
    }

    /// The order after the approval, or why the approval is refused.
    pub open spec fn spec_apply(self) -> Result<NFTItem, ONFTError> {
        match self.spec_index() {
            Ok(index) => Ok(self.nft_item.approved(index)),
            Err(e) => Err(e),
        }
    }

    /// What a recorded approval reports.
    pub open spec fn spec_event(self, index: int, now: i64) -> ONFTSignerApproved {
        ONFTSignerApproved {
            token_id: self.nft_item.token_id,
            signer_index: index as u8,
            signer: self.signer,
            timestamp: now,
        }
    }

    /// Records that the caller approves. To approve again changes nothing
    /// and is no error, also on an order that is under way or completed,
    /// where every approval is there already. The status stays: processing
    /// starts on a request of its own.
    pub fn apply(ctx: &mut ApproveNFT, now: i64) -> (r: Result<ONFTSignerApproved, ONFTError>)
        ensures
            match old(ctx).spec_index() {
                Ok(index) => {
                    &&& r == Ok::<ONFTSignerApproved, ONFTError>(old(ctx).spec_event(index, now))
                    &&& final(ctx).nft_item == old(ctx).nft_item.approved(index)
                    &&& final(ctx).signer == old(ctx).signer
                    &&& final(ctx).onft_store == old(ctx).onft_store
                },
                Err(e) => r == Err::<ONFTSignerApproved, ONFTError>(e) && *final(ctx) == *old(
                    ctx,
                ),
            },
            old(ctx).nft_item.wf() ==> final(ctx).nft_item.wf(),
            final(ctx).nft_item.status == old(ctx).nft_item.status,
            step(old(ctx).nft_item, final(ctx).nft_item),
    {
        if ctx.onft_store.paused {
            return Err(ONFTError::SystemPaused);
        }
        let index = match ctx.nft_item.signer_index(&ctx.signer) {
            Some(index) => index,
            None => {
                return Err(ONFTError::Unauthorized);
            },
        };
        let mut approvals = ctx.nft_item.signer_approvals;
        approvals[index] = true;
        ctx.nft_item.signer_approvals = approvals;
        assert(ctx.nft_item.signer_approvals =~= old(ctx).nft_item.approved(
            index as int,
        ).signer_approvals);
        Ok(
            ONFTSignerApproved {
                token_id: ctx.nft_item.token_id,
                signer_index: index as u8,
                signer: ctx.signer,
                timestamp: now,
            },
        )
    }
}

} // verus!
