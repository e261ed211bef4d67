//! Completing an order whose due time has come.

use crate::errors::ONFTError;
use crate::item::events::ONFTAutoCompleted;
use crate::item::state::{step, NFTItem, ONFTStore};
use crate::pubkey::Pubkey;
use vstd::prelude::*;

verus! {

/// A check of an order against the clock; anyone may ask for it.
#[derive(Clone, Debug, PartialEq, Eq)]
pub struct CheckAutoCompletion {
    pub signer: Pubkey,
    pub onft_store: ONFTStore,
    pub nft_item: NFTItem,
}

#[derive(Clone, Copy, Debug, PartialEq, Eq)]
pub struct CheckAutoCompletionParams {
    pub token_id: u64,
}

impl CheckAutoCompletion {
    /// Whether the check completes the order at `now`: the collection is not
    /// paused, the order is under way, and its due time has come.
    pub open spec fn completes(self, now: i64) -> bool {
        !self.onft_store.paused && self.nft_item.auto_completion_due(now)
    }

    /// What a check that completed the order reports.
    pub open spec fn spec_event(self, params: CheckAutoCompletionParams, now: i64)
        -> ONFTAutoCompleted {
        ONFTAutoCompleted {
            token_id: params.token_id,
            completion_due_time: self.nft_item.completion_due_at->0,
            actual_completion_time: now,
        }
    }

    /// Completes the order at `now` if it is under way and due, and reports
    /// it; otherwise leaves everything as it is. Only a paused collection
    /// refuses the check.
    pub fn apply(
        ctx: &mut CheckAutoCompletion,
        params: &CheckAutoCompletionParams,
        now: i64,
    ) -> (r: Result<Option<ONFTAutoCompleted>, ONFTError>)
        ensures
            old(ctx).onft_store.paused ==> r == Err::<Option<ONFTAutoCompleted>, ONFTError>(
                ONFTError::SystemPaused,
            ),
            !old(ctx).onft_store.paused ==> r == Ok::<Option<ONFTAutoCompleted>, ONFTError>(
                if old(ctx).completes(now) {
                    Some(old(ctx).spec_event(*params, now))
                } else {
                    None
                },
            ),
            old(ctx).completes(now) ==> final(ctx).nft_item == old(ctx).nft_item.finished(now),
            !old(ctx).completes(now) ==> final(ctx).nft_item == old(ctx).nft_item,
            final(ctx).signer == old(ctx).signer,
            final(ctx).onft_store == old(ctx).onft_store,
            !old(ctx).nft_item.auto_completion_due(now) ==> *final(ctx) == *old(ctx),
            old(ctx).nft_item.wf() ==> final(ctx).nft_item.wf(),
            step(old(ctx).nft_item, final(ctx).nft_item),
    {
        if ctx.onft_store.paused {
            return Err(ONFTError::SystemPaused);
        }
        if !ctx.nft_item.check_auto_completion(now) {
            return Ok(None);
        }
        match ctx.nft_item.completion_due_at {
            Some(due) => Ok(
                Some(
                    ONFTAutoCompleted {
                        token_id: params.token_id,
                        completion_due_time: due,
                        actual_completion_time: now,
                    },
                ),
            ),
            None => Ok(None),
        }
    }
}

} // verus!
