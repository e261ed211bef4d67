//! What holds of every order, whatever is asked of it.

use crate::errors::ONFTError;
use crate::item::approve_nft::ApproveNFT;
use crate::item::state::{is_history, step, NFTItem};
use crate::item::update_status::{UpdateStatus, UpdateStatusParams};
use vstd::prelude::*;

verus! {

/// A granted approval is a step.
pub proof fn lemma_approval_is_step(ctx: ApproveNFT)
    requires
        ctx.spec_apply() is Ok,
    ensures
        step(ctx.nft_item, ctx.spec_apply()->Ok_0),
{
    let index = ctx.spec_index()->Ok_0;
    assert(ctx.spec_apply()->Ok_0 == ctx.nft_item.approved(index));
}

/// A granted request to move the status is a step.
pub proof fn lemma_update_is_step(ctx: UpdateStatus, params: UpdateStatusParams, now: i64)
    requires
        ctx.spec_apply(params, now) is Ok,
    ensures
        step(ctx.nft_item, ctx.spec_apply(params, now)->Ok_0),
{
    let after = ctx.spec_apply(params, now)->Ok_0;
    assert(ctx.nft_item.spec_change_status(params.new_status, now) == Ok::<NFTItem, ONFTError>(
        after,
    ));
}

/// No step takes the status back, and none passes over `Processing`.
pub proof fn lemma_step_moves_forward(before: NFTItem, after: NFTItem)
    requires
        step(before, after),
    ensures
        before.status.rank() <= after.status.rank() <= before.status.rank() + 1,
{
}

/// The status only moves forward: of two orders in a history, the later one
/// stands at least as far in the lifecycle as the earlier one.
pub proof fn lemma_status_moves_forward(trace: Seq<NFTItem>, i: int, j: int)
    requires
        is_history(trace),
        0 <= i <= j < trace.len(),
    ensures
        trace[i].status.rank() <= trace[j].status.rank(),
    decreases j - i,
{
    if i < j {
        lemma_status_moves_forward(trace, i, j - 1);
        lemma_step_moves_forward(trace[j - 1], trace[j]);
    }
}

/// The due time is fixed when processing starts and no step changes it
/// afterwards; the same holds of the start of processing.
pub proof fn lemma_due_time_is_kept(before: NFTItem, after: NFTItem)
    requires
        step(before, after),
        !(before.status is Created),
    ensures
        after.completion_due_at == before.completion_due_at,
        after.processing_at == before.processing_at,
{
}

/// No step takes an approval back.
pub proof fn lemma_approvals_stay(before: NFTItem, after: NFTItem, index: int)
    requires
        step(before, after),
        0 <= index < 2,
        before.signer_approvals@[index],
    ensures
        after.signer_approvals@[index],
{
}

/// To approve twice is to approve once: the second approval of a signer is
/// granted like the first and leaves the order as the first left it.
pub proof fn lemma_approve_idempotent(ctx: ApproveNFT)
    requires
        ctx.spec_apply() is Ok,
    ensures
        (ApproveNFT { nft_item: ctx.spec_apply()->Ok_0, ..ctx }).spec_apply() == ctx.spec_apply(),
{
    let index = ctx.spec_index()->Ok_0;
    let once = ctx.nft_item.approved(index);
    assert(once.approved(index).signer_approvals =~= once.signer_approvals);
}

} // verus!
