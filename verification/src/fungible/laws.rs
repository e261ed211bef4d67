//! What holds of every agreement, whatever is asked of it.

use crate::errors::OFTError;
use crate::fungible::sign_agreement::SignAgreement;
use crate::fungible::state::{is_history, step, ONFTData};
use crate::fungible::transfer_funds::TransferFunds;
use crate::status::due_time;
use vstd::prelude::*;

verus! {

/// No step takes the status back, and none passes over `Processing`.
pub proof fn lemma_step_moves_forward(before: ONFTData, after: ONFTData)
    requires
        step(before, after),
    ensures
        before.status.rank() <= after.status.rank() <= before.status.rank() + 1,
{
}

/// The status only moves forward: of two agreements in a history, the later
/// one stands at least as far in the lifecycle as the earlier one.
pub proof fn lemma_status_moves_forward(trace: Seq<ONFTData>, i: int, j: int)
    requires
        is_history(trace),
        0 <= i <= j < trace.len(),
    ensures
        trace[i].status.rank() <= trace[j].status.rank(),
    decreases j - i,
{
    if i < j {
        lemma_status_moves_forward(trace, i, j - 1);
        lemma_step_moves_forward(trace[j - 1], trace[j]);
    }
}

/// The due time is fixed when processing starts and no step changes it
/// afterwards; the same holds of the start of processing.
pub proof fn lemma_due_time_is_kept(before: ONFTData, after: ONFTData)
    requires
        step(before, after),
        !(before.status is Created),
    ensures
        after.completion_due_at == before.completion_due_at,
        after.processing_at == before.processing_at,
{
}

/// No step takes a signature back.
pub proof fn lemma_signatures_stay(before: ONFTData, after: ONFTData)
    requires
        step(before, after),
    ensures
        before.admin_signed ==> after.admin_signed,
        before.user_1_signed ==> after.user_1_signed,
        before.user_2_signed ==> after.user_2_signed,
{
}

/// Processing of a consistent agreement can start: there is a time, not
/// before its creation, from which the agreed period ends within the range
/// of a timestamp.
pub proof fn lemma_processing_can_start(data: ONFTData)
    requires
        data.wf(),
    ensures
        exists|now: i64|
            now >= data.created_at && #[trigger] due_time(now as int, data.agreement_days as int)
                <= i64::MAX,
{
    assert(due_time(data.created_at as int, data.agreement_days as int) <= i64::MAX);
}

/// To sign twice is to sign once: the second signature of a party is
/// recorded like the first and leaves the agreement as the first left it,
/// whenever it comes.
pub proof fn lemma_sign_idempotent(ctx: SignAgreement, first: i64, second: i64)
    requires
        ctx.spec_apply(first) is Ok,
    ensures
        (SignAgreement { onft_data: ctx.spec_apply(first)->Ok_0, ..ctx }).spec_apply(second)
            == ctx.spec_apply(first),
{
}

/// Funds are paid out once: after a granted request, every further request
/// on the same agreement is refused.
pub proof fn lemma_release_once(first: TransferFunds, second: TransferFunds)
    requires
        first.spec_refusal() is None,
        second.onft_data == first.onft_data.paid_out(),
    ensures
        second.spec_refusal() is Some,
{
}

/// Funds are paid out of a completed agreement only.
pub proof fn lemma_release_needs_completion(ctx: TransferFunds)
    requires
        !(ctx.onft_data.status is Completed),
    ensures
        ctx.spec_refusal() == Some(OFTError::OrderNotComplete),
{
}

} // verus!
