//! Moving an order to its next status on request.

use crate::errors::ONFTError;
use crate::item::events::ONFTStatusChanged;
use crate::item::state::{step, NFTItem, ONFTStore};
use crate::pubkey::Pubkey;
use crate::status::{due_time, OrderStatus};
use vstd::prelude::*;

verus! {

/// A request to move an order: who asks, under which collection, for which
/// item.
#[derive(Clone, Debug, PartialEq, Eq)]
pub struct UpdateStatus {
    pub signer: Pubkey,
    pub onft_store: ONFTStore,
    pub nft_item: NFTItem,
}

#[derive(Clone, Copy, Debug, PartialEq, Eq)]
pub struct UpdateStatusParams {
    pub token_id: u64,
    pub new_status: OrderStatus,
}

impl UpdateStatus {
    /// Whether `signer` may ask to move `item` to `new_status`: the owner or
    /// a signer that has approved may start processing, and only the
    /// receiving signer may complete.
    pub open spec fn may_request(item: NFTItem, signer: Pubkey, new_status: OrderStatus) -> bool {
        match new_status {
            OrderStatus::Created => false,
            OrderStatus::Processing => signer == item.owner || item.spec_is_approved_signer(
                signer,
            ),
            OrderStatus::Completed => item.signers@[1] == Some(signer),
        }
    }

    /// The order that the request leaves at `now`, or why it is refused.
    ///
    /// Nothing leads back to `Created`, whoever asks. Otherwise a paused
    /// collection refuses, then a caller without the role, then a start of
    /// processing before both signers approved, then a status that does not
    /// follow the current one.
    pub open spec fn spec_apply(self, params: UpdateStatusParams, now: i64) -> Result<
        NFTItem,
        ONFTError,
    > {
        if params.new_status is Created {
            Err(ONFTError::InvalidTransition)
        } else if self.onft_store.paused {
            Err(ONFTError::SystemPaused)
        } else if !Self::may_request(self.nft_item, self.signer, params.new_status) {
            Err(ONFTError::Unauthorized)
        } else if params.new_status is Processing && !self.nft_item.spec_all_approved() {
            Err(ONFTError::InsufficientApprovals)
        } else {
            self.nft_item.spec_change_status(params.new_status, now)
        }
    }

    /// Whether the request is granted and starts processing, which fixes the
    /// due time.
    pub open spec fn starts_processing(self, params: UpdateStatusParams) -> bool {
        &&& params.new_status is Processing
        &&& !self.onft_store.paused
        &&& Self::may_request(self.nft_item, self.signer, params.new_status)
        &&& self.nft_item.spec_all_approved()
        &&& self.nft_item.status is Created
    }

    /// What a granted request reports.
    pub open spec fn spec_event(self, params: UpdateStatusParams, now: i64) -> ONFTStatusChanged {
        ONFTStatusChanged {
            token_id: params.token_id,
            previous_status: self.nft_item.status,
            new_status: params.new_status,
            changed_by: self.signer,
            timestamp: now,
        }
    }

    /// Whether `signer` may ask to move `item` to `new_status`.
    fn check_role(item: &NFTItem, signer: &Pubkey, new_status: OrderStatus) -> (r: bool)
        ensures
            r == Self::may_request(*item, *signer, new_status),
    {
        match new_status {
            OrderStatus::Created => false,
            OrderStatus::Processing => signer.equals(&item.owner) || item.is_approved_signer(
                signer,
            ),
            OrderStatus::Completed => match &item.signers[1] {
                Some(receiver) => receiver.equals(signer),
                None => false,
            },
        }
    }

    /// Whether the request is granted and starts processing. A caller asks
    /// this to know whether the due time has to be in range.
    pub fn will_start_processing(ctx: &UpdateStatus, params: &UpdateStatusParams) -> (r: bool)
        ensures
            r == ctx.starts_processing(*params),
    {
        params.new_status == OrderStatus::Processing && !ctx.onft_store.paused && Self::check_role(
            &ctx.nft_item,
            &ctx.signer,
            params.new_status,
        ) && ctx.nft_item.all_approved() && ctx.nft_item.status == OrderStatus::Created
    }

    /// Moves the order to `params.new_status` at `now` if the request is
    /// granted, and reports the change; a refused request changes nothing.
    ///
    /// Only a request that starts processing computes a due time, and only
    /// of such a request the due time is asked to be in range.
    pub fn apply(ctx: &mut UpdateStatus, params: &UpdateStatusParams, now: i64) -> (r: Result<
        ONFTStatusChanged,
        ONFTError,
    >)
        requires
            old(ctx).starts_processing(*params) ==> due_time(
                now as int,
                old(ctx).nft_item.days_to_complete as int,
            ) <= i64::MAX,
        ensures
            match old(ctx).spec_apply(*params, now) {
                Ok(item) => {
                    &&& r == Ok::<ONFTStatusChanged, ONFTError>(old(ctx).spec_event(*params, now))
                    &&& final(ctx).nft_item == item
                    &&& final(ctx).signer == old(ctx).signer
                    &&& final(ctx).onft_store == old(ctx).onft_store
                },
                Err(e) => r == Err::<ONFTStatusChanged, ONFTError>(e) && *final(ctx) == *old(ctx),
            },
            old(ctx).nft_item.wf() ==> final(ctx).nft_item.wf(),
            step(old(ctx).nft_item, final(ctx).nft_item),
    {
        if params.new_status == OrderStatus::Created {
            return Err(ONFTError::InvalidTransition);
        }
        if ctx.onft_store.paused {
            return Err(ONFTError::SystemPaused);
        }
        if !Self::check_role(&ctx.nft_item, &ctx.signer, params.new_status) {
            return Err(ONFTError::Unauthorized);
        }
        if params.new_status == OrderStatus::Processing && !ctx.nft_item.all_approved() {
            return Err(ONFTError::InsufficientApprovals);
        }
        let previous_status = ctx.nft_item.status;
        match ctx.nft_item.change_status(params.new_status, now) {
            Ok(()) => Ok(
                ONFTStatusChanged {
                    token_id: params.token_id,
                    previous_status,
                    new_status: params.new_status,
                    changed_by: ctx.signer,
                    timestamp: now,
                },
            ),
            Err(e) => Err(e),
        }
    }
}

} // verus!
