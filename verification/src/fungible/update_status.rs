//! Moving an agreement to its next status on request.

use crate::errors::OFTError;
use crate::fungible::events::ONFTStatusChanged;
use crate::fungible::state::{step, ONFTData};
use crate::pubkey::Pubkey;
use crate::status::{due_time, OrderStatus};
use vstd::prelude::*;

verus! {

/// A request to move an agreement: who asks, and for which agreement.
#[derive(Clone, Copy, Debug, PartialEq, Eq)]
pub struct UpdateStatus {
    /// The caller, who must be the receiving user.
    pub user_2: Pubkey,
    pub onft_data: ONFTData,
    /// The address of the agreement.
    pub onft_data_key: Pubkey,
}

#[derive(Clone, Copy, Debug, PartialEq, Eq)]
pub struct UpdateStatusParams {
    pub new_status: OrderStatus,
}

impl UpdateStatus {
    /// The agreement that the request leaves at `now`, or why it is refused.
    ///
    /// Nothing leads back to `Created`, whoever asks. Otherwise a caller
    /// other than the receiving user is refused, then a status that does not
    /// follow the current one, then a completion before every party signed.
    pub open spec fn spec_apply(self, params: UpdateStatusParams, now: i64) -> Result<
        ONFTData,
        OFTError,
    > {
        if params.new_status is Created {
            Err(OFTError::InvalidTransition)
        } else if self.user_2 != self.onft_data.user_2 {
            Err(OFTError::Unauthorized)
        } else if params.new_status is Processing {
            if self.onft_data.status is Created {
                Ok(self.onft_data.started(now))
            } else {
                Err(OFTError::InvalidTransition)
            }
        } else if !(self.onft_data.status is Processing) {
            Err(OFTError::InvalidTransition)
        } else if !self.onft_data.spec_all_signed() {
            Err(OFTError::MissingSignatures)
        } else {
            Ok(self.onft_data.finished(now))
        }
    }

    /// Whether the request is granted and starts processing, which fixes the
    /// due time.
    pub open spec fn starts_processing(self, params: UpdateStatusParams) -> bool {
        &&& params.new_status is Processing
        &&& self.user_2 == self.onft_data.user_2
        &&& self.onft_data.status is Created
    }

    /// What a granted request reports.
    pub open spec fn spec_event(self, params: UpdateStatusParams, now: i64) -> ONFTStatusChanged {
        ONFTStatusChanged {
            nft_data: self.onft_data_key,
            old_status: self.onft_data.status,
            new_status: params.new_status,
            changed_by: self.user_2,
            timestamp: now,
        }
    }

    /// Whether the request is granted and starts processing. A caller asks
    /// this to know whether the due time has to be in range.
    pub fn will_start_processing(ctx: &UpdateStatus, params: &UpdateStatusParams) -> (r: bool)
        ensures
            r == ctx.starts_processing(*params),
    {
        params.new_status == OrderStatus::Processing && ctx.user_2.equals(&ctx.onft_data.user_2)
            && ctx.onft_data.status == OrderStatus::Created
    }

    /// Moves the agreement to `params.new_status` at `now` if the request is
    /// granted, and reports the change; a refused request changes nothing.
    ///
    /// Only a request that starts processing computes a due time, and only
    /// of such a request the due time is asked to be in range.
    pub fn apply(ctx: &mut UpdateStatus, params: &UpdateStatusParams, now: i64) -> (r: Result<
        ONFTStatusChanged,
        OFTError,
    >)
        requires
            old(ctx).starts_processing(*params) ==> due_time(
                now as int,
                old(ctx).onft_data.agreement_days as int,
            ) <= i64::MAX,
        ensures
            match old(ctx).spec_apply(*params, now) {
                Ok(data) => {
                    &&& r == Ok::<ONFTStatusChanged, OFTError>(old(ctx).spec_event(*params, now))
                    &&& final(ctx).onft_data == data
                    &&& final(ctx).user_2 == old(ctx).user_2
                    &&& final(ctx).onft_data_key == old(ctx).onft_data_key
                },
                Err(e) => r == Err::<ONFTStatusChanged, OFTError>(e) && *final(ctx) == *old(ctx),
            },
            old(ctx).onft_data.wf() ==> final(ctx).onft_data.wf(),
            step(old(ctx).onft_data, final(ctx).onft_data),
    {
        let old_status = ctx.onft_data.status;
        match params.new_status {
            OrderStatus::Created => {
                return Err(OFTError::InvalidTransition);
            },
            OrderStatus::Processing => {
                if !ctx.user_2.equals(&ctx.onft_data.user_2) {
                    return Err(OFTError::Unauthorized);
                }
                if old_status != OrderStatus::Created {
                    return Err(OFTError::InvalidTransition);
                }
                ctx.onft_data.start(now);
            },
            OrderStatus::Completed => {
                if !ctx.user_2.equals(&ctx.onft_data.user_2) {
                    return Err(OFTError::Unauthorized);
                }
                if old_status != OrderStatus::Processing {
                    return Err(OFTError::InvalidTransition);
                }
                if !ctx.onft_data.all_signed() {
                    return Err(OFTError::MissingSignatures);
                }
                ctx.onft_data.finish(now);
            },
        }
        Ok(
            ONFTStatusChanged {
                nft_data: ctx.onft_data_key,
                old_status,
                new_status: params.new_status,
                changed_by: ctx.user_2,
                timestamp: now,
            },
        )
    }
}

} // verus!
