//! Completing an agreement whose due time has come.

use crate::errors::OFTError;
use crate::fungible::events::ONFTStatusChanged;
use crate::fungible::state::{step, ONFTData};
use crate::pubkey::Pubkey;
use crate::status::OrderStatus;
use vstd::prelude::*;

verus! {

/// A check of an agreement against the clock; anyone may ask for it.
#[derive(Clone, Copy, Debug, PartialEq, Eq)]
pub struct AutoComplete {
    pub signer: Pubkey,
    pub onft_data: ONFTData,
    /// The address of the agreement.
    pub onft_data_key: Pubkey,
}

impl AutoComplete {
    /// Whether the check completes the agreement at `now`, or why it is
    /// refused. An agreement that is not under way or not yet due is left
    /// alone; one that is due but lacks a signature is refused.
    pub open spec fn spec_completes(self, now: i64) -> Result<bool, OFTError> {
        if !self.onft_data.auto_completion_due(now) {
            Ok(false)
        } else if !self.onft_data.spec_all_signed() {
            Err(OFTError::MissingSignatures)
        } else {
            Ok(true)
        }
    }

    /// What a check that completed the agreement at `now` reports.
    pub open spec fn spec_event(self, now: i64) -> ONFTStatusChanged {
        ONFTStatusChanged {
            nft_data: self.onft_data_key,
            old_status: OrderStatus::Processing,
            new_status: OrderStatus::Completed,
            changed_by: self.signer,
            timestamp: now,
        }
    }

    /// Completes the agreement at `now` if it is under way, due and signed by
    /// every party, and reports it; otherwise leaves everything as it is.
    pub fn apply(ctx: &mut AutoComplete, now: i64) -> (r: Result<
        Option<ONFTStatusChanged>,
        OFTError,
    >)
        ensures
            match old(ctx).spec_completes(now) {
                Ok(true) => {
                    &&& r == Ok::<Option<ONFTStatusChanged>, OFTError>(
                        Some(old(ctx).spec_event(now)),
                    )
                    &&& final(ctx).onft_data == old(ctx).onft_data.finished(now)
                    &&& final(ctx).signer == old(ctx).signer
                    &&& final(ctx).onft_data_key == old(ctx).onft_data_key
                },
                Ok(false) => r == Ok::<Option<ONFTStatusChanged>, OFTError>(None) && *final(ctx)
                    == *old(ctx),
                Err(e) => r == Err::<Option<ONFTStatusChanged>, OFTError>(e) && *final(ctx)
                    == *old(ctx),
            },
            !old(ctx).onft_data.auto_completion_due(now) ==> *final(ctx) == *old(ctx),
            old(ctx).onft_data.wf() ==> final(ctx).onft_data.wf(),
            step(old(ctx).onft_data, final(ctx).onft_data),
    {
        if ctx.onft_data.status != OrderStatus::Processing {
            return Ok(None);
        }
        match ctx.onft_data.completion_due_at {
            Some(due) => {
                if now < due {
                    return Ok(None);
                }
            },
            None => {
                return Ok(None);
            },
        }
        if !ctx.onft_data.all_signed() {
            return Err(OFTError::MissingSignatures);
        }
        ctx.onft_data.finish(now);
        Ok(
            Some(
                ONFTStatusChanged {
                    nft_data: ctx.onft_data_key,
                    old_status: OrderStatus::Processing,
                    new_status: OrderStatus::Completed,
                    changed_by: ctx.signer,
                    timestamp: now,
                },
            ),
        )
    }
}

} // verus!
