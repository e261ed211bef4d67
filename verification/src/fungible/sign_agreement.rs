//! Recording the signature of a party.

use crate::errors::OFTError;
use crate::fungible::events::{ONFTAgreementSigned, ONFTStatusChanged};
use crate::fungible::state::{step, ONFTData, Role};
use crate::pubkey::Pubkey;
use crate::status::{due_time, OrderStatus};
use vstd::prelude::*;

verus! {

/// A signature: who signs, and which agreement.
#[derive(Clone, Copy, Debug, PartialEq, Eq)]
pub struct SignAgreement {
    pub signer: Pubkey,
    pub onft_data: ONFTData,
    /// The address of the agreement.
    pub onft_data_key: Pubkey,
}

impl SignAgreement {
    /// Whether this signature starts processing: the signer is a party, the
    /// agreement is fresh, and with this signature every party has signed.
    pub open spec fn starts_processing(self) -> bool {
        &&& self.onft_data.spec_role_of(self.signer) matches Some(role)
        &&& self.onft_data.status is Created
        &&& self.onft_data.signed(role).spec_all_signed()
    }

    /// The agreement after the signature at `now`, or why the signature is
    /// refused: only a caller who is no party of the agreement is.
    pub open spec fn spec_apply(self, now: i64) -> Result<ONFTData, OFTError> {
        match self.onft_data.spec_role_of(self.signer) {
            None => Err(OFTError::Unauthorized),
            Some(role) => if self.starts_processing() {
                Ok(self.onft_data.signed(role).started(now))
            } else {
                Ok(self.onft_data.signed(role))
            },
        }
    }

    /// Whether `event` reports the signature of the party in `role` at `now`.
    pub open spec fn is_signed_event(
        self,
        role: Role,
        now: i64,
        event: ONFTAgreementSigned,
    ) -> bool {
        &&& event.nft_data == self.onft_data_key
        &&& event.signer == self.signer
        &&& event.role@ == role.spec_name()
        &&& event.timestamp == now
    }

    /// What the start of processing at `now` reports.
    pub open spec fn spec_started_event(self, now: i64) -> ONFTStatusChanged {
        ONFTStatusChanged {
            nft_data: self.onft_data_key,
            old_status: OrderStatus::Created,
            new_status: OrderStatus::Processing,
            changed_by: self.signer,
            timestamp: now,
        }
    }

    /// Whether this signature starts processing. A caller asks this to know
    /// whether the due time has to be in range.
    pub fn will_start_processing(ctx: &SignAgreement) -> (r: bool)
        ensures
            r == ctx.starts_processing(),
    {
        match ctx.onft_data.role_of(&ctx.signer) {
            None => false,
            Some(role) => ctx.onft_data.status == OrderStatus::Created && (role == Role::Admin
                || ctx.onft_data.admin_signed) && (role == Role::User1
                || ctx.onft_data.user_1_signed) && (role == Role::User2
                || ctx.onft_data.user_2_signed),
        }
    }

    /// Records that the caller signs. To sign again changes nothing. The
    /// signature that completes the set on a fresh agreement also starts
    /// processing at `now`, which is reported as a change of status.
    pub fn apply(ctx: &mut SignAgreement, now: i64) -> (r: Result<
        (ONFTAgreementSigned, Option<ONFTStatusChanged>),
        OFTError,
    >)
        requires
            old(ctx).starts_processing() ==> due_time(
                now as int,
                old(ctx).onft_data.agreement_days as int,
            ) <= i64::MAX,
        ensures
            match old(ctx).spec_apply(now) {
                Ok(data) => {
                    &&& r matches Ok((signed, started))
                    &&& old(ctx).onft_data.spec_role_of(old(ctx).signer) matches Some(role)
                    &&& old(ctx).is_signed_event(role, now, signed)
                    &&& started == if old(ctx).starts_processing() {
                        Some(old(ctx).spec_started_event(now))
                    } else {
                        None
                    }
                    &&& final(ctx).onft_data == data
                    &&& final(ctx).signer == old(ctx).signer
                    &&& final(ctx).onft_data_key == old(ctx).onft_data_key
                },
                Err(e) => r == Err::<(ONFTAgreementSigned, Option<ONFTStatusChanged>), OFTError>(
                    e,
                ) && *final(ctx) == *old(ctx),
            },
            old(ctx).onft_data.wf() ==> final(ctx).onft_data.wf(),
            step(old(ctx).onft_data, final(ctx).onft_data),
    {
        let role = match ctx.onft_data.role_of(&ctx.signer) {
            Some(role) => role,
            None => {
                return Err(OFTError::Unauthorized);
            },
        };
        match role {
            Role::Admin => {
                ctx.onft_data.admin_signed = true;
            },
            Role::User1 => {
                ctx.onft_data.user_1_signed = true;
            },
            Role::User2 => {
                ctx.onft_data.user_2_signed = true;
            },
        }
        let signed = ONFTAgreementSigned {
            nft_data: ctx.onft_data_key,
            signer: ctx.signer,
            role: role.name(),
            timestamp: now,
        };
        if ctx.onft_data.all_signed() && ctx.onft_data.status == OrderStatus::Created {
            ctx.onft_data.start(now);
            return Ok(
                (
                    signed,
                    Some(
                        ONFTStatusChanged {
                            nft_data: ctx.onft_data_key,
                            old_status: OrderStatus::Created,
                            new_status: OrderStatus::Processing,
                            changed_by: ctx.signer,
                            timestamp: now,
                        },
                    ),
                ),
            );
        }
        Ok((signed, None))
    }
}

} // verus!
