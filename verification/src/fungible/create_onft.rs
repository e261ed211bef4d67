//! Opening an agreement.

use crate::errors::OFTError;
use crate::fungible::events::ONFTCreated;
use crate::fungible::state::{ONFTData, ONFTStore};
use crate::pubkey::Pubkey;
use crate::status::{due_time, OrderStatus, SECONDS_PER_DAY};
use crate::token::TokenTransfer;
use vstd::prelude::*;

verus! {

/// A request to open an agreement: the administrator, the user who pays and
/// the user who receives, the token and the accounts that hold it.
#[derive(Clone, Copy, Debug, PartialEq, Eq)]
pub struct CreateONFT {
    pub admin: Pubkey,
    pub user_1: Pubkey,
    pub user_2: Pubkey,
    pub usdc_mint: Pubkey,
    /// The token account that will hold the locked amount.
    pub usdc_vault: Pubkey,
    /// The token account that the first user pays from.
    pub user_1_usdc_account: Pubkey,
    pub onft_store: ONFTStore,
}

#[derive(Clone, Copy, Debug, PartialEq, Eq)]
pub struct CreateONFTParams {
    pub amount: u64,
    pub agreement_days: u64,
}

impl CreateONFT {
    /// Whether the administrator and the two users are three addresses. An
    /// address that stood in two places could sign for one of them only, and
    /// the agreement could never be completed.
    pub open spec fn distinct_parties(self) -> bool {
        self.admin != self.user_1 && self.admin != self.user_2 && self.user_1 != self.user_2
    }

    /// Why the request is refused at `now`, if it is: a paused deployment
    /// first, then an amount of zero, parties of which two are one address,
    /// or a period that, counted from `now`, ends beyond the range of a
    /// timestamp. Processing of such an agreement could never start, and its
    /// funds would stay locked.
    pub open spec fn spec_refusal(self, params: CreateONFTParams, now: i64) -> Option<OFTError> {
        if self.onft_store.paused {
            Some(OFTError::SystemPaused)
        } else if params.amount == 0 || !self.distinct_parties() || due_time(
            now as int,
            params.agreement_days as int,
        ) > i64::MAX {
            Some(OFTError::InvalidPayload)
        } else {
            None
        }
    }

    /// The agreement that a granted request opens at `now`.
    pub open spec fn spec_data(
        self,
        params: CreateONFTParams,
        onft_data_bump: u8,
        usdc_vault_bump: u8,
        now: i64,
    ) -> ONFTData {
        ONFTData {
            admin: self.admin,
            user_1: self.user_1,
            user_2: self.user_2,
            usdc_mint: self.usdc_mint,
            usdc_vault: self.usdc_vault,
            amount: params.amount,
            status: OrderStatus::Created,
            agreement_days: params.agreement_days,
            created_at: now,
            processing_at: None,
            completion_due_at: None,
            completed_at: None,
            admin_signed: false,
            user_1_signed: false,
            user_2_signed: false,
            released: false,
            bump: onft_data_bump,
            vault_bump: usdc_vault_bump,
        }
    }

    /// The payment that locks the amount: from the first user's account into
    /// the vault, signed by the first user.
    pub open spec fn spec_deposit(self, params: CreateONFTParams) -> TokenTransfer {
        TokenTransfer {
            from: self.user_1_usdc_account,
            to: self.usdc_vault,
            authority: self.user_1,
            amount: params.amount,
        }
    }

    /// What a granted request reports.
    pub open spec fn spec_event(self, params: CreateONFTParams) -> ONFTCreated {
        ONFTCreated {
            admin: self.admin,
            user_1: self.user_1,
            user_2: self.user_2,
            amount: params.amount,
            agreement_days: params.agreement_days,
        }
    }

    /// Opens an agreement at `now`: in `Created`, with no signature. Returns
    /// the agreement, the payment that the caller has to carry out to lock
    /// the amount, and the report.
    pub fn apply(
        ctx: &CreateONFT,
        params: &CreateONFTParams,
        onft_data_bump: u8,
        usdc_vault_bump: u8,
        now: i64,
    ) -> (r: Result<(ONFTData, TokenTransfer, ONFTCreated), OFTError>)
        ensures
            match ctx.spec_refusal(*params, now) {
                Some(e) => r == Err::<(ONFTData, TokenTransfer, ONFTCreated), OFTError>(e),
                None => r == Ok::<(ONFTData, TokenTransfer, ONFTCreated), OFTError>(
                    (
                        ctx.spec_data(*params, onft_data_bump, usdc_vault_bump, now),
                        ctx.spec_deposit(*params),
                        ctx.spec_event(*params),
                    ),
                ),
            },
            r matches Ok((data, _, _)) ==> data.wf() && data.admin != data.user_1 && data.admin
                != data.user_2 && data.user_1 != data.user_2,
    {
        if ctx.onft_store.paused {
            return Err(OFTError::SystemPaused);
        }
        if params.amount == 0 {
            return Err(OFTError::InvalidPayload);
        }
        if ctx.admin.equals(&ctx.user_1) || ctx.admin.equals(&ctx.user_2) || ctx.user_1.equals(
            &ctx.user_2,
        ) {
            return Err(OFTError::InvalidPayload);
        }
        let due: i128 = now as i128 + params.agreement_days as i128 * SECONDS_PER_DAY as i128;
        if due > i64::MAX as i128 {
            return Err(OFTError::InvalidPayload);
        }
        Ok(
            (
                ONFTData {
                    admin: ctx.admin,
                    user_1: ctx.user_1,
                    user_2: ctx.user_2,
                    usdc_mint: ctx.usdc_mint,
                    usdc_vault: ctx.usdc_vault,
                    amount: params.amount,
                    status: OrderStatus::Created,
                    agreement_days: params.agreement_days,
                    created_at: now,
                    processing_at: None,
                    completion_due_at: None,
                    completed_at: None,
                    admin_signed: false,
                    user_1_signed: false,
                    user_2_signed: false,
                    released: false,
                    bump: onft_data_bump,
                    vault_bump: usdc_vault_bump,
                },
                TokenTransfer {
                    from: ctx.user_1_usdc_account,
                    to: ctx.usdc_vault,
                    authority: ctx.user_1,
                    amount: params.amount,
                },
                ONFTCreated {
                    admin: ctx.admin,
                    user_1: ctx.user_1,
                    user_2: ctx.user_2,
                    amount: params.amount,
                    agreement_days: params.agreement_days,
                },
            ),
        )
    }
}

} // verus!
