//! Paying out the funds of a completed agreement.

use crate::errors::OFTError;
use crate::fungible::events::ONFTFundsTransferred;
use crate::fungible::state::{step, ONFTData};
use crate::pubkey::Pubkey;
use crate::status::OrderStatus;
use crate::token::TokenTransfer;
use vstd::prelude::*;

verus! {

/// A request to pay out: the administrator who asks, the agreement, the
/// vault with what it holds, and the user to pay with the account to pay
/// into.
#[derive(Clone, Copy, Debug, PartialEq, Eq)]
pub struct TransferFunds {
    pub admin: Pubkey,
    pub onft_data: ONFTData,
    /// The address of the agreement, which signs for the vault.
    pub onft_data_key: Pubkey,
    pub usdc_vault: Pubkey,
    /// The balance of the vault.
    pub vault_amount: u64,
    pub user_2_usdc_account: Pubkey,
    pub user_2: Pubkey,
}

impl TransferFunds {
    /// Why the request is refused, if it is: an agreement that is not
    /// completed first, then a caller who is not its administrator or a
    /// recipient who is not its receiving user, then a missing signature,
    /// then funds that were paid out before.
    pub open spec fn spec_refusal(self) -> Option<OFTError> {
        if !(self.onft_data.status is Completed) {
            Some(OFTError::OrderNotComplete)
        } else if self.admin != self.onft_data.admin || self.user_2 != self.onft_data.user_2 {
            Some(OFTError::Unauthorized)
        } else if !self.onft_data.spec_all_signed() {
            Some(OFTError::MissingSignatures)
        } else if self.onft_data.released {
            Some(OFTError::AlreadyReleased)
        } else {
            None
        }
    }

    /// The payment: all that the vault holds, into the receiving user's
    /// account, signed by the agreement.
    pub open spec fn spec_payment(self) -> TokenTransfer {
        TokenTransfer {
            from: self.usdc_vault,
            to: self.user_2_usdc_account,
            authority: self.onft_data_key,
            amount: self.vault_amount,
        }
    }

    /// What a granted request reports.
    pub open spec fn spec_event(self) -> ONFTFundsTransferred {
        ONFTFundsTransferred {
            nft_data: self.onft_data_key,
            from: self.usdc_vault,
            to: self.user_2,
            amount: self.vault_amount,
        }
    }

    /// Marks the funds of a completed agreement as paid out, once, and
    /// returns the payment that the caller has to carry out together with
    /// the report. A refused request changes nothing.
    pub fn apply(ctx: &mut TransferFunds) -> (r: Result<
        (TokenTransfer, ONFTFundsTransferred),
        OFTError,
    >)
        ensures
            match old(ctx).spec_refusal() {
                Some(e) => r == Err::<(TokenTransfer, ONFTFundsTransferred), OFTError>(e)
                    && *final(ctx) == *old(ctx),
                None => {
                    &&& r == Ok::<(TokenTransfer, ONFTFundsTransferred), OFTError>(
                        (old(ctx).spec_payment(), old(ctx).spec_event()),
                    )
                    &&& *final(ctx) == (TransferFunds {
                        onft_data: old(ctx).onft_data.paid_out(),
                        ..*old(ctx)
                    })
                },
            },
            !(old(ctx).onft_data.status is Completed) ==> r == Err::<
                (TokenTransfer, ONFTFundsTransferred),
                OFTError,
            >(OFTError::OrderNotComplete),
            old(ctx).onft_data.wf() ==> final(ctx).onft_data.wf(),
            final(ctx).onft_data.status == old(ctx).onft_data.status,
            step(old(ctx).onft_data, final(ctx).onft_data),
    {
        if ctx.onft_data.status != OrderStatus::Completed {
            return Err(OFTError::OrderNotComplete);
        }
        if !ctx.admin.equals(&ctx.onft_data.admin) || !ctx.user_2.equals(&ctx.onft_data.user_2) {
            return Err(OFTError::Unauthorized);
        }
        if !ctx.onft_data.all_signed() {
            return Err(OFTError::MissingSignatures);
        }
        if ctx.onft_data.released {
            return Err(OFTError::AlreadyReleased);
        }
        ctx.onft_data.released = true;
        Ok(
            (
                TokenTransfer {
                    from: ctx.usdc_vault,
                    to: ctx.user_2_usdc_account,
                    authority: ctx.onft_data_key,
                    amount: ctx.vault_amount,
                },
                ONFTFundsTransferred {
                    nft_data: ctx.onft_data_key,
                    from: ctx.usdc_vault,
                    to: ctx.user_2,
                    amount: ctx.vault_amount,
                },
            ),
        )
    }
}

} // verus!
