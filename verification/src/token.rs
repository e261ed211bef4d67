//! Movements of tokens, which the caller carries out.

use crate::pubkey::Pubkey;
use vstd::prelude::*;

verus! {

/// An order to move `amount` tokens from one token account to another, signed
/// by `authority`.
#[derive(Clone, Copy, Debug, PartialEq, Eq)]
pub struct TokenTransfer {
    pub from: Pubkey,
    pub to: Pubkey,
    pub authority: Pubkey,
    pub amount: u64,
}

} // verus!
