//! What each operation on an agreement reports.

use crate::pubkey::Pubkey;
use crate::status::OrderStatus;
use vstd::prelude::*;

verus! {

/// Tokens left for another chain. The token bridge that shares the program
/// with the escrow reports this; no operation of the escrow does.
#[derive(Clone, Copy, Debug, PartialEq, Eq)]
pub struct OFTSent {
    pub guid: [u8; 32],
    pub dst_eid: u32,
    pub from: Pubkey,
    pub amount_sent_ld: u64,
    pub amount_received_ld: u64,
}

/// Tokens arrived from another chain. The token bridge that shares the
/// program with the escrow reports this; no operation of the escrow does.
#[derive(Clone, Copy, Debug, PartialEq, Eq)]
pub struct OFTReceived {
    pub guid: [u8; 32],
    pub src_eid: u32,
    pub to: Pubkey,
    pub amount_received_ld: u64,
}

/// An agreement was opened.
#[derive(Clone, Copy, Debug, PartialEq, Eq)]
pub struct ONFTCreated {
    pub admin: Pubkey,
    pub user_1: Pubkey,
    pub user_2: Pubkey,
    pub amount: u64,
    pub agreement_days: u64,
}

/// An agreement moved from one status to the next.
#[derive(Clone, Copy, Debug, PartialEq, Eq)]
pub struct ONFTStatusChanged {
    pub nft_data: Pubkey,
    pub old_status: OrderStatus,
    pub new_status: OrderStatus,
    pub changed_by: Pubkey,
    pub timestamp: i64,
}

/// A party signed.
#[derive(Clone, Debug, PartialEq, Eq)]
pub struct ONFTAgreementSigned {
    pub nft_data: Pubkey,
    pub signer: Pubkey,
    pub role: String,
    pub timestamp: i64,
}

/// The locked funds were paid out.
#[derive(Clone, Copy, Debug, PartialEq, Eq)]
pub struct ONFTFundsTransferred {
    pub nft_data: Pubkey,
    pub from: Pubkey,
    pub to: Pubkey,
    pub amount: u64,
}

} // verus!
