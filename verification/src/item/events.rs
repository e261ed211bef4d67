//! What each operation on an item reports.

use crate::pubkey::Pubkey;
use crate::status::OrderStatus;
use vstd::prelude::*;

verus! {

/// Tokens left for another chain. The token bridge that shares the program
/// with the escrow reports this; no operation of the escrow does.
#[derive(Clone, Copy, Debug, PartialEq, Eq)]
pub struct OFTSent {
    pub guid: [u8; 32],
    pub dst_eid: u32,
    pub from: Pubkey,
    pub amount_sent_ld: u64,
    pub amount_received_ld: u64,
}

/// Tokens arrived from another chain. The token bridge that shares the
/// program with the escrow reports this; no operation of the escrow does.
#[derive(Clone, Copy, Debug, PartialEq, Eq)]
pub struct OFTReceived {
    pub guid: [u8; 32],
    pub src_eid: u32,
    pub to: Pubkey,
    pub amount_received_ld: u64,
}

/// An order was opened.
#[derive(Clone, Copy, Debug, PartialEq, Eq)]
pub struct ONFTCreated {
    pub token_id: u64,
    pub owner: Pubkey,
    pub signers: [Pubkey; 2],
    pub days_to_complete: u8,
    pub timestamp: i64,
}

/// An order moved from one status to the next.
#[derive(Clone, Copy, Debug, PartialEq, Eq)]
pub struct ONFTStatusChanged {
    pub token_id: u64,
    pub previous_status: OrderStatus,
    pub new_status: OrderStatus,
    pub changed_by: Pubkey,
    pub timestamp: i64,
}

/// A signer approved.
#[derive(Clone, Copy, Debug, PartialEq, Eq)]
pub struct ONFTSignerApproved {
    pub token_id: u64,
    pub signer_index: u8,
    pub signer: Pubkey,
    pub timestamp: i64,
}

/// An order was completed because its due time had come.
#[derive(Clone, Copy, Debug, PartialEq, Eq)]
pub struct ONFTAutoCompleted {
    pub token_id: u64,
    pub completion_due_time: i64,
    pub actual_completion_time: i64,
}

/// An item left for another chain.
#[derive(Clone, Copy, Debug, PartialEq, Eq)]
pub struct ONFTSent {
    pub guid: [u8; 32],
    pub dst_eid: u32,
    pub token_id: u64,
    pub from: Pubkey,
    pub to: [u8; 32],
}

/// An item arrived from another chain.
#[derive(Clone, Copy, Debug, PartialEq, Eq)]
pub struct ONFTReceived {
    pub guid: [u8; 32],
    pub src_eid: u32,
    pub token_id: u64,
    pub to: Pubkey,
}

} // verus!
