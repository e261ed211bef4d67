//! What is exchanged with the messaging endpoint.
//!
//! The endpoint quotes, sends, delivers and clears messages. This library
//! prepares the requests and reads the answers; the calls themselves are the
//! caller's.

use crate::pubkey::Pubkey;
use vstd::prelude::*;

verus! {

/// A message as the endpoint delivers it.
#[derive(Clone, Debug, PartialEq, Eq)]
pub struct LzReceiveParams {
    pub src_eid: u32,
    pub sender: [u8; 32],
    pub nonce: u64,
    pub guid: [u8; 32],
    pub message: Vec<u8>,
    pub extra_data: Vec<u8>,
}

/// An account that handling a message touches, with what is asked of it.
#[derive(Clone, Copy, Debug, PartialEq, Eq)]
pub struct LzAccount {
    pub pubkey: Pubkey,
    pub is_signer: bool,
    pub is_writable: bool,
}

/// The request to mark a delivered message as consumed.
#[derive(Clone, Debug, PartialEq, Eq)]
pub struct ClearParams {
    pub receiver: Pubkey,
    pub src_eid: u32,
    pub sender: [u8; 32],
    pub nonce: u64,
    pub guid: [u8; 32],
    pub message: Vec<u8>,
}

/// The request to send a message.
#[derive(Clone, Debug, PartialEq, Eq)]
pub struct SendParams {
    pub dst_eid: u32,
    pub receiver: [u8; 32],
    pub message: Vec<u8>,
    pub options: Vec<u8>,
    pub native_fee: u64,
    pub lz_token_fee: u64,
}

/// The request to quote the fee of a message.
#[derive(Clone, Debug, PartialEq, Eq)]
pub struct QuoteParams {
    pub sender: Pubkey,
    pub dst_eid: u32,
    pub receiver: [u8; 32],
    pub message: Vec<u8>,
    pub options: Vec<u8>,
    pub pay_in_lz_token: bool,
}

/// The fee of a message, in the native token and in the endpoint's token.
#[derive(Clone, Copy, Debug, PartialEq, Eq)]
pub struct MessagingFee {
    pub native_fee: u64,
    pub lz_token_fee: u64,
}

/// What the endpoint answers to a message it has sent.
#[derive(Clone, Copy, Debug, PartialEq, Eq)]
pub struct MessagingReceipt {
    pub guid: [u8; 32],
    pub nonce: u64,
    pub fee: MessagingFee,
}

/// The request to register an application with the endpoint.
#[derive(Clone, Copy, Debug, PartialEq, Eq)]
pub struct RegisterOAppParams {
    pub delegate: Pubkey,
}

} // verus!
