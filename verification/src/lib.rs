//! Escrow agreements over a cross-chain messaging layer.
//!
//! Two counterparties, optionally supervised by an administrator, lock an
//! asset until every designated party has approved and the agreed period has
//! run. The asset is either a unique item (`item`) or a fungible balance
//! (`fungible`). A settled item can leave for another chain and come back:
//! `msg_codec` fixes the payload that travels, `peer` holds what is trusted of
//! each remote chain, `delivery` derives the addresses that a delivery
//! touches, and `endpoint` holds the requests handed to the messaging
//! endpoint.
//!
//! Every function here works on plain values. Reading the clock, moving
//! tokens and talking to the endpoint are left to the caller.

pub mod bytes;
pub mod delivery;
pub mod endpoint;
pub mod errors;
pub mod fungible;
pub mod item;
pub mod msg_codec;
pub mod peer;
pub mod pubkey;
pub mod seeds;
pub mod status;
pub mod token;
