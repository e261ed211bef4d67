//! Why an operation was refused.

use vstd::prelude::*;

verus! {

/// Refusals of the operations on a fungible escrow.
#[derive(Clone, Copy, Debug, PartialEq, Eq, Structural)]
pub enum OFTError {
    /// The caller does not hold the role that the operation asks for.
    Unauthorized,
    /// The deployment is paused.
    SystemPaused,
    /// The amount to lock is zero, two of the parties are one address, or
    /// the agreed period ends beyond the range of a timestamp.
    InvalidPayload,
    /// The requested status does not follow the current one.
    InvalidTransition,
    /// A designated party has not signed yet.
    MissingSignatures,
    /// Funds are released only from a completed agreement.
    OrderNotComplete,
    /// The funds of this agreement were released before.
    AlreadyReleased,
    /// The message is shorter than a payload.
    MalformedMessage,
    /// No bump seed yields an address off the curve for the given seeds.
    NoViableBumpSeed,
}

/// Refusals of the operations on an item escrow and of its cross-chain
/// transfer.
#[derive(Clone, Copy, Debug, PartialEq, Eq, Structural)]
pub enum ONFTError {
    /// The caller does not hold the role that the operation asks for.
    Unauthorized,
    /// The deployment is paused.
    SystemPaused,
    /// The requested status does not follow the current one.
    InvalidTransition,
    /// A designated party has not approved yet.
    InsufficientApprovals,
    /// An item leaves only from a completed order.
    OrderNotComplete,
    /// The sender is not the peer trusted for the remote chain.
    UntrustedSender,
    /// The account named to the endpoint as sender is not the collection's
    /// store.
    InvalidSender,
    /// No peer is configured for the remote chain.
    PeerNotConfigured,
    /// The message is shorter than a payload.
    MalformedMessage,
    /// The metadata is longer than 200 bytes.
    MetadataTooLong,
    /// The two counterparties are the same address.
    InvalidPayload,
    /// The caller's message options cannot be merged with the enforced ones.
    InvalidOptions,
    /// No bump seed yields an address off the curve for the given seeds.
    NoViableBumpSeed,
}

} // verus!
