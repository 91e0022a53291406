//! Data model: identities, the aggregate-statistics record, the per-donation
//! record, the notification event, and the error taxonomy.

use vstd::prelude::*;

verus! {

/// A 256-bit account identity, held as four 64-bit words.
///
/// The surrounding runtime converts its native 32-byte public keys to and
/// from this form; the core only copies and compares identities.
#[derive(Clone, Copy, PartialEq, Eq, Structural, Debug)]
pub struct Identity {
    pub w0: u64,
    pub w1: u64,
    pub w2: u64,
    pub w3: u64,
}

/// The aggregate statistics over all donations processed against one
/// deployment: how many succeeded, and the sum of their amounts.
///
/// `total_raised` is 128 bits wide so that accumulating 64-bit amounts
/// cannot overflow it under any realistic volume.
#[derive(Clone, Copy, PartialEq, Eq, Structural, Debug)]
pub struct StroompConfig {
    pub total_donations: u64,
    pub total_raised: u128,
}

/// One persisted donation. Created exactly once, never altered afterwards.
///
/// `tx_signature` is populated with the donor's identity as a placeholder
/// for a transfer receipt; it is not authoritative provenance.
#[derive(Clone, PartialEq, Eq, Debug)]
pub struct Donation {
    pub donor: Identity,
    pub streamer: Identity,
    pub amount: u64,
    pub message: String,
    pub is_anonymous: bool,
    pub timestamp: i64,
    pub tx_signature: Identity,
}

/// The notification payload broadcast after a successful donation, for
/// off-core observers. Not persisted state.
#[derive(Clone, PartialEq, Eq, Debug)]
pub struct DonationEvent {
    pub donor: Identity,
    pub streamer: Identity,
    pub amount: u64,
    pub message: String,
    pub is_anonymous: bool,
}

/// The instruction handed to the value-transfer service: move `amount`
/// from `from`'s balance to `to`'s balance, atomically.
#[derive(Clone, Copy, PartialEq, Eq, Structural, Debug)]
pub struct TransferOrder {
    pub from: Identity,
    pub to: Identity,
    pub amount: u64,
}

/// What the value-transfer service reported: the full amount moved, or
/// nothing moved at all. The service is atomic, so no third case exists.
#[derive(Clone, Copy, PartialEq, Eq, Structural, Debug)]
pub enum TransferOutcome {
    Completed,
    Failed,
}

/// Why a donation request was not processed.
#[derive(Clone, Copy, PartialEq, Eq, Structural, Debug)]
pub enum DonationError {
    /// The caller is not the donor it claims to pay as.
    Unauthorized,
    /// The supplied donation slot already holds a record.
    AllocationConflict,
    /// The value-transfer service declined or failed the movement.
    TransferFailed,
    /// Settling the donation would overflow an aggregate counter.
    AggregateOverflow,
}

} // verus!
