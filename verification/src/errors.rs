use vstd::prelude::*;

verus! {

/// Everything an escrow operation can fail with.
///
/// Each operation aborts with the first error whose condition holds, in
/// the order its contract states, and leaves every record untouched.
#[derive(Clone, Copy, PartialEq, Eq, Structural, Debug)]
pub enum SourError {
    /// The record is not in the status the operation needs.
    InvalidStatus,
    /// Only the record's creator may perform this action.
    NotCreator,
    /// Only the record's worker may perform this action.
    NotWorker,
    /// Only the creator or the worker may perform this action.
    NotParticipant,
    /// The worker identity equals the creator identity.
    SelfHandshake,
    /// The escrow amount is zero.
    ZeroAmount,
    /// The description exceeds 280 characters.
    DescriptionTooLong,
    /// The deadline does not lie strictly after the current instant.
    DeadlineInPast,
    /// The acceptance deadline has already passed.
    HandshakeExpired,
    /// The deadline has not passed yet (reserved for a deadline-based
    /// claim path; no current operation returns it).
    DeadlineNotReached,
    /// The three fee shares do not sum to 10000 basis points.
    InvalidFeeShares,
    /// The pinch fee exceeds 5000 basis points.
    InvalidPinchBps,
    /// The vault holds less than a transfer needs (reserved; the
    /// ledger capability enforces balances, so no current operation
    /// returns it).
    InsufficientEscrow,
    /// A dispute ruling other than 0 (refund) or 1 (pay worker).
    InvalidRuling,
    /// Only the protocol authority may perform this action.
    NotAuthority,
    /// A counter or lifetime total would overflow its 64-bit width.
    MathOverflow,
}

/// Everything a treasury operation can fail with.
#[derive(Clone, Copy, PartialEq, Eq, Structural, Debug)]
pub enum TreasuryError {
    /// The vault balance is below the configured batch threshold.
    BelowThreshold,
    /// The batch record was already completed.
    BatchAlreadyCompleted,
    /// A keeper reward above 500 basis points.
    InvalidKeeperReward,
    /// A counter, product or lifetime total would overflow its 64-bit
    /// width.
    Overflow,
    /// A deposit of zero.
    ZeroDeposit,
    /// Only the keeper who initiated the batch may complete it.
    NotKeeper,
    /// Only the treasury authority may perform this action.
    NotAuthority,
}

} // verus!
