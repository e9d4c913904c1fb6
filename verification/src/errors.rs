use vstd::prelude::*;

verus! {

/// Failure taxonomy for every operation of the core.
///
/// Each guard failure aborts the whole operation with zero mutation and
/// carries the specific tag, never a generic fault: callers can always
/// distinguish, say, "cap exceeded" from "wrong state".
///
/// The first five tags come from the record-level business guards; the
/// last two surface from the record-addressing layer (identity match
/// and create-if-absent semantics).
#[derive(Clone, Copy, Debug, PartialEq, Eq, Structural)]
pub enum ErrorCode {
    /// A stake withdrawal or slash asked for more than is held.
    InsufficientStake,
    /// An agent with a historical dispute may never withdraw stake.
    HasPendingDisputes,
    /// The job is not in a state from which this transition is legal.
    InvalidJobStatus,
    /// Settlement was requested with accumulated cost above the cap.
    PriceCapExceeded,
    /// A dispute was raised after the challenge window closed.
    ChallengeWindowExpired,
    /// The authenticated caller does not match the required role.
    Unauthorized,
    /// An agent record already exists for this authority.
    AlreadyRegistered,
    /// A job record already exists for this (buyer, provider) pair.
    AlreadyExists,
}

} // verus!
