//! The ways in which a call on the ledger can be refused.

use vstd::prelude::*;

verus! {

/// Why a call was refused.
#[derive(Debug, Clone, Copy, PartialEq, Eq, Structural)]
pub enum Error {
    /// The stream has been cancelled.
    StreamNotActive,
    /// Only the recipient may withdraw.
    NotRecipient,
    /// Only the sender or the recipient may cancel.
    NotAuthorized,
    /// Nothing has accrued since the last withdrawal.
    NoFundsToWithdraw,
    /// The host could not carry out a transfer.
    TransferFailed,
    /// The recipient is the null identity.
    InvalidRecipient,
    /// The duration is zero.
    InvalidDuration,
    /// No value was attached.
    InvalidAmount,
    /// The value is too small to release anything per millisecond.
    ZeroFlowRate,
    /// No stream has this identifier.
    StreamNotFound,
}

} // verus!
