//! What can go wrong on the bus and in a transfer.

use vstd::prelude::*;

verus! {

/// Why a `bind` was refused.
#[derive(Clone, Copy, Debug, PartialEq, Eq, Structural)]
pub enum BindError {
    /// The address already has a handler.
    AddressConflict,
}

/// Why a call produced no success value. The three kinds call for different
/// retry policies, so a caller can always tell them apart.
#[derive(Clone, Debug, PartialEq, Eq)]
pub enum CallError<E> {
    /// The deadline passed before a response arrived.
    Timeout,
    /// The target could not be reached: no local handler, no route to the
    /// peer, or the request could not be put on the wire. The text says
    /// which.
    Transport(String),
    /// The handler ran and answered with its own error.
    Remote(E),
}

/// Why a transfer ended without completing.
#[derive(Clone, Debug, PartialEq, Eq)]
pub enum TransferError {
    /// The transfer URL does not name a peer and a resource.
    InvalidUrlError(String),
    /// A bus call of the transfer timed out.
    Timeout,
    /// A bus call of the transfer could not be delivered, for the reason that
    /// the text gives.
    Transport(String),
    /// The peer answered a call of the transfer with an error of its own.
    Remote(String),
    /// The running byte offset of the transfer left the range of offsets.
    OffsetOverflow,
}

/// How a transfer ended.
#[derive(Clone, Debug, PartialEq, Eq)]
pub enum TransferOutcome {
    Completed,
    Aborted,
    Failed(TransferError),
}

/// The cause that a failed bus call gives a transfer: the kind of failure is
/// kept, with the text that it carries.
pub open spec fn transfer_error_of(e: CallError<String>) -> TransferError {
    match e {
        CallError::Timeout => TransferError::Timeout,
        CallError::Transport(cause) => TransferError::Transport(cause),
        CallError::Remote(message) => TransferError::Remote(message),
    }
}

impl TransferError {
    /// A copy of the error.
    pub fn duplicate(&self) -> (copy: TransferError)
        ensures
            copy == *self,
    {
        match self {
            TransferError::InvalidUrlError(message) => TransferError::InvalidUrlError(
                message.clone(),
            ),
            TransferError::Timeout => TransferError::Timeout,
            TransferError::Transport(cause) => TransferError::Transport(cause.clone()),
            TransferError::Remote(message) => TransferError::Remote(message.clone()),
            TransferError::OffsetOverflow => TransferError::OffsetOverflow,
        }
    }

    /// Turns the failure of a bus call into the cause of a transfer's failure.
    pub fn from_call(e: CallError<String>) -> (cause: TransferError)
        ensures
            cause == transfer_error_of(e),
    {
        match e {
            CallError::Timeout => TransferError::Timeout,
            CallError::Transport(cause) => TransferError::Transport(cause),
            CallError::Remote(message) => TransferError::Remote(message),
        }
    }
}

} // verus!
