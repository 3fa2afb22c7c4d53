//! The ISO 7816 statuses that the applications answer with; the
//! dispatcher turns them into status words.

use vstd::prelude::*;

verus! {

/// Error statuses of the applications.
#[derive(Clone, Copy, Debug, PartialEq, Eq, Structural)]
pub enum Status {
    NotFound,
    ConditionsOfUseNotSatisfied,
    WrongLength,
    IncorrectDataParameter,
    SecurityStatusNotSatisfied,
    NotEnoughMemory,
    InstructionNotSupportedOrInvalid,
    UnspecifiedCheckingError,
    IncorrectP1OrP2Parameter,
    FunctionNotSupported,
    KeyReferenceNotFound,
    OperationBlocked,
    RemainingRetries(u8),
    SecureMessagingNotSupported,
    LogicalChannelNotSupported,
    UnspecifiedNonpersistentExecutionError,
}

} // verus!
